//! The commands on mappings: what they decide and what they print.

use vstd::prelude::*;
use vstd::string::StringExecFns;
use crate::error::KtmeError;
use crate::error::KtmeErrorModel;
use crate::storage::mapping::DocumentLocation;
use crate::storage::mapping::ServiceMapping;
use crate::text::concat;

verus! {

/// The place that a new mapping points to.
#[derive(Debug)]
pub struct NewMapping {
    pub doc_type: String,
    pub location: String,
}

/// The place that the command line names, or why it names none: an address
/// is a place on Confluence; a file is a Markdown file and must be there;
/// and one of the two must be given.
pub open spec fn new_mapping(url: Option<Seq<char>>, file: Option<Seq<char>>, file_exists: bool) -> Result<
    (Seq<char>, Seq<char>),
    KtmeErrorModel,
> {
    if url is Some {
        Ok(("confluence"@, url->0))
    } else if file is Some {
        if file_exists {
            Ok(("markdown"@, file->0))
        } else {
            Err(KtmeErrorModel::Config("File does not exist: "@ + file->0))
        }
    } else {
        Err(KtmeErrorModel::Config("Either --url or --file must be provided"@))
    }
}

/// What a place, or the refusal, stands for.
pub open spec fn mapping_model(mapping: Result<NewMapping, KtmeError>) -> Result<
    (Seq<char>, Seq<char>),
    KtmeErrorModel,
> {
    match mapping {
        Ok(m) => Ok((m.doc_type@, m.location@)),
        Err(e) => Err(e@),
    }
}

/// The line of one place.
pub open spec fn place_line(indent: Seq<char>, doc: DocumentLocation) -> Seq<char> {
    indent + "- "@ + doc.location@ + " ("@ + doc.doc_type@ + ")\n"@
}

/// The lines of `docs`, in order.
pub open spec fn place_lines(indent: Seq<char>, docs: Seq<DocumentLocation>) -> Seq<char>
    decreases docs.len(),
{
    if docs.len() == 0 {
        Seq::empty()
    } else {
        place_lines(indent, docs.drop_last()) + place_line(indent, docs.last())
    }
}

/// What is printed of one service in a list: its name, its path where it
/// has one, and its places.
pub open spec fn listed(mapping: ServiceMapping) -> Seq<char> {
    match mapping.path {
        Some(path) => "Service: "@ + mapping.name@ + "\n"@ + "  Path: "@ + path@ + "\n"@
            + "  Documentation:\n"@ + place_lines("    "@, mapping.docs@),
        None => "Service: "@ + mapping.name@ + "\n"@ + "  Documentation:\n"@ + place_lines(
            "    "@,
            mapping.docs@,
        ),
    }
}

/// The place that the command line names. `file_exists` says whether the
/// file that it names is there.
pub fn add(url: Option<String>, file: Option<String>, file_exists: bool) -> (mapping: Result<
    NewMapping,
    KtmeError,
>)
    ensures
        mapping_model(mapping) == new_mapping(
            match url {
                Some(u) => Some(u@),
                None => None,
            },
            match file {
                Some(f) => Some(f@),
                None => None,
            },
            file_exists,
        ),
{
    if let Some(location) = url {
        Ok(NewMapping { doc_type: "confluence".to_string(), location })
    } else if let Some(location) = file {
        if file_exists {
            Ok(NewMapping { doc_type: "markdown".to_string(), location })
        } else {
            Err(KtmeError::Config(concat("File does not exist: ", location.as_str())))
        }
    } else {
        Err(KtmeError::Config("Either --url or --file must be provided".to_string()))
    }
}

/// The lines of the places of a service.
pub fn places(indent: &str, docs: &Vec<DocumentLocation>) -> (text: String)
    ensures
        text@ == place_lines(indent@, docs@),
{
    let mut text = String::new();
    let mut i: usize = 0;
    while i < docs.len()
        invariant
            i <= docs.len(),
            text@ == place_lines(indent@, docs@.take(i as int)),
        decreases docs.len() - i,
    {
        let doc = &docs[i];
        proof {
            assert(docs@.take(i + 1).drop_last() =~= docs@.take(i as int));
            assert(docs@.take(i + 1).last() == docs@[i as int]);
            assert(text@ + place_line(indent@, *doc) =~= text@ + indent@ + "- "@ + doc.location@
                + " ("@ + doc.doc_type@ + ")\n"@);
        }
        text.append(indent);
        text.append("- ");
        text.append(doc.location.as_str());
        text.append(" (");
        text.append(doc.doc_type.as_str());
        text.append(")\n");
        i += 1;
    }
    proof {
        assert(docs@.take(docs.len() as int) =~= docs@);
    }
    text
}

/// What is printed of one service in a list.
pub fn list(mapping: &ServiceMapping) -> (text: String)
    ensures
        text@ == listed(*mapping),
{
    let mut text = "Service: ".to_string();
    text.append(mapping.name.as_str());
    text.append("\n");
    match &mapping.path {
        Some(path) => {
            text.append("  Path: ");
            text.append(path.as_str());
            text.append("\n");
        },
        None => {},
    }
    text.append("  Documentation:\n");
    text.append(places("    ", &mapping.docs).as_str());
    text
}

} // verus!
