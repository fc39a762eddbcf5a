//! What the tools decide and write, apart from the reading and writing
//! itself.

use vstd::prelude::*;
use vstd::string::StringExecFns;
use crate::error::KtmeError;
use crate::error::KtmeErrorModel;
use crate::git::diff::ExtractedDiff;
use crate::git::diff::FileChange;
use crate::text::chars_of;
use crate::text::concat;
use crate::text::contains;
use crate::text::decimal;
use crate::text::find_in;
use crate::text::has_prefix;
use crate::text::join;
use crate::text::joined;
use crate::text::matches_at;
use crate::text::push_decimal;
use crate::text::str_eq;
use crate::text::string_of;
use crate::text::views;

verus! {

/// Where the tool `read_changes` reads from.
#[derive(Debug)]
pub enum ChangeSource {
    /// One commit, named by a reference.
    Commit(String),
    /// The staged changes.
    Staged,
    /// A range of commits, written `start..end`.
    Range(String),
    /// A file that holds the changes.
    File(String),
}

/// What a [`ChangeSource`] stands for.
pub ghost enum ChangeSourceModel {
    Commit(Seq<char>),
    Staged,
    Range(Seq<char>),
    File(Seq<char>),
}

impl View for ChangeSource {
    type V = ChangeSourceModel;

    open spec fn view(&self) -> ChangeSourceModel {
        match self {
            ChangeSource::Commit(reference) => ChangeSourceModel::Commit(reference@),
            ChangeSource::Staged => ChangeSourceModel::Staged,
            ChangeSource::Range(range) => ChangeSourceModel::Range(range@),
            ChangeSource::File(path) => ChangeSourceModel::File(path@),
        }
    }
}

/// Where a source identifier points: `commit:` and a reference name a
/// commit, `staged` the staged changes, anything with `..` in it a range,
/// and anything else a file.
pub open spec fn change_source(identifier: Seq<char>) -> ChangeSourceModel {
    if has_prefix(identifier, "commit:"@) {
        ChangeSourceModel::Commit(identifier.subrange(7, identifier.len() as int))
    } else if identifier == "staged"@ {
        ChangeSourceModel::Staged
    } else if contains(identifier, ".."@) {
        ChangeSourceModel::Range(identifier)
    } else {
        ChangeSourceModel::File(identifier)
    }
}

/// The text that lists the services.
pub open spec fn services_text(names: Seq<Seq<char>>) -> Seq<char> {
    "Services: "@ + joined(names, ", "@)
}

/// The line that describes the changes to one file.
pub open spec fn file_line(file: FileChange) -> Seq<char> {
    "- **"@ + file.path@ + "**: "@ + file.status@ + " ("@ + file.path@ + ", +"@ + decimal(
        file.additions as nat,
    ) + "/-"@ + decimal(file.deletions as nat) + ")"@
}

/// The lines that describe the changes to `files`, one for one.
pub open spec fn file_lines(files: Seq<FileChange>) -> Seq<Seq<char>> {
    Seq::new(files.len(), |i: int| file_line(files[i]))
}

/// The basic documentation of one set of changes for a service.
pub open spec fn documentation(service: Seq<char>, diff: ExtractedDiff) -> Seq<char> {
    "# Documentation for "@ + service + "\n\n## Changes\n\n**Source:** "@ + diff.source@
        + "\n**Author:** "@ + diff.author@ + "\n**Timestamp:** "@ + diff.timestamp@
        + "\n\n### Summary\n- "@ + decimal(diff.summary.total_files as nat) + " files changed\n- "@
        + decimal(diff.summary.total_additions as nat) + " additions\n- "@ + decimal(
        diff.summary.total_deletions as nat,
    ) + " deletions\n\n### Files Modified\n"@ + joined(file_lines(diff.files@), "\n"@)
        + "\n\n### Commit Message\n"@ + diff.message@ + "\n"@
}

/// What the tool `update_documentation` writes, where, and what it answers
/// once that is done.
#[derive(Debug)]
pub struct DocumentWrite {
    pub path: String,
    pub content: String,
    pub confirmation: String,
}

/// The tools of the server.
#[derive(Debug, Clone, Copy)]
pub struct McpTools;

impl McpTools {
    /// Where the changes that `file_path` names are read from.
    pub fn read_changes(file_path: &str) -> (source: ChangeSource)
        ensures
            source@ == change_source(file_path@),
    {
        let text = chars_of(file_path);
        let prefix = chars_of("commit:");
        let dots = chars_of("..");
        proof {
            reveal_strlit("commit:");
        }
        if matches_at(&text, &prefix, 0) {
            ChangeSource::Commit(string_of(&text, 7, text.len()))
        } else if str_eq(file_path, "staged") {
            ChangeSource::Staged
        } else if find_in(&text, &dots, 0).is_some() {
            ChangeSource::Range(file_path.to_string())
        } else {
            ChangeSource::File(file_path.to_string())
        }
    }

    /// The answer of the tool `list_services` for the services of these
    /// names.
    pub fn list_services(names: &Vec<String>) -> (text: String)
        ensures
            text@ == services_text(views(names@)),
    {
        let list = join(names, ", ");
        concat("Services: ", list.as_str())
    }

    /// The line that describes the changes to one file.
    pub fn file_line(file: &FileChange) -> (line: String)
        ensures
            line@ == file_line(*file),
    {
        let mut line = "- **".to_string();
        line.append(file.path.as_str());
        line.append("**: ");
        line.append(file.status.as_str());
        line.append(" (");
        line.append(file.path.as_str());
        line.append(", +");
        push_decimal(&mut line, file.additions as u64);
        line.append("/-");
        push_decimal(&mut line, file.deletions as u64);
        line.append(")");
        line
    }

    /// The basic documentation of a service from one set of changes.
    /// `changes` is `None` where the changes could not be read, which is
    /// refused. The format asked for does not change the text.
    pub fn generate_documentation(
        service: &str,
        changes: Option<&ExtractedDiff>,
        format: Option<&str>,
    ) -> (text: Result<String, KtmeError>)
        ensures
            match text {
                Ok(t) => changes is Some && t@ == documentation(service@, *changes->0),
                Err(e) => changes is None && e@ == KtmeErrorModel::InvalidInput(
                    "Invalid changes format"@,
                ),
            },
    {
        let diff = match changes {
            Some(diff) => diff,
            None => {
                return Err(KtmeError::InvalidInput("Invalid changes format".to_string()));
            },
        };
        let mut lines: Vec<String> = Vec::new();
        let mut i: usize = 0;
        while i < diff.files.len()
            invariant
                i <= diff.files.len(),
                lines.len() == i,
                forall|k: int| 0 <= k < i ==> lines@[k]@ == file_line(diff.files@[k]),
            decreases diff.files.len() - i,
        {
            lines.push(Self::file_line(&diff.files[i]));
            i += 1;
        }
        proof {
            assert(views(lines@) =~= file_lines(diff.files@));
        }
        let files = join(&lines, "\n");
        let mut text = "# Documentation for ".to_string();
        text.append(service);
        text.append("\n\n## Changes\n\n**Source:** ");
        text.append(diff.source.as_str());
        text.append("\n**Author:** ");
        text.append(diff.author.as_str());
        text.append("\n**Timestamp:** ");
        text.append(diff.timestamp.as_str());
        text.append("\n\n### Summary\n- ");
        push_decimal(&mut text, diff.summary.total_files as u64);
        text.append(" files changed\n- ");
        push_decimal(&mut text, diff.summary.total_additions as u64);
        text.append(" additions\n- ");
        push_decimal(&mut text, diff.summary.total_deletions as u64);
        text.append(" deletions\n\n### Files Modified\n");
        text.append(files.as_str());
        text.append("\n\n### Commit Message\n");
        text.append(diff.message.as_str());
        text.append("\n");
        Ok(text)
    }

    /// What the tool `update_documentation` writes: `content`, to the file
    /// `doc_path`, whatever the service.
    pub fn update_documentation(service: &str, doc_path: &str, content: &str) -> (write:
        DocumentWrite)
        ensures
            write.path@ == doc_path@,
            write.content@ == content@,
            write.confirmation@ == "Documentation updated at "@ + doc_path@,
    {
        DocumentWrite {
            path: doc_path.to_string(),
            content: content.to_string(),
            confirmation: concat("Documentation updated at ", doc_path),
        }
    }
}

} // verus!
