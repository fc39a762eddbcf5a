//! The provider that keeps documents as Markdown files. Here are its rules;
//! reading and writing the files is the caller's part.

use vstd::prelude::*;
use vstd::string::StringExecFns;
use crate::doc::providers::config::MarkdownConfig;
use crate::doc::providers::Document;
use crate::doc::providers::PublishResult;
use crate::doc::providers::PublishStatus;
use crate::text::chars_of;
use crate::text::concat;
use crate::text::contains;
use crate::text::find;
use crate::text::find_in;
use crate::text::str_contains;
use crate::text::str_eq;
use crate::text::string_of;

verus! {

/// Whether `std::path::Path::is_absolute` calls a path absolute.
pub uninterp spec fn path_is_absolute(path: Seq<char>) -> bool;

/// The path that `std::path::Path::join` makes of a base and a path.
pub uninterp spec fn path_join(base: Seq<char>, path: Seq<char>) -> Seq<char>;

/// The extension that `std::path::Path::extension` finds in a path.
pub uninterp spec fn path_extension(path: Seq<char>) -> Option<Seq<char>>;

/// The path that `std::path::Path::with_extension` makes of a path and an
/// extension.
pub uninterp spec fn path_with_extension(path: Seq<char>, extension: Seq<char>) -> Seq<char>;

/// Calls `std::path::Path::is_absolute`.
#[verifier::external_body]
fn is_absolute(path: &str) -> (absolute: bool)
    ensures
        absolute == path_is_absolute(path@),
{
    std::path::Path::new(path).is_absolute()
}

/// Calls `std::path::Path::join`. Both parts are valid text, so the joined
/// path is too and nothing is lost in turning it into a string.
#[verifier::external_body]
fn join_paths(base: &str, path: &str) -> (joined: String)
    ensures
        joined@ == path_join(base@, path@),
{
    std::path::Path::new(base).join(path).to_string_lossy().into_owned()
}

/// Calls `std::path::Path::extension`.
#[verifier::external_body]
fn extension_of(path: &str) -> (extension: Option<String>)
    ensures
        match extension {
            Some(e) => path_extension(path@) == Some(e@),
            None => path_extension(path@) is None,
        },
{
    std::path::Path::new(path).extension().and_then(|e| e.to_str()).map(|e| e.to_string())
}

/// Calls `std::path::Path::with_extension`, which does not take an
/// extension with a path separator in it.
#[verifier::external_body]
fn with_extension(path: &str, extension: &str) -> (changed: String)
    requires
        is_plain(extension@),
    ensures
        changed@ == path_with_extension(path@, extension@),
{
    std::path::Path::new(path).with_extension(extension).to_string_lossy().into_owned()
}

/// Whether a text holds no path separator.
pub open spec fn is_plain(text: Seq<char>) -> bool {
    forall|i: int| 0 <= i < text.len() ==> #[trigger] text[i] != '/' && text[i] != '\\'
}

/// Whether a text holds no path separator.
pub fn check_plain(text: &str) -> (plain: bool)
    ensures
        plain == is_plain(text@),
{
    let chars = chars_of(text);
    let mut i: usize = 0;
    while i < chars.len()
        invariant
            i <= chars.len(),
            chars@ == text@,
            forall|k: int| 0 <= k < i ==> #[trigger] text@[k] != '/' && text@[k] != '\\',
        decreases chars.len() - i,
    {
        if chars[i] == '/' || chars[i] == '\\' {
            return false;
        }
        i += 1;
    }
    true
}

/// The file of a document: `location` itself where it is absolute, else
/// `location` below the base directory; with the extension of Markdown
/// files in place of any other and where there is none.
pub open spec fn resolved_path(base: Seq<char>, extension: Seq<char>, location: Seq<char>) -> Seq<
    char,
> {
    let path = if path_is_absolute(location) {
        location
    } else {
        path_join(base, location)
    };
    if path_extension(path) == Some(extension) {
        path
    } else {
        path_with_extension(path, extension)
    }
}

/// A document with one section put in place: everything before the first
/// heading of the section, then the heading and the new content; and where
/// the document has no such heading, the document, then the heading and
/// the new content.
pub open spec fn with_section(document: Seq<char>, section: Seq<char>, content: Seq<char>) -> Seq<
    char,
> {
    match find(document, "## "@ + section) {
        Some(start) => document.subrange(0, start) + "\n"@ + ("## "@ + section) + "\n"@ + content,
        None => document + "\n\n## "@ + section + "\n"@ + content,
    }
}

/// Keeps documents as Markdown files below a base directory.
#[derive(Debug, Clone)]
pub struct MarkdownProvider {
    config: MarkdownConfig,
    base_path: String,
}

impl MarkdownProvider {
    /// The base directory.
    pub closed spec fn base(&self) -> Seq<char> {
        self.base_path@
    }

    /// The extension of the files.
    pub closed spec fn extension(&self) -> Seq<char> {
        self.config.extension@
    }

    /// A provider with this configuration.
    pub fn new(config: MarkdownConfig) -> (provider: Self)
        ensures
            provider.base() == config.base_path@,
            provider.extension() == config.extension@,
    {
        let base_path = config.base_path.clone();
        Self { config, base_path }
    }

    /// The configuration.
    pub fn config(&self) -> (config: &MarkdownConfig)
        ensures
            config.extension@ == self.extension(),
    {
        &self.config
    }

    /// The provider's name.
    pub fn name(&self) -> (name: &'static str)
        ensures
            name@ == "markdown"@,
    {
        "markdown"
    }

    /// The file of the document at `location`.
    pub fn resolve_path(&self, location: &str) -> (path: String)
        requires
            is_plain(self.extension()),
        ensures
            path@ == resolved_path(self.base(), self.extension(), location@),
    {
        let path = if is_absolute(location) {
            location.to_string()
        } else {
            join_paths(self.base_path.as_str(), location)
        };
        let same = match extension_of(path.as_str()) {
            Some(extension) => str_eq(extension.as_str(), self.config.extension.as_str()),
            None => false,
        };
        if same {
            path
        } else {
            with_extension(path.as_str(), self.config.extension.as_str())
        }
    }

    /// The file of the document at `location`, or nothing where the
    /// extension of the configuration holds a path separator.
    pub fn try_resolve_path(&self, location: &str) -> (path: Option<String>)
        ensures
            match path {
                Some(p) => is_plain(self.extension()) && p@ == resolved_path(
                    self.base(),
                    self.extension(),
                    location@,
                ),
                None => !is_plain(self.extension()),
            },
    {
        if check_plain(self.config.extension.as_str()) {
            Some(self.resolve_path(location))
        } else {
            None
        }
    }

    /// What creating the document `id` at `url` came to.
    pub fn create_document(id: &str, url: String) -> (result: PublishResult)
        ensures
            result.document_id@ == id@,
            result.url == url,
            result.version == 1,
            result.status is Created,
    {
        PublishResult { document_id: id.to_string(), url, version: 1, status: PublishStatus::Created }
    }

    /// What putting `content` in place of `old_content` comes to: nothing
    /// changes where the two are the same, else the document is updated.
    pub fn update_document(id: &str, url: String, old_content: &str, content: &str) -> (result:
        PublishResult)
        ensures
            result.document_id@ == id@,
            result.url == url,
            old_content@ == content@ ==> result.version == 1 && result.status is NoChanges,
            old_content@ != content@ ==> result.version == 2 && result.status is Updated,
    {
        if str_eq(old_content, content) {
            PublishResult {
                document_id: id.to_string(),
                url,
                version: 1,
                status: PublishStatus::NoChanges,
            }
        } else {
            PublishResult {
                document_id: id.to_string(),
                url,
                version: 2,
                status: PublishStatus::Updated,
            }
        }
    }

    /// The document `old_content` with `content` put in place as the
    /// section `section`.
    pub fn update_section(old_content: &str, section: &str, content: &str) -> (document: String)
        ensures
            document@ == with_section(old_content@, section@, content@),
    {
        let header = concat("## ", section);
        let text = chars_of(old_content);
        let needle = chars_of(header.as_str());
        match find_in(&text, &needle, 0) {
            Some(start) => {
                let mut document = string_of(&text, 0, start);
                document.append("\n");
                document.append(header.as_str());
                document.append("\n");
                document.append(content);
                document
            },
            None => {
                let mut document = old_content.to_string();
                document.append("\n\n## ");
                document.append(section);
                document.append("\n");
                document.append(content);
                document
            },
        }
    }

    /// Whether a search for `query` finds `document`: in its content or in
    /// its title.
    pub fn matches(document: &Document, query: &str) -> (found: bool)
        ensures
            found == (contains(document.content@, query@) || contains(document.title@, query@)),
    {
        str_contains(document.content.as_str(), query) || str_contains(
            document.title.as_str(),
            query,
        )
    }
}

} // verus!
