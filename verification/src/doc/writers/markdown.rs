//! Where Markdown files are written.

use vstd::prelude::*;

verus! {

/// Writes Markdown files, below a base directory where one is given.
#[derive(Debug, Clone)]
pub struct MarkdownWriter {
    base_path: Option<String>,
}

impl MarkdownWriter {
    /// The base directory.
    pub closed spec fn base(&self) -> Option<String> {
        self.base_path
    }

    /// A writer below `base_path`.
    pub fn new(base_path: Option<String>) -> (writer: Self)
        ensures
            writer.base() == base_path,
    {
        Self { base_path }
    }

    /// The base directory.
    pub fn base_path(&self) -> (path: &Option<String>)
        ensures
            *path == self.base(),
    {
        &self.base_path
    }
}

} // verus!
