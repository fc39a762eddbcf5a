//! The frame around generated documentation.

use vstd::prelude::*;
use crate::error::KtmeError;
use crate::text::concat;
use crate::text::concat3;

verus! {

/// Frames generated documentation, with a template where one is given.
#[derive(Debug, Clone)]
pub struct DocumentGenerator {
    template: Option<String>,
}

impl DocumentGenerator {
    /// The template of the generator.
    pub closed spec fn template_of(&self) -> Option<String> {
        self.template
    }

    /// A generator with this template.
    pub fn new(template: Option<String>) -> (generator: Self)
        ensures
            generator.template_of() == template,
    {
        Self { template }
    }

    /// The template of the generator.
    pub fn template(&self) -> (template: &Option<String>)
        ensures
            *template == self.template_of(),
    {
        &self.template
    }

    /// The document for `content`: a heading and the content.
    pub fn generate(&self, content: &str) -> (document: Result<String, KtmeError>)
        ensures
            document is Ok,
            document->Ok_0@ == "# Generated Documentation\n\n"@ + content@,
    {
        Ok(concat("# Generated Documentation\n\n", content))
    }

    /// The document `existing` with `new_content` under a heading of its
    /// own at the end.
    pub fn update(&self, existing: &str, new_content: &str) -> (document: Result<String, KtmeError>)
        ensures
            document is Ok,
            document->Ok_0@ == existing@ + "\n\n## Update\n\n"@ + new_content@,
    {
        Ok(concat3(existing, "\n\n## Update\n\n", new_content))
    }
}

} // verus!
