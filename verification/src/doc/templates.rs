//! Named templates.

use vstd::prelude::*;
use crate::error::KtmeError;
use crate::text::str_eq;

verus! {

/// One template under its name.
#[derive(Debug, Clone)]
pub struct Template {
    pub name: String,
    pub content: String,
}

/// The content of the first of `templates` from index `from` on whose name
/// is `name`.
pub open spec fn content_from(templates: Seq<Template>, name: Seq<char>, from: int) -> Option<
    Seq<char>,
>
    decreases templates.len() - from,
{
    if from < 0 || from >= templates.len() {
        None
    } else if templates[from].name@ == name {
        Some(templates[from].content@)
    } else {
        content_from(templates, name, from + 1)
    }
}

/// Whether no two of `templates` have one name.
pub open spec fn names_differ(templates: Seq<Template>) -> bool {
    forall|i: int, j: int|
        0 <= i < j < templates.len() ==> (#[trigger] templates[i]).name@ != (
            #[trigger] templates[j]).name@
}

/// A template that stands at an index at or after `from` is found under
/// its name, where no two templates have one name.
pub proof fn lemma_content_at(templates: Seq<Template>, from: int, at: int)
    requires
        names_differ(templates),
        0 <= from <= at < templates.len(),
    ensures
        content_from(templates, templates[at].name@, from) == Some(templates[at].content@),
    decreases at - from,
{
    if from < at {
        lemma_content_at(templates, from + 1, at);
    }
}

/// A name that no template from `from` on has is not found.
pub proof fn lemma_content_missing(templates: Seq<Template>, name: Seq<char>, from: int)
    requires
        0 <= from,
        forall|k: int| from <= k < templates.len() ==> (#[trigger] templates[k]).name@ != name,
    ensures
        content_from(templates, name, from) is None,
    decreases templates.len() - from,
{
    if from < templates.len() {
        lemma_content_missing(templates, name, from + 1);
    }
}

/// What is found under a name depends only on the templates of that name.
pub proof fn lemma_content_same(a: Seq<Template>, b: Seq<Template>, name: Seq<char>, from: int)
    requires
        0 <= from,
        a.len() == b.len(),
        forall|k: int|
            from <= k < a.len() ==> ((#[trigger] a[k]).name@ == name <==> (#[trigger] b[k]).name@
                == name) && (a[k].name@ == name ==> a[k].content@ == b[k].content@),
    ensures
        content_from(a, name, from) == content_from(b, name, from),
    decreases a.len() - from,
{
    if from < a.len() {
        lemma_content_same(a, b, name, from + 1);
    }
}

/// Holds templates by name and renders them.
#[derive(Debug)]
pub struct TemplateEngine {
    templates: Vec<Template>,
}

impl TemplateEngine {
    /// No two templates of the engine have one name.
    #[verifier::type_invariant]
    spec fn well_formed(&self) -> bool {
        names_differ(self.templates@)
    }

    /// The content of the template `name`, where the engine holds one.
    pub closed spec fn template(&self, name: Seq<char>) -> Option<Seq<char>> {
        content_from(self.templates@, name, 0)
    }

    /// How many templates the engine holds.
    pub closed spec fn count(&self) -> nat {
        self.templates@.len()
    }

    /// An engine without templates.
    pub fn new() -> (engine: Self)
        ensures
            engine.count() == 0,
            forall|name: Seq<char>| engine.template(name) is None,
    {
        Self { templates: Vec::new() }
    }

    /// Puts `content` under `name`, in place of what stood there.
    pub fn load_template(&mut self, name: &str, content: String)
        ensures
            final(self).template(name@) == Some(content@),
            forall|other: Seq<char>|
                other != name@ ==> final(self).template(other) == old(self).template(other),
            final(self).count() == if old(self).template(name@) is Some {
                old(self).count()
            } else {
                old(self).count() + 1
            },
    {
        proof {
            use_type_invariant(&*self);
        }
        let ghost before = self.templates@;
        let mut updated: Vec<Template> = Vec::new();
        let mut found = false;
        let mut i: usize = 0;
        while i < self.templates.len()
            invariant
                i <= self.templates.len(),
                self.templates@ == before,
                updated.len() == i,
                forall|k: int|
                    0 <= k < i ==> (#[trigger] updated@[k]).name@ == before[k].name@ && updated@[k].content@
                        == if before[k].name@ == name@ {
                        content@
                    } else {
                        before[k].content@
                    },
                found <==> exists|k: int| 0 <= k < i && (#[trigger] before[k]).name@ == name@,
            decreases self.templates.len() - i,
        {
            let template = &self.templates[i];
            if str_eq(template.name.as_str(), name) {
                updated.push(Template { name: template.name.clone(), content: content.clone() });
                found = true;
            } else {
                updated.push(
                    Template { name: template.name.clone(), content: template.content.clone() },
                );
            }
            i += 1;
        }
        if !found {
            updated.push(Template { name: name.to_string(), content });
        }
        proof {
            let after = updated@;
            assert(names_differ(after)) by {
                assert forall|a: int, b: int| 0 <= a < b < after.len() implies (
                #[trigger] after[a]).name@ != (#[trigger] after[b]).name@ by {
                    if b < before.len() {
                        assert(before[a].name@ != before[b].name@);
                    } else {
                        assert(before[a].name@ != name@);
                    }
                }
            }
            if found {
                let at = choose|k: int| 0 <= k < before.len() && (#[trigger] before[k]).name@ == name@;
                lemma_content_at(after, 0, at);
                lemma_content_at(before, 0, at);
                assert forall|other: Seq<char>| other != name@ implies content_from(after, other, 0)
                    == content_from(before, other, 0) by {
                    lemma_content_same(after, before, other, 0);
                }
            } else {
                lemma_content_at(after, 0, after.len() - 1);
                lemma_content_missing(before, name@, 0);
                assert forall|other: Seq<char>| other != name@ implies content_from(after, other, 0)
                    == content_from(before, other, 0) by {
                    lemma_content_prefix(before, after, other, 0);
                }
            }
        }
        self.templates = updated;
    }

    /// The content of the template `name`, where the engine holds one.
    pub fn get_template(&self, name: &str) -> (content: Option<&str>)
        ensures
            match content {
                Some(c) => self.template(name@) == Some(c@),
                None => self.template(name@) is None,
            },
    {
        let mut i: usize = 0;
        while i < self.templates.len()
            invariant
                i <= self.templates.len(),
                content_from(self.templates@, name@, 0) == content_from(
                    self.templates@,
                    name@,
                    i as int,
                ),
            decreases self.templates.len() - i,
        {
            if str_eq(self.templates[i].name.as_str(), name) {
                return Some(self.templates[i].content.as_str());
            }
            i += 1;
        }
        None
    }

    /// The rendering of a template, which is the same fixed text for every
    /// template and every set of variables.
    pub fn render(&self, template_name: &str, variables: &Vec<Template>) -> (text: Result<
        String,
        KtmeError,
    >)
        ensures
            text is Ok,
            text->Ok_0@ == "Rendered content"@,
    {
        Ok("Rendered content".to_string())
    }
}

/// Templates that are added at the end under another name change nothing
/// of what is found under a name.
pub proof fn lemma_content_prefix(a: Seq<Template>, b: Seq<Template>, name: Seq<char>, from: int)
    requires
        0 <= from,
        a.len() <= b.len(),
        forall|k: int|
            0 <= k < a.len() ==> (#[trigger] a[k]).name@ == b[k].name@ && a[k].content@
                == b[k].content@,
        forall|k: int| a.len() <= k < b.len() ==> (#[trigger] b[k]).name@ != name,
    ensures
        content_from(a, name, from) == content_from(b, name, from),
    decreases b.len() - from,
{
    if from < b.len() {
        lemma_content_prefix(a, b, name, from + 1);
    }
}

impl Default for TemplateEngine {
    fn default() -> (engine: Self)
        ensures
            engine.count() == 0,
    {
        Self::new()
    }
}

} // verus!
