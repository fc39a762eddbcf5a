//! The command that generates documentation: where the changes come from,
//! what is asked, and how the answer is framed.

use vstd::prelude::*;
use vstd::string::StringExecFns;
use crate::ai::prompts::diff_content;
use crate::ai::prompts::PromptTemplates;
use crate::error::KtmeError;
use crate::error::KtmeErrorModel;
use crate::git::diff::DiffExtractor;
use crate::git::diff::ExtractedDiff;
use crate::text::decimal;
use crate::text::decimal_string;
use crate::text::replace;
use crate::text::replaced;
use crate::text::str_eq;

verus! {

/// Where the changes come from.
#[derive(Debug)]
pub enum DiffOrigin {
    /// A file that holds them.
    InputFile(String),
    /// The repository.
    Repository(DiffExtractor),
}

/// What a [`DiffOrigin`] stands for.
pub ghost enum DiffOriginModel {
    InputFile(Seq<char>),
    Repository { source: Seq<char>, identifier: Seq<char> },
}

impl View for DiffOrigin {
    type V = DiffOriginModel;

    open spec fn view(&self) -> DiffOriginModel {
        match self {
            DiffOrigin::InputFile(path) => DiffOriginModel::InputFile(path@),
            DiffOrigin::Repository(extractor) => DiffOriginModel::Repository {
                source: extractor.source@,
                identifier: extractor.identifier@,
            },
        }
    }
}

/// Where the command takes the changes from, or why from nowhere: an input
/// file comes first, then a commit, then the staged changes; a pull
/// request cannot be read yet; and one of the four must be named.
pub open spec fn generation_source(
    commit: Option<Seq<char>>,
    input: Option<Seq<char>>,
    pr: bool,
    staged: bool,
) -> Result<DiffOriginModel, KtmeErrorModel> {
    if input is Some {
        Ok(DiffOriginModel::InputFile(input->0))
    } else if commit is Some {
        Ok(DiffOriginModel::Repository { source: "commit"@, identifier: commit->0 })
    } else if staged {
        Ok(DiffOriginModel::Repository { source: "staged"@, identifier: "staged"@ })
    } else if pr {
        Err(
            KtmeErrorModel::UnsupportedProvider(
                "PR-based documentation generation is not yet implemented"@,
            ),
        )
    } else {
        Err(
            KtmeErrorModel::InvalidInput(
                "No source specified. Use --commit, --input, --staged, or --pr"@,
            ),
        )
    }
}

/// What an origin, or the refusal, stands for.
pub open spec fn origin_model(origin: Result<DiffOrigin, KtmeError>) -> Result<
    DiffOriginModel,
    KtmeErrorModel,
> {
    match origin {
        Ok(o) => Ok(o@),
        Err(e) => Err(e@),
    }
}

/// How the documentation is written out.
#[derive(Debug, Clone, Copy, PartialEq, Eq, Structural)]
pub enum OutputFormat {
    Markdown,
    Json,
}

/// The format that the command line asks for: JSON where it says `json`,
/// Markdown for anything else.
pub open spec fn chosen_format(format: Option<Seq<char>>) -> OutputFormat {
    if format == Some("json"@) {
        OutputFormat::Json
    } else {
        OutputFormat::Markdown
    }
}

/// A template with the facts of a set of changes in place of its marks,
/// and the changes at the end.
pub open spec fn custom_prompt(template: Seq<char>, diff: ExtractedDiff) -> Seq<char> {
    replaced(
        replaced(
            replaced(
                replaced(
                    replaced(
                        replaced(
                            replaced(template, "{{SERVICE}}"@, diff.source@),
                            "{{AUTHOR}}"@,
                            diff.author@,
                        ),
                        "{{MESSAGE}}"@,
                        diff.message@,
                    ),
                    "{{TIMESTAMP}}"@,
                    diff.timestamp@,
                ),
                "{{FILES_CHANGED}}"@,
                decimal(diff.summary.total_files as nat),
            ),
            "{{ADDITIONS}}"@,
            decimal(diff.summary.total_additions as nat),
        ),
        "{{DELETIONS}}"@,
        decimal(diff.summary.total_deletions as nat),
    ) + "\n\nChanges:\n"@ + diff_content(diff.files@)
}

/// The documentation in its frame: for which service, of which kind, and
/// when it was generated.
pub open spec fn framed(
    content: Seq<char>,
    doc_type: Seq<char>,
    service: Seq<char>,
    timestamp: Seq<char>,
) -> Seq<char> {
    "# Documentation for "@ + service + "\n\n**Type**: "@ + doc_type + "\n**Generated**: "@
        + timestamp + "\n\n---\n\n"@ + content
}

/// Where the command takes the changes from.
pub fn execute(commit: Option<String>, input: Option<String>, pr: Option<u32>, staged: bool) -> (origin:
    Result<DiffOrigin, KtmeError>)
    ensures
        origin_model(origin) == generation_source(
            match commit {
                Some(c) => Some(c@),
                None => None,
            },
            match input {
                Some(i) => Some(i@),
                None => None,
            },
            pr is Some,
            staged,
        ),
{
    if let Some(path) = input {
        Ok(DiffOrigin::InputFile(path))
    } else if let Some(reference) = commit {
        Ok(DiffOrigin::Repository(DiffExtractor::new("commit".to_string(), reference)))
    } else if staged {
        Ok(
            DiffOrigin::Repository(
                DiffExtractor::new("staged".to_string(), "staged".to_string()),
            ),
        )
    } else if pr.is_some() {
        Err(
            KtmeError::UnsupportedProvider(
                "PR-based documentation generation is not yet implemented".to_string(),
            ),
        )
    } else {
        Err(
            KtmeError::InvalidInput(
                "No source specified. Use --commit, --input, --staged, or --pr".to_string(),
            ),
        )
    }
}

/// The kind of document to write: `general` where none is named.
pub fn doc_type(named: Option<&str>) -> (kind: &str)
    ensures
        kind@ == match named {
            Some(n) => n@,
            None => "general"@,
        },
{
    match named {
        Some(n) => n,
        None => "general",
    }
}

/// The format that the command line asks for.
pub fn output_format(format: Option<&str>) -> (chosen: OutputFormat)
    ensures
        chosen == chosen_format(
            match format {
                Some(f) => Some(f@),
                None => None,
            },
        ),
{
    match format {
        Some(f) => if str_eq(f, "json") {
            OutputFormat::Json
        } else {
            OutputFormat::Markdown
        },
        None => OutputFormat::Markdown,
    }
}

/// The prompt that a template of the user's makes for a set of changes.
pub fn load_custom_template(template_content: &str, diff: &ExtractedDiff) -> (prompt: String)
    ensures
        prompt@ == custom_prompt(template_content@, *diff),
{
    let prompt = replace(template_content, "{{SERVICE}}", diff.source.as_str());
    let prompt = replace(prompt.as_str(), "{{AUTHOR}}", diff.author.as_str());
    let prompt = replace(prompt.as_str(), "{{MESSAGE}}", diff.message.as_str());
    let prompt = replace(prompt.as_str(), "{{TIMESTAMP}}", diff.timestamp.as_str());
    let files = decimal_string(diff.summary.total_files as u64);
    let prompt = replace(prompt.as_str(), "{{FILES_CHANGED}}", files.as_str());
    let additions = decimal_string(diff.summary.total_additions as u64);
    let prompt = replace(prompt.as_str(), "{{ADDITIONS}}", additions.as_str());
    let deletions = decimal_string(diff.summary.total_deletions as u64);
    let mut prompt = replace(prompt.as_str(), "{{DELETIONS}}", deletions.as_str());
    prompt.append("\n\nChanges:\n");
    prompt.append(PromptTemplates::format_diff_content(diff).as_str());
    prompt
}

/// The documentation in its frame. `timestamp` says when it was generated.
pub fn format_documentation(content: &str, doc_type: &str, service: &str, timestamp: &str) -> (text:
    String)
    ensures
        text@ == framed(content@, doc_type@, service@, timestamp@),
{
    let mut text = "# Documentation for ".to_string();
    text.append(service);
    text.append("\n\n**Type**: ");
    text.append(doc_type);
    text.append("\n**Generated**: ");
    text.append(timestamp);
    text.append("\n\n---\n\n");
    text.append(content);
    text
}

} // verus!
