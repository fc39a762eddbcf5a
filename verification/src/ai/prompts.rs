//! The prompts that ask a model for documentation.

use vstd::prelude::*;
use vstd::string::StringExecFns;
use crate::error::KtmeError;
use crate::git::diff::ExtractedDiff;
use crate::git::diff::FileChange;
use crate::text::decimal;
use crate::text::push_decimal;
use crate::text::str_eq;
use crate::text::trim;
use crate::text::trim_spaces;

verus! {

/// The instructions for a changelog entry.
pub const CHANGELOG_PROMPT: &'static str = r#"You are a technical writer generating changelog entries. Based on the provided Git diff, create a clear, concise changelog entry following this format:

## [Version] - [Date]

### Added
- New features and functionality

### Changed
- Modifications to existing functionality

### Fixed
- Bug fixes

### Removed
- Deprecated or removed features

Guidelines:
- Use present tense ("Adds support for..." not "Added support for...")
- Focus on user impact, not implementation details
- Group related changes together
- Keep entries brief but informative
- Use bullet points with hyphens"#;

/// The instructions for API documentation.
pub const API_DOC_PROMPT: &'static str = r#"You are a technical writer documenting API changes. Based on the provided Git diff, update the API documentation following this format:

# API Documentation

## Overview
[Brief description of what this API does]

## Changes
[Document what changed in this version]

## Endpoints
### [Method] [Path]
**Description**: [What this endpoint does]

**Request Parameters:**
- `param1` (type): Description
- `param2` (type): Description

**Response:**
```json
{
  "field": "description"
}
```

**Example:**
```bash
curl -X METHOD url \
  -H "Header: value" \
  -d '{"key": "value"}'
```

Guidelines:
- Document all new or modified endpoints
- Include request/response schemas
- Provide practical examples
- Note any breaking changes
- Use clear, consistent formatting"#;

/// The instructions for a README.
pub const README_PROMPT: &'static str = r#"You are a technical writer updating README documentation. Based on the provided Git diff, update the README content to reflect the changes.

Focus on:
1. **Feature descriptions** - What does this do?
2. **Installation/Setup** - Any new requirements?
3. **Usage examples** - How to use the new functionality
4. **Configuration** - Any new settings?
5. **Migration notes** - Breaking changes?

Format:
# Project Name

## Description
[Brief project description]

## Features
- Existing features
- [NEW] New features from this diff

## Installation
[Installation instructions]

## Usage
```bash
# Example commands
```

## Configuration
[Configuration details]

Guidelines:
- Keep it user-friendly
- Include practical examples
- Highlight new features clearly
- Maintain consistent formatting"#;

/// The instructions for a commit message.
pub const COMMIT_MESSAGE_PROMPT: &'static str = r#"You are helping write better commit messages. Based on the provided Git diff, generate a conventional commit message.

Format:
<type>[optional scope]: <description>

[optional body]

[optional footer(s)]

Types:
- feat: A new feature
- fix: A bug fix
- docs: Documentation only changes
- style: Changes that do not affect the meaning of the code
- refactor: A code change that neither fixes a bug nor adds a feature
- perf: A code change that improves performance
- test: Adding missing tests or correcting existing tests
- chore: Changes to the build process or auxiliary tools

Guidelines:
- Use the imperative mood ("add" not "added")
- Keep the first line under 50 characters
- Wrap the body at 72 characters
- Explain what and why, not how"#;

/// The instructions for any other kind of document.
pub const GENERAL_PROMPT: &'static str = r#"You are a technical documentation specialist. Based on the provided Git diff, generate clear, comprehensive documentation that explains:

1. What changed in the code
2. Why these changes were made
3. How the changes affect users or other developers
4. Any important implementation details

Requirements:
- Be clear and concise
- Focus on the user/developer perspective
- Include relevant code examples
- Explain any breaking changes
- Use proper formatting with headers and code blocks

Generate documentation in Markdown format."#;

/// The instructions for a kind of document. A kind that has none of its own
/// gets the general ones.
pub open spec fn base_prompt(doc_type: Seq<char>) -> Seq<char> {
    if doc_type == "changelog"@ {
        CHANGELOG_PROMPT@
    } else if doc_type == "api-doc"@ {
        API_DOC_PROMPT@
    } else if doc_type == "readme"@ {
        README_PROMPT@
    } else if doc_type == "commit-message"@ {
        COMMIT_MESSAGE_PROMPT@
    } else {
        GENERAL_PROMPT@
    }
}

/// The summary of a set of changes: what names it, who made it and when, its
/// message without the white space around it, and its size.
pub open spec fn diff_summary(diff: ExtractedDiff) -> Seq<char> {
    "Commit: "@ + diff.identifier@ + "\nAuthor: "@ + diff.author@ + "\nTimestamp: "@
        + diff.timestamp@ + "\nMessage: "@ + trim_spaces(diff.message@) + "\nFiles changed: "@
        + decimal(diff.summary.total_files as nat) + " (+"@ + decimal(
        diff.summary.total_additions as nat,
    ) + "/-"@ + decimal(diff.summary.total_deletions as nat) + ")"@
}

/// The section that shows the changes to one file.
pub open spec fn file_section(file: FileChange) -> Seq<char> {
    "\n## File: "@ + file.path@ + " ("@ + file.status@ + ")\n```\n"@ + file.diff@ + "\n```\n"@
}

/// The sections of `files`, in order.
pub open spec fn diff_content(files: Seq<FileChange>) -> Seq<char>
    decreases files.len(),
{
    if files.len() == 0 {
        Seq::empty()
    } else {
        diff_content(files.drop_last()) + file_section(files.last())
    }
}

/// The prompt for a document of one kind about one set of changes: the
/// instructions, the context where there is some, the summary and the
/// changes.
pub open spec fn documentation_prompt(
    diff: ExtractedDiff,
    doc_type: Seq<char>,
    context: Option<Seq<char>>,
) -> Seq<char> {
    match context {
        Some(c) => base_prompt(doc_type) + "\n\n"@ + "\nAdditional Context:\n"@ + c + "\n"@
            + diff_summary(diff) + "\n\nChanges:\n"@ + diff_content(diff.files@),
        None => base_prompt(doc_type) + "\n\n"@ + diff_summary(diff) + "\n\nChanges:\n"@
            + diff_content(diff.files@),
    }
}

/// The prompts.
#[derive(Debug, Clone, Copy)]
pub struct PromptTemplates;

impl PromptTemplates {
    /// The prompt for a document of the kind `doc_type` about `diff`.
    pub fn generate_documentation_prompt(
        diff: &ExtractedDiff,
        doc_type: &str,
        context: Option<&str>,
    ) -> (prompt: Result<String, KtmeError>)
        ensures
            prompt is Ok,
            prompt->Ok_0@ == documentation_prompt(
                *diff,
                doc_type@,
                match context {
                    Some(c) => Some(c@),
                    None => None,
                },
            ),
    {
        let mut prompt = if str_eq(doc_type, "changelog") {
            Self::changelog_prompt()
        } else if str_eq(doc_type, "api-doc") {
            Self::api_doc_prompt()
        } else if str_eq(doc_type, "readme") {
            Self::readme_prompt()
        } else if str_eq(doc_type, "commit-message") {
            Self::commit_message_prompt()
        } else {
            Self::general_prompt()
        };
        prompt.append("\n\n");
        match context {
            Some(c) => {
                prompt.append("\nAdditional Context:\n");
                prompt.append(c);
                prompt.append("\n");
            },
            None => {},
        }
        prompt.append(Self::format_diff_summary(diff).as_str());
        prompt.append("\n\nChanges:\n");
        prompt.append(Self::format_diff_content(diff).as_str());
        Ok(prompt)
    }

    /// The instructions for a changelog entry.
    pub fn changelog_prompt() -> (prompt: String)
        ensures
            prompt@ == CHANGELOG_PROMPT@,
    {
        CHANGELOG_PROMPT.to_string()
    }

    /// The instructions for API documentation.
    pub fn api_doc_prompt() -> (prompt: String)
        ensures
            prompt@ == API_DOC_PROMPT@,
    {
        API_DOC_PROMPT.to_string()
    }

    /// The instructions for a README.
    pub fn readme_prompt() -> (prompt: String)
        ensures
            prompt@ == README_PROMPT@,
    {
        README_PROMPT.to_string()
    }

    /// The instructions for a commit message.
    pub fn commit_message_prompt() -> (prompt: String)
        ensures
            prompt@ == COMMIT_MESSAGE_PROMPT@,
    {
        COMMIT_MESSAGE_PROMPT.to_string()
    }

    /// The instructions for any other kind of document.
    pub fn general_prompt() -> (prompt: String)
        ensures
            prompt@ == GENERAL_PROMPT@,
    {
        GENERAL_PROMPT.to_string()
    }

    /// The summary of a set of changes.
    pub fn format_diff_summary(diff: &ExtractedDiff) -> (summary: String)
        ensures
            summary@ == diff_summary(*diff),
    {
        let message = trim(diff.message.as_str());
        let mut summary = "Commit: ".to_string();
        summary.append(diff.identifier.as_str());
        summary.append("\nAuthor: ");
        summary.append(diff.author.as_str());
        summary.append("\nTimestamp: ");
        summary.append(diff.timestamp.as_str());
        summary.append("\nMessage: ");
        summary.append(message.as_str());
        summary.append("\nFiles changed: ");
        push_decimal(&mut summary, diff.summary.total_files as u64);
        summary.append(" (+");
        push_decimal(&mut summary, diff.summary.total_additions as u64);
        summary.append("/-");
        push_decimal(&mut summary, diff.summary.total_deletions as u64);
        summary.append(")");
        summary
    }

    /// The changes to each file, one section per file.
    pub fn format_diff_content(diff: &ExtractedDiff) -> (content: String)
        ensures
            content@ == diff_content(diff.files@),
    {
        let mut content = String::new();
        let mut i: usize = 0;
        while i < diff.files.len()
            invariant
                i <= diff.files.len(),
                content@ == diff_content(diff.files@.take(i as int)),
            decreases diff.files.len() - i,
        {
            let file = &diff.files[i];
            proof {
                let before = diff.files@.take(i as int);
                let after = diff.files@.take(i + 1);
                assert(after.drop_last() =~= before);
                assert(after.last() == diff.files@[i as int]);
                assert(content@ + file_section(*file) =~= content@ + "\n## File: "@ + file.path@
                    + " ("@ + file.status@ + ")\n```\n"@ + file.diff@ + "\n```\n"@);
            }
            content.append("\n## File: ");
            content.append(file.path.as_str());
            content.append(" (");
            content.append(file.status.as_str());
            content.append(")\n```\n");
            content.append(file.diff.as_str());
            content.append("\n```\n");
            i += 1;
        }
        proof {
            assert(diff.files@.take(diff.files.len() as int) =~= diff.files@);
        }
        content
    }
}

} // verus!
