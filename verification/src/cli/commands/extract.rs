//! The command that extracts changes: what it reads and what it prints.

use vstd::prelude::*;
use vstd::string::StringExecFns;
use crate::error::KtmeError;
use crate::error::KtmeErrorModel;
use crate::git::diff::DiffExtractor;
use crate::git::diff::ExtractedDiff;
use crate::git::diff::FileChange;
use crate::text::concat3;
use crate::text::decimal;
use crate::text::push_decimal;
use crate::text::str_eq;

verus! {

/// The kind of source and the identifier that the command reads from, or
/// why it reads nothing: a commit comes first, then the staged changes; a
/// pull request cannot be read yet; and one of the three must be named.
pub open spec fn extraction_source(
    commit: Option<Seq<char>>,
    staged: bool,
    pr: bool,
    provider: Option<Seq<char>>,
) -> Result<(Seq<char>, Seq<char>), KtmeErrorModel> {
    if commit is Some {
        Ok(("commit"@, commit->0))
    } else if staged {
        Ok(("staged"@, "staged"@))
    } else if pr {
        Err(
            KtmeErrorModel::UnsupportedProvider(
                "PR extraction for "@ + (match provider {
                    Some(p) => p,
                    None => "github"@,
                }) + " is not yet implemented"@,
            ),
        )
    } else {
        Err(KtmeErrorModel::InvalidInput("No source specified. Use --commit, --staged, or --pr"@))
    }
}

/// What an extractor, or the refusal, stands for.
pub open spec fn extractor_model(extractor: Result<DiffExtractor, KtmeError>) -> Result<
    (Seq<char>, Seq<char>),
    KtmeErrorModel,
> {
    match extractor {
        Ok(e) => Ok((e.source@, e.identifier@)),
        Err(e) => Err(e@),
    }
}

/// The mark of a file in the summary.
pub open spec fn status_icon(status: Seq<char>) -> Seq<char> {
    if status == "added"@ {
        "🆕"@
    } else if status == "modified"@ {
        "✏️"@
    } else if status == "deleted"@ {
        "🗑️"@
    } else if status == "renamed"@ {
        "🔄"@
    } else {
        "📄"@
    }
}

/// The line of a file in the summary.
pub open spec fn summary_line(file: FileChange) -> Seq<char> {
    "  "@ + status_icon(file.status@) + " "@ + file.path@ + " (+"@ + decimal(
        file.additions as nat,
    ) + "/-"@ + decimal(file.deletions as nat) + ")\n"@
}

/// The lines of `files` in the summary.
pub open spec fn summary_lines(files: Seq<FileChange>) -> Seq<char>
    decreases files.len(),
{
    if files.len() == 0 {
        Seq::empty()
    } else {
        summary_lines(files.drop_last()) + summary_line(files.last())
    }
}

/// What the summary says before it lists the files.
pub open spec fn summary_head(diff: ExtractedDiff) -> Seq<char> {
    "\n📊 Diff Summary\nSource: "@ + diff.source@ + "\nIdentifier: "@ + diff.identifier@
        + "\nAuthor: "@ + diff.author@ + "\nTimestamp: "@ + diff.timestamp@ + "\nMessage: "@
        + diff.message@ + "\nFiles changed: "@ + decimal(diff.summary.total_files as nat)
        + "\nAdditions: +"@ + decimal(diff.summary.total_additions as nat) + "\nDeletions: -"@
        + decimal(diff.summary.total_deletions as nat) + "\n"@
}

/// The summary of a set of changes as it is printed: the head, and the
/// files where there are any.
pub open spec fn printed_summary(diff: ExtractedDiff) -> Seq<char> {
    if diff.files@.len() == 0 {
        summary_head(diff)
    } else {
        summary_head(diff) + "\n📁 Files:\n"@ + summary_lines(diff.files@)
    }
}

/// The extractor for what the command line names.
pub fn execute(commit: Option<String>, staged: bool, pr: Option<u32>, provider: Option<String>) -> (extractor:
    Result<DiffExtractor, KtmeError>)
    ensures
        extractor_model(extractor) == extraction_source(
            match commit {
                Some(c) => Some(c@),
                None => None,
            },
            staged,
            pr is Some,
            match provider {
                Some(p) => Some(p@),
                None => None,
            },
        ),
{
    if let Some(reference) = commit {
        Ok(DiffExtractor::new("commit".to_string(), reference))
    } else if staged {
        Ok(DiffExtractor::new("staged".to_string(), "staged".to_string()))
    } else if pr.is_some() {
        let name = match provider {
            Some(p) => p,
            None => "github".to_string(),
        };
        Err(
            KtmeError::UnsupportedProvider(
                concat3("PR extraction for ", name.as_str(), " is not yet implemented"),
            ),
        )
    } else {
        Err(
            KtmeError::InvalidInput(
                "No source specified. Use --commit, --staged, or --pr".to_string(),
            ),
        )
    }
}

/// The mark of a file in the summary.
pub fn icon(status: &str) -> (mark: &'static str)
    ensures
        mark@ == status_icon(status@),
{
    if str_eq(status, "added") {
        "🆕"
    } else if str_eq(status, "modified") {
        "✏️"
    } else if str_eq(status, "deleted") {
        "🗑️"
    } else if str_eq(status, "renamed") {
        "🔄"
    } else {
        "📄"
    }
}

/// The summary of a set of changes as it is printed.
pub fn print_diff_summary(diff: &ExtractedDiff) -> (text: String)
    ensures
        text@ == printed_summary(*diff),
{
    let mut text = "\n📊 Diff Summary\nSource: ".to_string();
    text.append(diff.source.as_str());
    text.append("\nIdentifier: ");
    text.append(diff.identifier.as_str());
    text.append("\nAuthor: ");
    text.append(diff.author.as_str());
    text.append("\nTimestamp: ");
    text.append(diff.timestamp.as_str());
    text.append("\nMessage: ");
    text.append(diff.message.as_str());
    text.append("\nFiles changed: ");
    push_decimal(&mut text, diff.summary.total_files as u64);
    text.append("\nAdditions: +");
    push_decimal(&mut text, diff.summary.total_additions as u64);
    text.append("\nDeletions: -");
    push_decimal(&mut text, diff.summary.total_deletions as u64);
    text.append("\n");
    if diff.files.len() == 0 {
        return text;
    }
    text.append("\n📁 Files:\n");
    proof {
        assert(text@ + summary_lines(diff.files@.take(0)) =~= text@);
    }
    let mut i: usize = 0;
    while i < diff.files.len()
        invariant
            i <= diff.files.len(),
            text@ == summary_head(*diff) + "\n📁 Files:\n"@ + summary_lines(
                diff.files@.take(i as int),
            ),
        decreases diff.files.len() - i,
    {
        let file = &diff.files[i];
        proof {
            assert(diff.files@.take(i + 1).drop_last() =~= diff.files@.take(i as int));
            assert(diff.files@.take(i + 1).last() == diff.files@[i as int]);
            assert(text@ + summary_line(*file) =~= text@ + "  "@ + status_icon(file.status@) + " "@
                + file.path@ + " (+"@ + decimal(file.additions as nat) + "/-"@ + decimal(
                file.deletions as nat,
            ) + ")\n"@);
            assert(summary_head(*diff) + "\n📁 Files:\n"@ + (summary_lines(
                diff.files@.take(i as int),
            ) + summary_line(*file)) =~= text@ + summary_line(*file));
        }
        text.append("  ");
        text.append(icon(file.status.as_str()));
        text.append(" ");
        text.append(file.path.as_str());
        text.append(" (+");
        push_decimal(&mut text, file.additions as u64);
        text.append("/-");
        push_decimal(&mut text, file.deletions as u64);
        text.append(")\n");
        i += 1;
    }
    proof {
        assert(diff.files@.take(diff.files.len() as int) =~= diff.files@);
    }
    text
}

} // verus!
