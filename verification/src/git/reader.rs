//! The rules by which a repository is read: how a range is written, where
//! a reference is looked for, and how the lines of a diff are counted.
//! Opening the repository and walking it is the caller's part.

use vstd::prelude::*;
use vstd::string::StringExecFns;
use crate::error::KtmeError;
use crate::error::KtmeErrorModel;
use crate::git::diff::DiffSummary;
use crate::git::diff::ExtractedDiff;
use crate::git::diff::FileChange;
use crate::text::chars_of;
use crate::text::concat;
use crate::text::concat3;
use crate::text::find;
use crate::text::find_from;
use crate::text::find_in;
use crate::text::string_of;
use crate::text::strip_end;
use crate::text::trimmed_end;
use crate::text::CharClass;

verus! {

/// The two ends of a range of commits.
#[derive(Debug)]
pub struct CommitRange {
    pub start: String,
    pub end: String,
}

/// Whether `range` is written `start..end`: two dots part it in two, and
/// what follows them holds no two dots again.
pub open spec fn is_range(range: Seq<char>) -> bool {
    match find(range, ".."@) {
        Some(at) => find_from(range, ".."@, at + 2) is None,
        None => false,
    }
}

/// What stands before the two dots of a range.
pub open spec fn range_start(range: Seq<char>) -> Seq<char> {
    range.subrange(0, find(range, ".."@)->0)
}

/// What stands after the two dots of a range.
pub open spec fn range_end(range: Seq<char>) -> Seq<char> {
    range.subrange(find(range, ".."@)->0 + 2, range.len() as int)
}

/// How one file changed.
#[derive(Debug, Clone, Copy, PartialEq, Eq, Structural)]
pub enum DeltaKind {
    Added,
    Deleted,
    Modified,
    Renamed,
    Copied,
    Untracked,
    Other,
}

/// The word for a kind of change.
pub open spec fn status_label(kind: DeltaKind) -> Seq<char> {
    match kind {
        DeltaKind::Added => "added"@,
        DeltaKind::Deleted => "deleted"@,
        DeltaKind::Modified => "modified"@,
        DeltaKind::Renamed => "renamed"@,
        DeltaKind::Copied => "copied"@,
        DeltaKind::Untracked => "untracked"@,
        DeltaKind::Other => "unknown"@,
    }
}

/// One line of a diff: the mark in front of it and its text.
#[derive(Debug, Clone)]
pub struct DiffLine {
    pub origin: char,
    pub content: String,
}

/// Whether a line with this mark counts as an addition: an added line does,
/// and so does a line of context.
pub open spec fn counts_as_addition(origin: char) -> bool {
    origin == '+' || origin == ' '
}

/// Whether a line with this mark counts as a deletion.
pub open spec fn counts_as_deletion(origin: char) -> bool {
    origin == '-'
}

/// What is written in front of a line with this mark.
pub open spec fn line_prefix(origin: char) -> Seq<char> {
    if origin == '+' {
        "+"@
    } else if origin == '-' {
        "-"@
    } else if origin == ' ' || origin == '>' || origin == '<' {
        " "@
    } else {
        ""@
    }
}

/// One line of the text of a diff: the prefix of its mark, its text without
/// white space at the end, and a line end.
pub open spec fn line_text(line: DiffLine) -> Seq<char> {
    line_prefix(line.origin) + trimmed_end(line.content@, CharClass::Whitespace) + "\n"@
}

/// The number of the lines that count as additions.
pub open spec fn additions(lines: Seq<DiffLine>) -> nat
    decreases lines.len(),
{
    if lines.len() == 0 {
        0
    } else {
        additions(lines.drop_last()) + if counts_as_addition(lines.last().origin) {
            1nat
        } else {
            0nat
        }
    }
}

/// The number of the lines that count as deletions.
pub open spec fn deletions(lines: Seq<DiffLine>) -> nat
    decreases lines.len(),
{
    if lines.len() == 0 {
        0
    } else {
        deletions(lines.drop_last()) + if counts_as_deletion(lines.last().origin) {
            1nat
        } else {
            0nat
        }
    }
}

/// The text of a diff: the text of each line, in order.
pub open spec fn diff_text(lines: Seq<DiffLine>) -> Seq<char>
    decreases lines.len(),
{
    if lines.len() == 0 {
        Seq::empty()
    } else {
        diff_text(lines.drop_last()) + line_text(lines.last())
    }
}

/// The sum of the additions of `files`.
pub open spec fn total_additions(files: Seq<FileChange>) -> nat
    decreases files.len(),
{
    if files.len() == 0 {
        0
    } else {
        total_additions(files.drop_last()) + files.last().additions as nat
    }
}

/// The sum of the deletions of `files`.
pub open spec fn total_deletions(files: Seq<FileChange>) -> nat
    decreases files.len(),
{
    if files.len() == 0 {
        0
    } else {
        total_deletions(files.drop_last()) + files.last().deletions as nat
    }
}

/// Whether the totals of `files` fit in the summary.
pub open spec fn can_be_summed(files: Seq<FileChange>) -> bool {
    files.len() <= u32::MAX && total_additions(files) <= u32::MAX && total_deletions(files)
        <= u32::MAX
}

/// The sums of a part of `files` are no more than the sums of all.
pub proof fn lemma_totals_grow(files: Seq<FileChange>, n: int)
    requires
        0 <= n <= files.len(),
    ensures
        total_additions(files.take(n)) <= total_additions(files),
        total_deletions(files.take(n)) <= total_deletions(files),
    decreases files.len() - n,
{
    if n == files.len() {
        assert(files.take(n) =~= files);
    } else {
        lemma_totals_grow(files, n + 1);
        assert(files.take(n + 1).drop_last() =~= files.take(n));
    }
}

/// Who made a commit, with what message, and when.
#[derive(Debug, Clone)]
pub struct CommitInfo {
    pub author: String,
    pub message: String,
    pub timestamp: String,
}

/// The rules of reading a repository.
#[derive(Debug, Clone, Copy)]
pub struct GitReader;

impl GitReader {
    /// The two ends of a range that is written `start..end`. Anything else
    /// is refused.
    pub fn read_commit_range(range: &str) -> (ends: Result<CommitRange, KtmeError>)
        ensures
            match ends {
                Ok(r) => is_range(range@) && r.start@ == range_start(range@) && r.end@
                    == range_end(range@),
                Err(e) => !is_range(range@) && e@ == KtmeErrorModel::InvalidInput(
                    "Invalid range format. Use: start..end"@,
                ),
            },
    {
        let text = chars_of(range);
        let dots = chars_of("..");
        proof {
            reveal_strlit("..");
        }
        match find_in(&text, &dots, 0) {
            Some(at) => {
                if find_in(&text, &dots, at + 2).is_none() {
                    return Ok(
                        CommitRange {
                            start: string_of(&text, 0, at),
                            end: string_of(&text, at + 2, text.len()),
                        },
                    );
                }
            },
            None => {},
        }
        Err(KtmeError::InvalidInput("Invalid range format. Use: start..end".to_string()))
    }

    /// The names under which a reference is looked for, in order: as a
    /// branch, as a tag, and as a branch of the remote `origin`.
    pub fn resolve_reference(reference: &str) -> (names: Vec<String>)
        ensures
            names.len() == 3,
            names@[0]@ == "refs/heads/"@ + reference@,
            names@[1]@ == "refs/tags/"@ + reference@,
            names@[2]@ == "refs/remotes/origin/"@ + reference@,
    {
        let mut names: Vec<String> = Vec::new();
        names.push(concat("refs/heads/", reference));
        names.push(concat("refs/tags/", reference));
        names.push(concat("refs/remotes/origin/", reference));
        names
    }

    /// The failure for a reference that is found under no name.
    pub fn reference_not_found(reference: &str) -> (error: KtmeError)
        ensures
            error@ == KtmeErrorModel::Git("Reference '"@ + reference@ + "' not found"@),
    {
        KtmeError::Git(concat3("Reference '", reference, "' not found"))
    }

    /// The word for a kind of change.
    pub fn status_label(kind: DeltaKind) -> (label: &'static str)
        ensures
            label@ == status_label(kind),
    {
        match kind {
            DeltaKind::Added => "added",
            DeltaKind::Deleted => "deleted",
            DeltaKind::Modified => "modified",
            DeltaKind::Renamed => "renamed",
            DeltaKind::Copied => "copied",
            DeltaKind::Untracked => "untracked",
            DeltaKind::Other => "unknown",
        }
    }

    /// The additions, the deletions and the text of the lines of a diff.
    pub fn get_file_stats(lines: &Vec<DiffLine>) -> (stats: (u32, u32, String))
        requires
            lines.len() <= u32::MAX,
        ensures
            stats.0 == additions(lines@),
            stats.1 == deletions(lines@),
            stats.2@ == diff_text(lines@),
    {
        let mut added: u32 = 0;
        let mut deleted: u32 = 0;
        let mut text = String::new();
        let mut i: usize = 0;
        while i < lines.len()
            invariant
                i <= lines.len() <= u32::MAX,
                added == additions(lines@.take(i as int)),
                deleted == deletions(lines@.take(i as int)),
                added <= i,
                deleted <= i,
                text@ == diff_text(lines@.take(i as int)),
            decreases lines.len() - i,
        {
            let line = &lines[i];
            proof {
                assert(lines@.take(i + 1).drop_last() =~= lines@.take(i as int));
                assert(lines@.take(i + 1).last() == lines@[i as int]);
            }
            let origin = line.origin;
            if origin == '+' || origin == ' ' {
                added += 1;
            }
            if origin == '-' {
                deleted += 1;
            }
            let prefix = if origin == '+' {
                "+"
            } else if origin == '-' {
                "-"
            } else if origin == ' ' || origin == '>' || origin == '<' {
                " "
            } else {
                ""
            };
            let content = strip_end(line.content.as_str(), CharClass::Whitespace);
            proof {
                assert(text@ + line_text(*line) =~= text@ + line_prefix(origin) + content@ + "\n"@);
            }
            text.append(prefix);
            text.append(content.as_str());
            text.append("\n");
            i += 1;
        }
        proof {
            assert(lines@.take(lines.len() as int) =~= lines@);
        }
        (added, deleted, text)
    }

    /// The size of a set of changes: how many files, and the sums of their
    /// additions and deletions. There is none where a number does not fit.
    pub fn summarize(files: &Vec<FileChange>) -> (summary: Option<DiffSummary>)
        ensures
            match summary {
                Some(s) => can_be_summed(files@) && s.total_files == files.len()
                    && s.total_additions == total_additions(files@) && s.total_deletions
                    == total_deletions(files@),
                None => !can_be_summed(files@),
            },
    {
        if files.len() > 0xFFFF_FFFF {
            return None;
        }
        let mut added: u32 = 0;
        let mut deleted: u32 = 0;
        let mut i: usize = 0;
        while i < files.len()
            invariant
                i <= files.len() <= u32::MAX,
                added == total_additions(files@.take(i as int)),
                deleted == total_deletions(files@.take(i as int)),
            decreases files.len() - i,
        {
            proof {
                assert(files@.take(i + 1).drop_last() =~= files@.take(i as int));
                assert(files@.take(i + 1).last() == files@[i as int]);
                lemma_totals_grow(files@, i + 1);
            }
            if files[i].additions > 0xFFFF_FFFF - added || files[i].deletions > 0xFFFF_FFFF
                - deleted {
                return None;
            }
            added += files[i].additions;
            deleted += files[i].deletions;
            i += 1;
        }
        proof {
            assert(files@.take(files.len() as int) =~= files@);
        }
        Some(
            DiffSummary {
                total_files: files.len() as u32,
                total_additions: added,
                total_deletions: deleted,
            },
        )
    }

    /// The set of changes that `identifier` names, from the changes to its
    /// files and their size. Where nothing is known of a commit, the author
    /// is `Unknown`, the message `No message` and the time the present one,
    /// `now`.
    pub fn extract_tree_diff(
        identifier: &str,
        source: &str,
        files: Vec<FileChange>,
        summary: DiffSummary,
        commit: Option<CommitInfo>,
        now: String,
    ) -> (diff: ExtractedDiff)
        ensures
            diff.source@ == source@,
            diff.identifier@ == identifier@,
            diff.files == files,
            diff.summary == summary,
            match commit {
                Some(c) => diff.author == c.author && diff.message == c.message && diff.timestamp
                    == c.timestamp,
                None => diff.author@ == "Unknown"@ && diff.message@ == "No message"@
                    && diff.timestamp == now,
            },
    {
        let (author, message, timestamp) = match commit {
            Some(c) => (c.author, c.message, c.timestamp),
            None => ("Unknown".to_string(), "No message".to_string(), now),
        };
        ExtractedDiff {
            source: source.to_string(),
            identifier: identifier.to_string(),
            timestamp,
            author,
            message,
            files,
            summary,
        }
    }
}

} // verus!
