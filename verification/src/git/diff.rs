//! What a set of code changes looks like once it is read from a repository.

use vstd::prelude::*;
use crate::error::KtmeError;
use crate::error::KtmeErrorModel;
use crate::text::concat;
use crate::text::str_eq;

verus! {

/// A repository: where it is, the branch that is checked out, and the state
/// of its files.
#[derive(Debug, Clone)]
pub struct RepositoryInfo {
    pub path: String,
    pub branch: String,
    pub status: Vec<FileStatus>,
}

/// The state of one file of a working tree.
#[derive(Debug, Clone)]
pub struct FileStatus {
    pub path: String,
    pub status: String,
}

/// One set of changes: where it comes from, who made it, and what changed.
#[derive(Debug, Clone)]
pub struct ExtractedDiff {
    pub source: String,
    pub identifier: String,
    pub timestamp: String,
    pub author: String,
    pub message: String,
    pub files: Vec<FileChange>,
    pub summary: DiffSummary,
}

/// The changes to one file.
#[derive(Debug, Clone)]
pub struct FileChange {
    pub path: String,
    pub status: String,
    pub additions: u32,
    pub deletions: u32,
    pub diff: String,
}

/// The size of a set of changes.
#[derive(Debug, Clone, Copy, PartialEq, Eq, Structural)]
pub struct DiffSummary {
    pub total_files: u32,
    pub total_additions: u32,
    pub total_deletions: u32,
}

impl Default for DiffSummary {
    fn default() -> (summary: Self)
        ensures
            summary.total_files == 0,
            summary.total_additions == 0,
            summary.total_deletions == 0,
    {
        DiffSummary { total_files: 0, total_additions: 0, total_deletions: 0 }
    }
}

impl Default for ExtractedDiff {
    fn default() -> (diff: Self)
        ensures
            diff.source@.len() == 0,
            diff.identifier@.len() == 0,
            diff.timestamp@.len() == 0,
            diff.author@.len() == 0,
            diff.message@.len() == 0,
            diff.files@.len() == 0,
            diff.summary == (DiffSummary { total_files: 0, total_additions: 0, total_deletions: 0 }),
    {
        ExtractedDiff {
            source: String::new(),
            identifier: String::new(),
            timestamp: String::new(),
            author: String::new(),
            message: String::new(),
            files: Vec::new(),
            summary: DiffSummary { total_files: 0, total_additions: 0, total_deletions: 0 },
        }
    }
}

/// What is to be read from a repository.
#[derive(Debug)]
pub enum DiffRequest {
    /// The changes of one commit.
    Commit(String),
    /// The changes that are staged.
    Staged,
    /// The changes of each commit of a range.
    Range(String),
}

/// What a [`DiffRequest`] stands for.
pub ghost enum DiffRequestModel {
    Commit(Seq<char>),
    Staged,
    Range(Seq<char>),
}

impl View for DiffRequest {
    type V = DiffRequestModel;

    open spec fn view(&self) -> DiffRequestModel {
        match self {
            DiffRequest::Commit(reference) => DiffRequestModel::Commit(reference@),
            DiffRequest::Staged => DiffRequestModel::Staged,
            DiffRequest::Range(range) => DiffRequestModel::Range(range@),
        }
    }
}

/// What a request, or the refusal to make one, stands for.
pub open spec fn request_model(request: Result<DiffRequest, KtmeError>) -> Result<
    DiffRequestModel,
    KtmeErrorModel,
> {
    match request {
        Ok(r) => Ok(r@),
        Err(e) => Err(e@),
    }
}

/// Says what to read for a kind of source and what names the changes there.
#[derive(Debug, Clone)]
pub struct DiffExtractor {
    pub source: String,
    pub identifier: String,
}

impl DiffExtractor {
    /// An extractor for the source kind `source` and the changes that
    /// `identifier` names.
    pub fn new(source: String, identifier: String) -> (extractor: Self)
        ensures
            extractor.source == source,
            extractor.identifier == identifier,
    {
        Self { source, identifier }
    }

    /// What `extract` asks for.
    pub open spec fn extraction(&self) -> Result<DiffRequestModel, KtmeErrorModel> {
        if self.source@ == "commit"@ {
            Ok(DiffRequestModel::Commit(self.identifier@))
        } else if self.source@ == "staged"@ {
            Ok(DiffRequestModel::Staged)
        } else {
            Err(KtmeErrorModel::InvalidInput("Unsupported source type: "@ + self.source@))
        }
    }

    /// What `extract_range` asks for.
    pub open spec fn range_extraction(&self, range: Seq<char>) -> Result<
        DiffRequestModel,
        KtmeErrorModel,
    > {
        if self.source@ == "commit"@ || self.source@ == "range"@ {
            Ok(DiffRequestModel::Range(range))
        } else {
            Err(
                KtmeErrorModel::InvalidInput(
                    "Range extraction not supported for source type: "@ + self.source@,
                ),
            )
        }
    }

    /// What to read: the commit that the identifier names for the source
    /// kind `commit`, the staged changes for `staged`. Any other kind is
    /// refused.
    pub fn extract(&self) -> (request: Result<DiffRequest, KtmeError>)
        ensures
            request_model(request) == self.extraction(),
    {
        if str_eq(self.source.as_str(), "commit") {
            Ok(DiffRequest::Commit(self.identifier.clone()))
        } else if str_eq(self.source.as_str(), "staged") {
            Ok(DiffRequest::Staged)
        } else {
            Err(
                KtmeError::InvalidInput(
                    concat("Unsupported source type: ", self.source.as_str()),
                ),
            )
        }
    }

    /// What to read for a range of commits. Only the source kinds `commit`
    /// and `range` have ranges.
    pub fn extract_range(&self, range: &str) -> (request: Result<DiffRequest, KtmeError>)
        ensures
            request_model(request) == self.range_extraction(range@),
    {
        if str_eq(self.source.as_str(), "commit") || str_eq(self.source.as_str(), "range") {
            Ok(DiffRequest::Range(range.to_string()))
        } else {
            Err(
                KtmeError::InvalidInput(
                    concat(
                        "Range extraction not supported for source type: ",
                        self.source.as_str(),
                    ),
                ),
            )
        }
    }

    /// The description of a repository from what was read of it.
    pub fn get_repository_info(path: String, branch: String, status: Vec<FileStatus>) -> (info:
        RepositoryInfo)
        ensures
            info.path == path,
            info.branch == branch,
            info.status == status,
    {
        RepositoryInfo { path, branch, status }
    }
}

} // verus!
