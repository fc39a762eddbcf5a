//! Documents and the providers that keep them.

pub mod config;
pub mod confluence;
pub mod markdown;

use vstd::prelude::*;
use crate::error::KtmeError;
use crate::error::KtmeErrorModel;
use crate::text::concat3;
use crate::text::str_eq;

verus! {

/// A document of any provider.
#[derive(Debug, Clone)]
pub struct Document {
    pub id: String,
    pub title: String,
    pub content: String,
    pub url: Option<String>,
    pub parent_id: Option<String>,
    pub metadata: DocumentMetadata,
}

/// What is known about a document besides its content.
#[derive(Debug, Clone)]
pub struct DocumentMetadata {
    pub created_at: Option<String>,
    pub updated_at: Option<String>,
    pub author: Option<String>,
    pub version: Option<u32>,
    pub labels: Vec<String>,
}

impl Default for DocumentMetadata {
    fn default() -> (metadata: Self)
        ensures
            metadata.created_at is None,
            metadata.updated_at is None,
            metadata.author is None,
            metadata.version is None,
            metadata.labels@.len() == 0,
    {
        Self { created_at: None, updated_at: None, author: None, version: None, labels: Vec::new() }
    }
}

/// What publishing a document came to.
#[derive(Debug, Clone)]
pub struct PublishResult {
    pub document_id: String,
    pub url: String,
    pub version: u32,
    pub status: PublishStatus,
}

/// How publishing a document ended.
#[derive(Debug, Clone)]
pub enum PublishStatus {
    Created,
    Updated,
    NoChanges,
    Failed(String),
}

/// Something that keeps documents.
pub trait DocumentProvider: Send + Sync {
    /// The provider's name.
    fn name(&self) -> &str;

    /// Whether the provider can be reached.
    fn health_check(&self) -> Result<bool, KtmeError>;

    /// The document of this identifier, if there is one.
    fn get_document(&self, id: &str) -> Result<Option<Document>, KtmeError>;

    /// The document of this title, if there is one.
    fn find_document(&self, title: &str) -> Result<Option<Document>, KtmeError>;

    /// Creates a document.
    fn create_document(&self, doc: &Document) -> Result<PublishResult, KtmeError>;

    /// Puts new content in place of a document's.
    fn update_document(&self, id: &str, content: &str) -> Result<PublishResult, KtmeError>;

    /// Puts new content in place of one section of a document.
    fn update_section(&self, id: &str, section: &str, content: &str) -> Result<
        PublishResult,
        KtmeError,
    >;

    /// Deletes a document.
    fn delete_document(&self, id: &str) -> Result<(), KtmeError>;

    /// The documents of a container.
    fn list_documents(&self, container: &str) -> Result<Vec<Document>, KtmeError>;

    /// The documents that match a query.
    fn search_documents(&self, query: &str) -> Result<Vec<Document>, KtmeError>;
}

/// The kinds of provider that there are.
#[derive(Debug, Clone, Copy, PartialEq, Eq, Structural)]
pub enum ProviderKind {
    Confluence,
    Markdown,
}

/// The kind of provider that a name stands for, or the refusal of a name
/// that stands for none.
pub open spec fn provider_kind(provider_type: Seq<char>) -> Result<ProviderKind, KtmeErrorModel> {
    if provider_type == "confluence"@ {
        Ok(ProviderKind::Confluence)
    } else if provider_type == "markdown"@ {
        Ok(ProviderKind::Markdown)
    } else {
        Err(
            KtmeErrorModel::UnsupportedProvider(
                "Provider '"@ + provider_type + "' is not supported"@,
            ),
        )
    }
}

/// What a kind of provider, or the refusal, stands for.
pub open spec fn kind_model(kind: Result<ProviderKind, KtmeError>) -> Result<
    ProviderKind,
    KtmeErrorModel,
> {
    match kind {
        Ok(k) => Ok(k),
        Err(e) => Err(e@),
    }
}

/// Says which provider to make.
#[derive(Debug, Clone, Copy)]
pub struct ProviderFactory;

impl ProviderFactory {
    /// The kind of provider to make for `provider_type`. There are two:
    /// `confluence` and `markdown`.
    pub fn create(provider_type: &str) -> (kind: Result<ProviderKind, KtmeError>)
        ensures
            kind_model(kind) == provider_kind(provider_type@),
    {
        if str_eq(provider_type, "confluence") {
            Ok(ProviderKind::Confluence)
        } else if str_eq(provider_type, "markdown") {
            Ok(ProviderKind::Markdown)
        } else {
            Err(
                KtmeError::UnsupportedProvider(
                    concat3("Provider '", provider_type, "' is not supported"),
                ),
            )
        }
    }
}

} // verus!
