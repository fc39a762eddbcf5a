//! The records that are kept, and the words for their kinds.

use vstd::prelude::*;
use crate::json::Json;

verus! {

/// A service: one codebase or project.
#[derive(Debug, Clone)]
pub struct Service {
    pub id: i64,
    pub name: String,
    pub path: Option<String>,
    pub description: Option<String>,
    pub created_at: String,
    pub updated_at: String,
}

/// Where the documentation of a service is.
#[derive(Debug, Clone)]
pub struct DocumentMapping {
    pub id: i64,
    pub service_id: i64,
    pub provider: String,
    pub location: String,
    pub title: Option<String>,
    pub section: Option<String>,
    pub is_primary: bool,
    pub created_at: String,
    pub updated_at: String,
}

/// The configuration of a provider, as JSON.
#[derive(Debug, Clone)]
pub struct ProviderConfig {
    pub id: i64,
    pub provider_type: String,
    pub config: Json,
    pub is_default: bool,
    pub created_at: String,
    pub updated_at: String,
}

/// A template of a prompt.
#[derive(Debug, Clone)]
pub struct PromptTemplate {
    pub id: i64,
    pub name: String,
    pub description: Option<String>,
    pub template: String,
    pub variables: Vec<PromptVariable>,
    pub output_format: String,
    pub is_builtin: bool,
    pub created_at: String,
    pub updated_at: String,
}

/// A variable of a prompt template.
#[derive(Debug, Clone)]
pub struct PromptVariable {
    pub name: String,
    pub description: String,
    pub required: bool,
    pub default: Option<String>,
}

/// A template of a document.
#[derive(Debug, Clone)]
pub struct DocumentTemplate {
    pub id: i64,
    pub name: String,
    pub description: Option<String>,
    pub content: String,
    pub template_type: Option<String>,
    pub is_builtin: bool,
    pub created_at: String,
    pub updated_at: String,
}

/// One generation of documentation.
#[derive(Debug, Clone)]
pub struct GenerationRecord {
    pub id: i64,
    pub service_id: Option<i64>,
    pub provider: String,
    pub document_id: Option<String>,
    pub document_url: Option<String>,
    pub action: String,
    pub source_type: Option<String>,
    pub source_identifier: Option<String>,
    pub content_hash: Option<String>,
    pub status: String,
    pub error_message: Option<String>,
    pub created_at: String,
}

/// Changes that are kept for a while.
#[derive(Debug, Clone)]
pub struct DiffCache {
    pub id: i64,
    pub source_type: String,
    pub source_identifier: String,
    pub repository_path: Option<String>,
    pub diff_json: String,
    pub expires_at: Option<String>,
    pub created_at: String,
}

/// What Confluence needs to be told.
#[derive(Debug, Clone)]
pub struct ConfluenceConfig {
    pub base_url: String,
    pub username: String,
    pub api_token: Option<String>,
    pub space_key: String,
    pub default_parent_id: Option<String>,
    pub default_labels: Vec<String>,
    pub is_cloud: bool,
}

/// What the Markdown provider needs to be told.
#[derive(Debug, Clone)]
pub struct MarkdownConfig {
    pub base_path: String,
    pub extension: String,
    pub auto_create_dirs: bool,
}

impl Default for MarkdownConfig {
    fn default() -> (config: Self)
        ensures
            config.base_path@ == "."@,
            config.extension@ == "md"@,
            config.auto_create_dirs,
    {
        Self { base_path: ".".to_string(), extension: "md".to_string(), auto_create_dirs: true }
    }
}

/// The value of a switch that is on unless it is turned off.
pub fn default_true() -> (on: bool)
    ensures
        on,
{
    true
}

/// The extension of Markdown files.
pub fn default_extension() -> (extension: String)
    ensures
        extension@ == "md"@,
{
    "md".to_string()
}

/// What a generation did to a document.
#[derive(Debug, Clone, Copy, PartialEq, Eq, Structural)]
pub enum GenerationAction {
    Create,
    Update,
    UpdateSection,
}

impl GenerationAction {
    /// The word under which the kind is kept.
    pub open spec fn label(self) -> Seq<char> {
        match self {
            GenerationAction::Create => "create"@,
            GenerationAction::Update => "update"@,
            GenerationAction::UpdateSection => "update_section"@,
        }
    }

    /// The word under which the kind is kept.
    pub fn as_str(&self) -> (word: &'static str)
        ensures
            word@ == self.label(),
    {
        match self {
            GenerationAction::Create => "create",
            GenerationAction::Update => "update",
            GenerationAction::UpdateSection => "update_section",
        }
    }
}

/// How a generation ended.
#[derive(Debug, Clone, Copy, PartialEq, Eq, Structural)]
pub enum GenerationStatus {
    Success,
    Failed,
    Pending,
}

impl GenerationStatus {
    /// The word under which the kind is kept.
    pub open spec fn label(self) -> Seq<char> {
        match self {
            GenerationStatus::Success => "success"@,
            GenerationStatus::Failed => "failed"@,
            GenerationStatus::Pending => "pending"@,
        }
    }

    /// The word under which the kind is kept.
    pub fn as_str(&self) -> (word: &'static str)
        ensures
            word@ == self.label(),
    {
        match self {
            GenerationStatus::Success => "success",
            GenerationStatus::Failed => "failed",
            GenerationStatus::Pending => "pending",
        }
    }
}

/// Where changes are read from.
#[derive(Debug, Clone, Copy, PartialEq, Eq, Structural)]
pub enum SourceType {
    Commit,
    Staged,
    Pr,
    Range,
}

impl SourceType {
    /// The word under which the kind is kept.
    pub open spec fn label(self) -> Seq<char> {
        match self {
            SourceType::Commit => "commit"@,
            SourceType::Staged => "staged"@,
            SourceType::Pr => "pr"@,
            SourceType::Range => "range"@,
        }
    }

    /// The word under which the kind is kept.
    pub fn as_str(&self) -> (word: &'static str)
        ensures
            word@ == self.label(),
    {
        match self {
            SourceType::Commit => "commit",
            SourceType::Staged => "staged",
            SourceType::Pr => "pr",
            SourceType::Range => "range",
        }
    }
}

/// What kind of feature a feature is.
#[derive(Debug, Clone, Copy, PartialEq, Eq, Structural)]
pub enum FeatureType {
    Api,
    Ui,
    BusinessLogic,
    Config,
    Database,
    Security,
    Performance,
    Testing,
    Deployment,
    Other,
}

impl FeatureType {
    /// The word under which the kind is kept.
    pub open spec fn label(self) -> Seq<char> {
        match self {
            FeatureType::Api => "api"@,
            FeatureType::Ui => "ui"@,
            FeatureType::BusinessLogic => "business_logic"@,
            FeatureType::Config => "config"@,
            FeatureType::Database => "database"@,
            FeatureType::Security => "security"@,
            FeatureType::Performance => "performance"@,
            FeatureType::Testing => "testing"@,
            FeatureType::Deployment => "deployment"@,
            FeatureType::Other => "other"@,
        }
    }

    /// The word under which the kind is kept.
    pub fn as_str(&self) -> (word: &'static str)
        ensures
            word@ == self.label(),
    {
        match self {
            FeatureType::Api => "api",
            FeatureType::Ui => "ui",
            FeatureType::BusinessLogic => "business_logic",
            FeatureType::Config => "config",
            FeatureType::Database => "database",
            FeatureType::Security => "security",
            FeatureType::Performance => "performance",
            FeatureType::Testing => "testing",
            FeatureType::Deployment => "deployment",
            FeatureType::Other => "other",
        }
    }
}

/// How one feature relates to another.
#[derive(Debug, Clone, Copy, PartialEq, Eq, Structural)]
pub enum RelationType {
    DependsOn,
    Implements,
    Extends,
    Uses,
    Configures,
    Tests,
    Deploys,
    Other,
}

impl RelationType {
    /// The word under which the kind is kept.
    pub open spec fn label(self) -> Seq<char> {
        match self {
            RelationType::DependsOn => "depends_on"@,
            RelationType::Implements => "implements"@,
            RelationType::Extends => "extends"@,
            RelationType::Uses => "uses"@,
            RelationType::Configures => "configures"@,
            RelationType::Tests => "tests"@,
            RelationType::Deploys => "deploys"@,
            RelationType::Other => "other"@,
        }
    }

    /// The word under which the kind is kept.
    pub fn as_str(&self) -> (word: &'static str)
        ensures
            word@ == self.label(),
    {
        match self {
            RelationType::DependsOn => "depends_on",
            RelationType::Implements => "implements",
            RelationType::Extends => "extends",
            RelationType::Uses => "uses",
            RelationType::Configures => "configures",
            RelationType::Tests => "tests",
            RelationType::Deploys => "deploys",
            RelationType::Other => "other",
        }
    }
}

/// What kind of content an entry of the search index holds.
#[derive(Debug, Clone, Copy, PartialEq, Eq, Structural)]
pub enum SearchContentType {
    FeatureName,
    FeatureDescription,
    Documentation,
    CodeExample,
    ApiReference,
    UserGuide,
    Other,
}

impl SearchContentType {
    /// The word under which the kind is kept.
    pub open spec fn label(self) -> Seq<char> {
        match self {
            SearchContentType::FeatureName => "feature_name"@,
            SearchContentType::FeatureDescription => "feature_description"@,
            SearchContentType::Documentation => "documentation"@,
            SearchContentType::CodeExample => "code_example"@,
            SearchContentType::ApiReference => "api_reference"@,
            SearchContentType::UserGuide => "user_guide"@,
            SearchContentType::Other => "other"@,
        }
    }

    /// The word under which the kind is kept.
    pub fn as_str(&self) -> (word: &'static str)
        ensures
            word@ == self.label(),
    {
        match self {
            SearchContentType::FeatureName => "feature_name",
            SearchContentType::FeatureDescription => "feature_description",
            SearchContentType::Documentation => "documentation",
            SearchContentType::CodeExample => "code_example",
            SearchContentType::ApiReference => "api_reference",
            SearchContentType::UserGuide => "user_guide",
            SearchContentType::Other => "other",
        }
    }
}

/// What a node of the knowledge graph stands for.
#[derive(Debug, Clone, Copy, PartialEq, Eq, Structural)]
pub enum KnowledgeNodeType {
    Service,
    Feature,
    Document,
    Api,
    Example,
    Concept,
}

impl KnowledgeNodeType {
    /// The word under which the kind is kept.
    pub open spec fn label(self) -> Seq<char> {
        match self {
            KnowledgeNodeType::Service => "service"@,
            KnowledgeNodeType::Feature => "feature"@,
            KnowledgeNodeType::Document => "document"@,
            KnowledgeNodeType::Api => "api"@,
            KnowledgeNodeType::Example => "example"@,
            KnowledgeNodeType::Concept => "concept"@,
        }
    }

    /// The word under which the kind is kept.
    pub fn as_str(&self) -> (word: &'static str)
        ensures
            word@ == self.label(),
    {
        match self {
            KnowledgeNodeType::Service => "service",
            KnowledgeNodeType::Feature => "feature",
            KnowledgeNodeType::Document => "document",
            KnowledgeNodeType::Api => "api",
            KnowledgeNodeType::Example => "example",
            KnowledgeNodeType::Concept => "concept",
        }
    }
}

/// What a query is after.
#[derive(Debug, Clone, Copy, PartialEq, Eq, Structural)]
pub enum QueryIntent {
    FindFeature,
    UnderstandFeature,
    FindDocumentation,
    GetExamples,
    Troubleshoot,
    CompareFeatures,
    ImplementFeature,
    Other,
}

impl QueryIntent {
    /// The word under which the kind is kept.
    pub open spec fn label(self) -> Seq<char> {
        match self {
            QueryIntent::FindFeature => "find_feature"@,
            QueryIntent::UnderstandFeature => "understand_feature"@,
            QueryIntent::FindDocumentation => "find_documentation"@,
            QueryIntent::GetExamples => "get_examples"@,
            QueryIntent::Troubleshoot => "troubleshoot"@,
            QueryIntent::CompareFeatures => "compare_features"@,
            QueryIntent::ImplementFeature => "implement_feature"@,
            QueryIntent::Other => "other"@,
        }
    }

    /// The word under which the kind is kept.
    pub fn as_str(&self) -> (word: &'static str)
        ensures
            word@ == self.label(),
    {
        match self {
            QueryIntent::FindFeature => "find_feature",
            QueryIntent::UnderstandFeature => "understand_feature",
            QueryIntent::FindDocumentation => "find_documentation",
            QueryIntent::GetExamples => "get_examples",
            QueryIntent::Troubleshoot => "troubleshoot",
            QueryIntent::CompareFeatures => "compare_features",
            QueryIntent::ImplementFeature => "implement_feature",
            QueryIntent::Other => "other",
        }
    }
}

} // verus!
