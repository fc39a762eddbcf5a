//! The providers of generated text. A provider that needs the network is
//! the caller's to write; the mock provider is here.

use vstd::prelude::*;
use crate::error::KtmeError;
use crate::error::KtmeErrorModel;
use crate::text::contains;
use crate::text::str_contains;

verus! {

/// What the mock provider writes about an API.
pub const MOCK_API_DOCUMENTATION: &'static str = "# API Documentation

## Overview
This section documents the API endpoints and their usage.

## Endpoints
- GET /services - List all services
  - Query Parameters: `q` (optional) - Search query
  - Response: JSON array of services with mappings

- POST /mapping - Create new service mapping
  - Body: JSON object with service name, documentation type, and location
  - Response: Created mapping details

- GET /search - Search services by feature or keyword
  - Query Parameters: `feature` or `keyword`
  - Response: Ranked search results with relevance scores

## Authentication
API uses bearer token authentication for write operations.

## Error Handling
All endpoints return appropriate HTTP status codes and error messages in JSON format.

*Generated by ktme mock provider*";

/// What the mock provider writes as an API reference.
pub const MOCK_API_REFERENCE: &'static str = "# API Reference Documentation

## ktme API

### Service Management
The ktme API provides endpoints for managing service documentation and mappings.

#### Core Endpoints

**GET /services**
Retrieve a list of all registered services with their documentation mappings.

**POST /mapping**
Create a new documentation mapping for a service.

**GET /search**
Search services by features or keywords with relevance scoring.

### MCP Tools
- `read_changes`: Extract code changes from git references
- `generate_documentation`: Generate AI-powered documentation
- `update_documentation`: Update existing documentation files

### Usage Examples
See the implementation in `src/mcp/tools.rs` for detailed usage patterns.

*Generated by ktme mock provider*";

/// What the mock provider writes about a service.
pub const MOCK_SERVICE_DOCUMENTATION: &'static str = "# Service Documentation

## Overview
The ktme service provides automated documentation generation and knowledge transfer capabilities.

## Core Features
- **Service Detection**: Automatically detects service names from Git repositories and project files
- **Documentation Generation**: AI-powered documentation from code changes
- **Mapping Management**: SQLite-based storage of service-to-documentation mappings
- **Search Functionality**: Feature and keyword-based search with relevance scoring

## Architecture
- **CLI Interface**: Command-line tool for direct interaction
- **MCP Server**: Model Context Protocol server for AI agent integration
- **Storage Backend**: SQLite with TOML fallback support
- **AI Integration**: Support for OpenAI and Anthropic providers with mock fallback

## Recent Changes
Based on the staged changes:
- Added intelligent service name detection with Git repository scanning
- Implemented comprehensive search functionality with relevance scoring
- Enhanced MCP tools with AI integration and automated workflows
- Added mock AI provider for testing without API keys

## Configuration
- AI providers configured via environment variables
- SQLite database for persistent storage
- Configurable documentation templates and output formats

*Generated by ktme mock provider*";

/// What the mock provider writes about anything else.
pub const MOCK_DOCUMENTATION: &'static str = "# Documentation

## Summary
This document describes the ktme (Knowledge Transfer Me) system implementation.

## Key Components
- Service detection and mapping from Git repositories
- AI-powered documentation generation with multiple providers
- SQLite-based storage with search capabilities
- MCP server integration for AI agent workflows

## Implementation Details
ktme is implemented in Rust with a focus on:
- Reliability and performance
- Extensible AI provider architecture
- Automated end-to-end documentation workflows
- Multi-format output support (Markdown, JSON)

## Notes
Generated from git diff analysis using ktme's automated documentation system.

*Generated by ktme mock provider*";

/// What the outcome of asking a provider stands for: the text, or the
/// failure.
pub open spec fn outcome_model(outcome: Result<String, KtmeError>) -> Result<
    Seq<char>,
    KtmeErrorModel,
> {
    match outcome {
        Ok(text) => Ok(text@),
        Err(error) => Err(error@),
    }
}

/// Something that writes a text for a prompt.
pub trait AIProvider: Send + Sync {
    /// Whether `outcome` is one of the outcomes that asking for `prompt` can
    /// have. A provider that asks over a network can have many; one that
    /// says nothing of its outcomes can have any.
    open spec fn generates(
        &self,
        prompt: Seq<char>,
        outcome: Result<Seq<char>, KtmeErrorModel>,
    ) -> bool {
        true
    }

    /// Whether `name` can be the provider's name. A provider that says
    /// nothing of its name can have any.
    open spec fn names(&self, name: Seq<char>) -> bool {
        true
    }

    /// The text for `prompt`, or why there is none.
    fn generate(&self, prompt: &str) -> (text: Result<String, KtmeError>)
        ensures
            self.generates(prompt@, outcome_model(text)),
    ;

    /// The provider's name.
    fn provider_name(&self) -> (name: &'static str)
        ensures
            self.names(name@),
    ;
}

/// What the mock provider writes for a prompt: it looks for a few words in
/// the prompt, in a fixed order, and picks one of four texts.
pub open spec fn mock_documentation(prompt: Seq<char>) -> Seq<char> {
    if contains(prompt, "API"@) || contains(prompt, "endpoint"@) || contains(prompt, "api-doc"@) {
        MOCK_API_DOCUMENTATION@
    } else if contains(prompt, "type: \"API\""@) || contains(prompt, "doc_type: \"API\""@) {
        MOCK_API_REFERENCE@
    } else if contains(prompt, "service"@) || contains(prompt, "functionality"@) {
        MOCK_SERVICE_DOCUMENTATION@
    } else {
        MOCK_DOCUMENTATION@
    }
}

/// A provider that needs no key and no network.
#[derive(Debug, Clone, Copy)]
pub struct MockProvider;

impl MockProvider {
    /// The mock provider.
    pub fn new() -> (provider: Self) {
        Self
    }

    /// The text for `prompt`.
    pub fn documentation(prompt: &str) -> (text: String)
        ensures
            text@ == mock_documentation(prompt@),
    {
        if str_contains(prompt, "API") || str_contains(prompt, "endpoint") || str_contains(
            prompt,
            "api-doc",
        ) {
            MOCK_API_DOCUMENTATION.to_string()
        } else if str_contains(prompt, "type: \"API\"") || str_contains(
            prompt,
            "doc_type: \"API\"",
        ) {
            MOCK_API_REFERENCE.to_string()
        } else if str_contains(prompt, "service") || str_contains(prompt, "functionality") {
            MOCK_SERVICE_DOCUMENTATION.to_string()
        } else {
            MOCK_DOCUMENTATION.to_string()
        }
    }
}

impl AIProvider for MockProvider {
    /// The mock provider has one outcome for each prompt: its text.
    open spec fn generates(
        &self,
        prompt: Seq<char>,
        outcome: Result<Seq<char>, KtmeErrorModel>,
    ) -> bool {
        outcome == Ok::<Seq<char>, KtmeErrorModel>(mock_documentation(prompt))
    }

    /// The mock provider has one name.
    open spec fn names(&self, name: Seq<char>) -> bool {
        name == "Mock"@
    }

    fn generate(&self, prompt: &str) -> (text: Result<String, KtmeError>) {
        Ok(MockProvider::documentation(prompt))
    }

    fn provider_name(&self) -> (name: &'static str) {
        "Mock"
    }
}

/// Makes providers.
#[derive(Debug, Clone, Copy)]
pub struct AIProviderFactory;

impl AIProviderFactory {
    /// The mock provider.
    pub fn create_mock() -> (provider: Result<Box<dyn AIProvider>, KtmeError>)
        ensures
            provider is Ok,
            forall|name: Seq<char>| #[trigger] provider->Ok_0.names(name) <==> name == "Mock"@,
            forall|prompt: Seq<char>, outcome: Result<Seq<char>, KtmeErrorModel>|
                #[trigger] provider->Ok_0.generates(prompt, outcome) <==> outcome == Ok::<
                    Seq<char>,
                    KtmeErrorModel,
                >(mock_documentation(prompt)),
    {
        Ok(Box::new(MockProvider::new()))
    }
}

/// The model that is asked where the configuration names none.
pub fn default_model() -> (model: String)
    ensures
        model@ == "gpt-3.5-turbo"@,
{
    "gpt-3.5-turbo".to_string()
}

/// The most tokens to ask for where the configuration sets no limit.
pub fn default_max_tokens() -> (limit: u32)
    ensures
        limit == 4096,
{
    4096
}

} // verus!
