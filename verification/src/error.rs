//! The error type shared by the whole library.

use vstd::prelude::*;
use crate::text::concat;

verus! {

/// Everything that can go wrong. Each variant holds the detail that follows
/// its fixed heading in the message.
#[derive(Debug)]
pub enum KtmeError {
    /// A Git operation failed; holds the text of the underlying error.
    Git(String),
    Mcp(String),
    Documentation(String),
    Config(String),
    Storage(String),
    Confluence(String),
    MappingNotFound(String),
    InvalidInput(String),
    /// An input or output operation failed; holds the text of the underlying error.
    Io(String),
    /// JSON could not be read or written; holds the text of the underlying error.
    Serialization(String),
    /// TOML could not be read; holds the text of the underlying error.
    TomlDe(String),
    /// TOML could not be written; holds the text of the underlying error.
    TomlSer(String),
    /// An HTTP request failed; holds the text of the underlying error.
    Http(String),
    NetworkError(String),
    ApiError(String),
    DeserializationError(String),
    ConfigError(String),
    SerializationError(String),
    UnsupportedProvider(String),
    DocumentNotFound(String),
    DocumentExists(String),
    Unknown(String),
}

/// A result whose error is a [`KtmeError`].
pub type Result<T> = std::result::Result<T, KtmeError>;

/// What a [`KtmeError`] stands for: its variant and its detail.
pub ghost enum KtmeErrorModel {
    Git(Seq<char>),
    Mcp(Seq<char>),
    Documentation(Seq<char>),
    Config(Seq<char>),
    Storage(Seq<char>),
    Confluence(Seq<char>),
    MappingNotFound(Seq<char>),
    InvalidInput(Seq<char>),
    Io(Seq<char>),
    Serialization(Seq<char>),
    TomlDe(Seq<char>),
    TomlSer(Seq<char>),
    Http(Seq<char>),
    NetworkError(Seq<char>),
    ApiError(Seq<char>),
    DeserializationError(Seq<char>),
    ConfigError(Seq<char>),
    SerializationError(Seq<char>),
    UnsupportedProvider(Seq<char>),
    DocumentNotFound(Seq<char>),
    DocumentExists(Seq<char>),
    Unknown(Seq<char>),
}

impl KtmeErrorModel {
    /// The fixed heading of the variant.
    pub open spec fn heading(self) -> Seq<char> {
        match self {
            KtmeErrorModel::Git(_) => "Git operation failed: "@,
            KtmeErrorModel::Mcp(_) => "MCP communication failed: "@,
            KtmeErrorModel::Documentation(_) => "Documentation generation failed: "@,
            KtmeErrorModel::Config(_) => "Configuration error: "@,
            KtmeErrorModel::Storage(_) => "Storage operation failed: "@,
            KtmeErrorModel::Confluence(_) => "Confluence API error: "@,
            KtmeErrorModel::MappingNotFound(_) => "Service mapping not found: "@,
            KtmeErrorModel::InvalidInput(_) => "Invalid input: "@,
            KtmeErrorModel::Io(_) => "I/O error: "@,
            KtmeErrorModel::Serialization(_) => "Serialization error: "@,
            KtmeErrorModel::TomlDe(_) => "TOML deserialization error: "@,
            KtmeErrorModel::TomlSer(_) => "TOML serialization error: "@,
            KtmeErrorModel::Http(_) => "HTTP request error: "@,
            KtmeErrorModel::NetworkError(_) => "Network error: "@,
            KtmeErrorModel::ApiError(_) => "API error: "@,
            KtmeErrorModel::DeserializationError(_) => "Deserialization error: "@,
            KtmeErrorModel::ConfigError(_) => "Configuration error: "@,
            KtmeErrorModel::SerializationError(_) => "Serialization error: "@,
            KtmeErrorModel::UnsupportedProvider(_) => "Unsupported provider: "@,
            KtmeErrorModel::DocumentNotFound(_) => "Document not found: "@,
            KtmeErrorModel::DocumentExists(_) => "Document already exists: "@,
            KtmeErrorModel::Unknown(_) => "Unknown error: "@,
        }
    }

    /// The detail that the variant holds.
    pub open spec fn detail(self) -> Seq<char> {
        match self {
            KtmeErrorModel::Git(d) => d,
            KtmeErrorModel::Mcp(d) => d,
            KtmeErrorModel::Documentation(d) => d,
            KtmeErrorModel::Config(d) => d,
            KtmeErrorModel::Storage(d) => d,
            KtmeErrorModel::Confluence(d) => d,
            KtmeErrorModel::MappingNotFound(d) => d,
            KtmeErrorModel::InvalidInput(d) => d,
            KtmeErrorModel::Io(d) => d,
            KtmeErrorModel::Serialization(d) => d,
            KtmeErrorModel::TomlDe(d) => d,
            KtmeErrorModel::TomlSer(d) => d,
            KtmeErrorModel::Http(d) => d,
            KtmeErrorModel::NetworkError(d) => d,
            KtmeErrorModel::ApiError(d) => d,
            KtmeErrorModel::DeserializationError(d) => d,
            KtmeErrorModel::ConfigError(d) => d,
            KtmeErrorModel::SerializationError(d) => d,
            KtmeErrorModel::UnsupportedProvider(d) => d,
            KtmeErrorModel::DocumentNotFound(d) => d,
            KtmeErrorModel::DocumentExists(d) => d,
            KtmeErrorModel::Unknown(d) => d,
        }
    }

    /// The message: the heading, then the detail.
    pub open spec fn message(self) -> Seq<char> {
        self.heading() + self.detail()
    }
}

impl View for KtmeError {
    type V = KtmeErrorModel;

    open spec fn view(&self) -> KtmeErrorModel {
        match self {
            KtmeError::Git(d) => KtmeErrorModel::Git(d@),
            KtmeError::Mcp(d) => KtmeErrorModel::Mcp(d@),
            KtmeError::Documentation(d) => KtmeErrorModel::Documentation(d@),
            KtmeError::Config(d) => KtmeErrorModel::Config(d@),
            KtmeError::Storage(d) => KtmeErrorModel::Storage(d@),
            KtmeError::Confluence(d) => KtmeErrorModel::Confluence(d@),
            KtmeError::MappingNotFound(d) => KtmeErrorModel::MappingNotFound(d@),
            KtmeError::InvalidInput(d) => KtmeErrorModel::InvalidInput(d@),
            KtmeError::Io(d) => KtmeErrorModel::Io(d@),
            KtmeError::Serialization(d) => KtmeErrorModel::Serialization(d@),
            KtmeError::TomlDe(d) => KtmeErrorModel::TomlDe(d@),
            KtmeError::TomlSer(d) => KtmeErrorModel::TomlSer(d@),
            KtmeError::Http(d) => KtmeErrorModel::Http(d@),
            KtmeError::NetworkError(d) => KtmeErrorModel::NetworkError(d@),
            KtmeError::ApiError(d) => KtmeErrorModel::ApiError(d@),
            KtmeError::DeserializationError(d) => KtmeErrorModel::DeserializationError(d@),
            KtmeError::ConfigError(d) => KtmeErrorModel::ConfigError(d@),
            KtmeError::SerializationError(d) => KtmeErrorModel::SerializationError(d@),
            KtmeError::UnsupportedProvider(d) => KtmeErrorModel::UnsupportedProvider(d@),
            KtmeError::DocumentNotFound(d) => KtmeErrorModel::DocumentNotFound(d@),
            KtmeError::DocumentExists(d) => KtmeErrorModel::DocumentExists(d@),
            KtmeError::Unknown(d) => KtmeErrorModel::Unknown(d@),
        }
    }
}

impl KtmeError {
    /// The message of this error: the heading of its variant followed by its
    /// detail.
    pub fn message(&self) -> (text: String)
        ensures
            text@ == self@.message(),
    {
        match self {
            KtmeError::Git(d) => concat("Git operation failed: ", d.as_str()),
            KtmeError::Mcp(d) => concat("MCP communication failed: ", d.as_str()),
            KtmeError::Documentation(d) => concat("Documentation generation failed: ", d.as_str()),
            KtmeError::Config(d) => concat("Configuration error: ", d.as_str()),
            KtmeError::Storage(d) => concat("Storage operation failed: ", d.as_str()),
            KtmeError::Confluence(d) => concat("Confluence API error: ", d.as_str()),
            KtmeError::MappingNotFound(d) => concat("Service mapping not found: ", d.as_str()),
            KtmeError::InvalidInput(d) => concat("Invalid input: ", d.as_str()),
            KtmeError::Io(d) => concat("I/O error: ", d.as_str()),
            KtmeError::Serialization(d) => concat("Serialization error: ", d.as_str()),
            KtmeError::TomlDe(d) => concat("TOML deserialization error: ", d.as_str()),
            KtmeError::TomlSer(d) => concat("TOML serialization error: ", d.as_str()),
            KtmeError::Http(d) => concat("HTTP request error: ", d.as_str()),
            KtmeError::NetworkError(d) => concat("Network error: ", d.as_str()),
            KtmeError::ApiError(d) => concat("API error: ", d.as_str()),
            KtmeError::DeserializationError(d) => concat("Deserialization error: ", d.as_str()),
            KtmeError::ConfigError(d) => concat("Configuration error: ", d.as_str()),
            KtmeError::SerializationError(d) => concat("Serialization error: ", d.as_str()),
            KtmeError::UnsupportedProvider(d) => concat("Unsupported provider: ", d.as_str()),
            KtmeError::DocumentNotFound(d) => concat("Document not found: ", d.as_str()),
            KtmeError::DocumentExists(d) => concat("Document already exists: ", d.as_str()),
            KtmeError::Unknown(d) => concat("Unknown error: ", d.as_str()),
        }
    }

    /// A copy of this error.
    pub fn duplicate(&self) -> (copy: KtmeError)
        ensures
            copy@ == self@,
    {
        match self {
            KtmeError::Git(d) => KtmeError::Git(d.clone()),
            KtmeError::Mcp(d) => KtmeError::Mcp(d.clone()),
            KtmeError::Documentation(d) => KtmeError::Documentation(d.clone()),
            KtmeError::Config(d) => KtmeError::Config(d.clone()),
            KtmeError::Storage(d) => KtmeError::Storage(d.clone()),
            KtmeError::Confluence(d) => KtmeError::Confluence(d.clone()),
            KtmeError::MappingNotFound(d) => KtmeError::MappingNotFound(d.clone()),
            KtmeError::InvalidInput(d) => KtmeError::InvalidInput(d.clone()),
            KtmeError::Io(d) => KtmeError::Io(d.clone()),
            KtmeError::Serialization(d) => KtmeError::Serialization(d.clone()),
            KtmeError::TomlDe(d) => KtmeError::TomlDe(d.clone()),
            KtmeError::TomlSer(d) => KtmeError::TomlSer(d.clone()),
            KtmeError::Http(d) => KtmeError::Http(d.clone()),
            KtmeError::NetworkError(d) => KtmeError::NetworkError(d.clone()),
            KtmeError::ApiError(d) => KtmeError::ApiError(d.clone()),
            KtmeError::DeserializationError(d) => KtmeError::DeserializationError(d.clone()),
            KtmeError::ConfigError(d) => KtmeError::ConfigError(d.clone()),
            KtmeError::SerializationError(d) => KtmeError::SerializationError(d.clone()),
            KtmeError::UnsupportedProvider(d) => KtmeError::UnsupportedProvider(d.clone()),
            KtmeError::DocumentNotFound(d) => KtmeError::DocumentNotFound(d.clone()),
            KtmeError::DocumentExists(d) => KtmeError::DocumentExists(d.clone()),
            KtmeError::Unknown(d) => KtmeError::Unknown(d.clone()),
        }
    }
}

} // verus!
