//! The sections of the configuration, with the values that each takes where
//! the configuration file says nothing.

use vstd::prelude::*;

verus! {

/// General settings.
#[derive(Debug, Clone)]
pub struct GeneralConfig {
    pub temp_directory: String,
    pub log_level: String,
}

impl Default for GeneralConfig {
    fn default() -> (config: Self)
        ensures
            config.temp_directory@ == "/tmp/ktme"@,
            config.log_level@ == "info"@,
    {
        Self { temp_directory: default_temp_directory(), log_level: default_log_level() }
    }
}

/// How repositories are read.
#[derive(Debug, Clone)]
pub struct GitConfig {
    pub default_branch: String,
    pub include_merge_commits: bool,
    pub max_commit_range: u32,
}

impl Default for GitConfig {
    fn default() -> (config: Self)
        ensures
            config.default_branch@ == "main"@,
            !config.include_merge_commits,
            config.max_commit_range == 100,
    {
        Self {
            default_branch: default_branch(),
            include_merge_commits: false,
            max_commit_range: default_max_commit_range(),
        }
    }
}

/// How documentation is written.
#[derive(Debug, Clone)]
pub struct DocumentationConfig {
    pub default_format: String,
    pub template_directory: Option<String>,
    pub include_metadata: bool,
}

impl Default for DocumentationConfig {
    fn default() -> (config: Self)
        ensures
            config.default_format@ == "markdown"@,
            config.template_directory is None,
            config.include_metadata,
    {
        Self {
            default_format: default_format(),
            template_directory: None,
            include_metadata: default_include_metadata(),
        }
    }
}

/// Where Confluence is and how to sign in.
#[derive(Debug, Clone)]
pub struct ConfluenceConfig {
    pub base_url: Option<String>,
    pub auth_type: String,
    pub api_token: Option<String>,
    pub username: Option<String>,
    pub space_key: Option<String>,
    pub default_parent_page: Option<String>,
}

impl Default for ConfluenceConfig {
    fn default() -> (config: Self)
        ensures
            config.base_url is None,
            config.auth_type@ == "token"@,
            config.api_token is None,
            config.username is None,
            config.space_key is None,
            config.default_parent_page is None,
    {
        Self {
            base_url: None,
            auth_type: default_auth_type(),
            api_token: None,
            username: None,
            space_key: None,
            default_parent_page: None,
        }
    }
}

/// Where the mappings are kept.
#[derive(Debug, Clone)]
pub struct StorageConfig {
    pub mappings_file: Option<String>,
    pub auto_discover: bool,
}

impl Default for StorageConfig {
    fn default() -> (config: Self)
        ensures
            config.mappings_file is None,
            !config.auto_discover,
    {
        Self { mappings_file: None, auto_discover: false }
    }
}

/// The directory for temporary files.
pub fn default_temp_directory() -> (directory: String)
    ensures
        directory@ == "/tmp/ktme"@,
{
    "/tmp/ktme".to_string()
}

/// The level from which messages are logged.
pub fn default_log_level() -> (level: String)
    ensures
        level@ == "info"@,
{
    "info".to_string()
}

/// The branch that is taken as the main one.
pub fn default_branch() -> (branch: String)
    ensures
        branch@ == "main"@,
{
    "main".to_string()
}

/// The most commits that a range may hold.
pub fn default_max_commit_range() -> (limit: u32)
    ensures
        limit == 100,
{
    100
}

/// The most tokens to ask for.
pub fn default_max_tokens() -> (limit: u32)
    ensures
        limit == 4096,
{
    4096
}

/// The seconds to wait for an answer.
pub fn default_timeout() -> (seconds: u64)
    ensures
        seconds == 120,
{
    120
}

/// The format in which documentation is written.
pub fn default_format() -> (format: String)
    ensures
        format@ == "markdown"@,
{
    "markdown".to_string()
}

/// Whether documents carry who made them and when.
pub fn default_include_metadata() -> (with_metadata: bool)
    ensures
        with_metadata,
{
    true
}

/// How to sign in.
pub fn default_auth_type() -> (kind: String)
    ensures
        kind@ == "token"@,
{
    "token".to_string()
}

} // verus!
