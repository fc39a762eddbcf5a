//! How providers are configured, and the registry of the configured ones.

use vstd::prelude::*;
use crate::json::Json;
use crate::text::str_eq;

verus! {

/// The configuration of one provider, as it is kept.
#[derive(Debug, Clone)]
pub struct ProviderConfig {
    pub id: i64,
    pub provider_type: String,
    pub config: Json,
    pub is_default: bool,
    pub created_at: String,
    pub updated_at: String,
}

impl From<crate::storage::models::ProviderConfig> for ProviderConfig {
    fn from(db_config: crate::storage::models::ProviderConfig) -> (config: Self) {
        Self {
            id: db_config.id,
            provider_type: db_config.provider_type,
            config: db_config.config,
            is_default: db_config.is_default,
            created_at: db_config.created_at,
            updated_at: db_config.updated_at,
        }
    }
}

impl vstd::std_specs::convert::FromSpecImpl<crate::storage::models::ProviderConfig> for ProviderConfig {
    open spec fn obeys_from_spec() -> bool {
        true
    }

    open spec fn from_spec(db_config: crate::storage::models::ProviderConfig) -> Self {
        Self {
            id: db_config.id,
            provider_type: db_config.provider_type,
            config: db_config.config,
            is_default: db_config.is_default,
            created_at: db_config.created_at,
            updated_at: db_config.updated_at,
        }
    }
}

/// What Confluence needs to be told.
#[derive(Debug, Clone)]
pub struct ConfluenceConfig {
    pub base_url: String,
    pub username: String,
    pub api_token: Option<String>,
    pub space_key: String,
    pub default_parent_id: Option<String>,
    pub default_labels: Vec<String>,
    pub is_cloud: bool,
}

/// What the Markdown provider needs to be told.
#[derive(Debug, Clone)]
pub struct MarkdownConfig {
    pub base_path: String,
    pub extension: String,
    pub auto_create_dirs: bool,
}

/// The value of a switch that is on unless it is turned off.
pub fn default_true() -> (on: bool)
    ensures
        on,
{
    true
}

/// The extension of Markdown files.
pub fn default_extension() -> (extension: String)
    ensures
        extension@ == "md"@,
{
    "md".to_string()
}

/// The index of the first of `providers` from `from` on whose type is
/// `provider_type`.
pub open spec fn index_from(providers: Seq<ProviderConfig>, provider_type: Seq<char>, from: int) -> Option<
    int,
>
    decreases providers.len() - from,
{
    if from < 0 || from >= providers.len() {
        None
    } else if providers[from].provider_type@ == provider_type {
        Some(from)
    } else {
        index_from(providers, provider_type, from + 1)
    }
}

/// The configured providers, one per type, and the type of the default one.
#[derive(Debug, Clone)]
pub struct ProviderRegistry {
    pub providers: Vec<ProviderConfig>,
    pub default_provider: Option<String>,
}

impl ProviderRegistry {
    /// The index of the provider of a type.
    pub open spec fn index_of(&self, provider_type: Seq<char>) -> Option<int> {
        index_from(self.providers@, provider_type, 0)
    }

    /// A registry without providers.
    pub fn new() -> (registry: Self)
        ensures
            registry.providers@.len() == 0,
            registry.default_provider is None,
    {
        Self { providers: Vec::new(), default_provider: None }
    }

    /// The index of the provider of a type.
    pub fn find(&self, provider_type: &str) -> (index: Option<usize>)
        ensures
            match index {
                Some(i) => self.index_of(provider_type@) == Some(i as int) && i
                    < self.providers.len(),
                None => self.index_of(provider_type@) is None,
            },
    {
        let mut i: usize = 0;
        while i < self.providers.len()
            invariant
                i <= self.providers.len(),
                index_from(self.providers@, provider_type@, 0) == index_from(
                    self.providers@,
                    provider_type@,
                    i as int,
                ),
            decreases self.providers.len() - i,
        {
            if str_eq(self.providers[i].provider_type.as_str(), provider_type) {
                return Some(i);
            }
            i += 1;
        }
        None
    }

    /// Adds a provider, in place of the one of its type where there is one.
    /// A provider that is marked as the default becomes the default.
    pub fn add_provider(&mut self, config: ProviderConfig)
        ensures
            match old(self).index_of(config.provider_type@) {
                Some(at) => final(self).providers@ == old(self).providers@.update(at, config),
                None => final(self).providers@ == old(self).providers@.push(config),
            },
            if config.is_default {
                final(self).default_provider is Some && final(self).default_provider->0@
                    == config.provider_type@
            } else {
                final(self).default_provider == old(self).default_provider
            },
    {
        if config.is_default {
            self.default_provider = Some(config.provider_type.clone());
        }
        match self.find(config.provider_type.as_str()) {
            Some(at) => {
                self.providers.set(at, config);
            },
            None => {
                self.providers.push(config);
            },
        }
    }

    /// The provider of a type.
    pub fn get_provider(&self, provider_type: &str) -> (config: Option<&ProviderConfig>)
        ensures
            match config {
                Some(c) => self.index_of(provider_type@) is Some && *c == self.providers@[self.index_of(
                    provider_type@,
                )->0],
                None => self.index_of(provider_type@) is None,
            },
    {
        match self.find(provider_type) {
            Some(at) => Some(&self.providers[at]),
            None => None,
        }
    }

    /// The default provider: the provider of the default type, where a
    /// default is set and a provider of that type is there.
    pub fn get_default_provider(&self) -> (config: Option<&ProviderConfig>)
        ensures
            match config {
                Some(c) => self.default_provider is Some && self.index_of(
                    self.default_provider->0@,
                ) is Some && *c == self.providers@[self.index_of(self.default_provider->0@)->0],
                None => self.default_provider is None || self.index_of(self.default_provider->0@)
                    is None,
            },
    {
        match &self.default_provider {
            Some(provider_type) => self.get_provider(provider_type.as_str()),
            None => None,
        }
    }

    /// The providers, every one once.
    pub fn list_providers(&self) -> (list: &Vec<ProviderConfig>)
        ensures
            list@ == self.providers@,
    {
        &self.providers
    }
}

} // verus!
