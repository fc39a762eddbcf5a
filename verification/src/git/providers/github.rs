//! Pull requests on GitHub.

use vstd::prelude::*;

verus! {

/// Reads pull requests from GitHub, with a token where one is needed.
#[derive(Debug, Clone)]
pub struct GitHubProvider {
    api_token: Option<String>,
}

impl GitHubProvider {
    /// The token that the provider signs in with.
    pub closed spec fn token(&self) -> Option<String> {
        self.api_token
    }

    /// A provider that signs in with `api_token`.
    pub fn new(api_token: Option<String>) -> (provider: Self)
        ensures
            provider.token() == api_token,
    {
        Self { api_token }
    }

    /// The token that the provider signs in with.
    pub fn api_token(&self) -> (token: &Option<String>)
        ensures
            *token == self.token(),
    {
        &self.api_token
    }
}

} // verus!
