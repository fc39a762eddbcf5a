//! Where pages are written on Confluence.

use vstd::prelude::*;

verus! {

/// Writes pages to one space of a Confluence site.
#[derive(Debug, Clone)]
pub struct ConfluenceWriter {
    base_url: String,
    api_token: String,
    space_key: String,
}

impl ConfluenceWriter {
    /// The address of the site.
    pub closed spec fn site(&self) -> Seq<char> {
        self.base_url@
    }

    /// The token to sign in with.
    pub closed spec fn token(&self) -> Seq<char> {
        self.api_token@
    }

    /// The key of the space.
    pub closed spec fn space(&self) -> Seq<char> {
        self.space_key@
    }

    /// A writer for the space `space_key` of the site at `base_url`.
    pub fn new(base_url: String, api_token: String, space_key: String) -> (writer: Self)
        ensures
            writer.site() == base_url@,
            writer.token() == api_token@,
            writer.space() == space_key@,
    {
        Self { base_url, api_token, space_key }
    }

    /// The address of the site.
    pub fn base_url(&self) -> (url: &str)
        ensures
            url@ == self.site(),
    {
        self.base_url.as_str()
    }

    /// The token to sign in with.
    pub fn api_token(&self) -> (token: &str)
        ensures
            token@ == self.token(),
    {
        self.api_token.as_str()
    }

    /// The key of the space.
    pub fn space_key(&self) -> (key: &str)
        ensures
            key@ == self.space(),
    {
        self.space_key.as_str()
    }
}

} // verus!
