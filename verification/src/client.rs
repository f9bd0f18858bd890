//! The settings of a client: where the API lives and the key to call it
//! with.

use vstd::prelude::*;

verus! {

/// Where the API lives unless a builder is told otherwise.
pub const CURSE_FORGE_BASE_URL: &'static str = "https://api.curseforge.com";

/// Collects the settings of a client; what is not set falls back to a
/// default when the settings are resolved.
pub struct ClientBuilder {
    base_url: Option<String>,
    api_key: Option<String>,
}

/// The settings that a client is made with.
#[derive(Debug, PartialEq)]
pub struct ClientSettings {
    pub base_url: String,
    pub api_key: String,
}

impl ClientBuilder {
    /// The base URL that was set, if one was.
    pub closed spec fn chosen_base_url(self) -> Option<Seq<char>> {
        match self.base_url {
            Some(s) => Some(s@),
            None => None,
        }
    }

    /// The API key that was set, if one was.
    pub closed spec fn chosen_api_key(self) -> Option<Seq<char>> {
        match self.api_key {
            Some(s) => Some(s@),
            None => None,
        }
    }

    /// A builder with nothing set.
    pub fn new() -> (r: ClientBuilder)
        ensures
            r.chosen_base_url() is None,
            r.chosen_api_key() is None,
    {
        ClientBuilder { base_url: None, api_key: None }
    }

    /// Sets the base URL and leaves the key as it is.
    pub fn base_url(self, base_url: &str) -> (r: ClientBuilder)
        ensures
            r.chosen_base_url() == Some(base_url@),
            r.chosen_api_key() == self.chosen_api_key(),
    {
        let mut r = self;
        r.base_url = Some(base_url.to_owned());
        r
    }

    /// Sets the API key and leaves the base URL as it is.
    pub fn api_key(self, api_key: &str) -> (r: ClientBuilder)
        ensures
            r.chosen_api_key() == Some(api_key@),
            r.chosen_base_url() == self.chosen_base_url(),
    {
        let mut r = self;
        r.api_key = Some(api_key.to_owned());
        r
    }

    /// The settings to make the client with: what was set, and for the rest
    /// the public API's address and the key that the caller falls back to.
    pub fn resolve(self, default_api_key: &str) -> (r: ClientSettings)
        ensures
            r.base_url@ == match self.chosen_base_url() {
                Some(s) => s,
                None => CURSE_FORGE_BASE_URL@,
            },
            r.api_key@ == match self.chosen_api_key() {
                Some(s) => s,
                None => default_api_key@,
            },
    {
        let base_url = match self.base_url {
            Some(s) => s,
            None => CURSE_FORGE_BASE_URL.to_owned(),
        };
        let api_key = match self.api_key {
            Some(s) => s,
            None => default_api_key.to_owned(),
        };
        ClientSettings { base_url, api_key }
    }
}

} // verus!
