//! Where the API lives and the credentials it asks for.

use vstd::prelude::*;

verus! {

/// Connection settings of one API account: where the service lives and the
/// two credentials every request carries.
#[derive(Clone)]
pub struct Options {
    base_url: String,
    api_key: String,
    authorization: String,
}

/// The settings as plain character sequences.
pub struct OptionsView {
    pub base_url: Seq<char>,
    pub api_key: Seq<char>,
    pub authorization: Seq<char>,
}

impl View for Options {
    type V = OptionsView;

    closed spec fn view(&self) -> OptionsView {
        OptionsView {
            base_url: self.base_url@,
            api_key: self.api_key@,
            authorization: self.authorization@,
        }
    }
}

impl Options {
    /// Settings with the given base URL, API key and authorization token.
    pub fn new(base_url: String, api_key: String, authorization: String) -> (options: Options)
        ensures
            options@.base_url == base_url@,
            options@.api_key == api_key@,
            options@.authorization == authorization@,
    {
        Options { base_url, api_key, authorization }
    }

    /// The URL that every relative path is appended to.
    pub fn base_url(&self) -> (text: &str)
        ensures
            text@ == self@.base_url,
    {
        self.base_url.as_str()
    }

    /// The key sent in the `x-api-key` header.
    pub fn api_key(&self) -> (text: &str)
        ensures
            text@ == self@.api_key,
    {
        self.api_key.as_str()
    }

    /// The token sent after `Bearer` in the `Authorization` header.
    pub fn authorization(&self) -> (text: &str)
        ensures
            text@ == self@.authorization,
    {
        self.authorization.as_str()
    }
}

} // verus!
