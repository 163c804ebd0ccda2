//! The API endpoint that the operations are bound to.

use vstd::prelude::*;
use vstd::string::*;

verus! {

/// An API endpoint: the base URL below which every path of the API lies.
#[derive(Debug, Clone)]
pub struct Client {
    base_url: String,
}

impl Client {
    /// The base URL, as a sequence of characters.
    pub closed spec fn base(&self) -> Seq<char> {
        self.base_url@
    }

    /// A client for the API at `base_url`.
    pub fn new(base_url: String) -> (client: Client)
        ensures
            client.base() == base_url@,
    {
        Client { base_url }
    }

    /// The base URL that the client was made with.
    pub fn base_url(&self) -> (base_url: &str)
        ensures
            base_url@ == self.base(),
    {
        self.base_url.as_str()
    }

    /// The URL of a request's path: the base URL with the path behind it,
    /// nothing added and nothing escaped.
    pub fn url(&self, path: &str) -> (url: String)
        ensures
            url@ == self.base() + path@,
    {
        let mut url = self.base_url.clone();
        url.append(path);
        url
    }
}

} // verus!
