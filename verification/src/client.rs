//! The client: where the service is, and the key that it knows the caller by.

use crate::query::{
    append_pair, compose, lemma_query_text_push, params_view, url_text, Pair,
};
use vstd::prelude::*;

verus! {

/// The address of the service.
pub open spec fn endpoint() -> Seq<char> {
    "http://ws.audioscrobbler.com/2.0/"@
}

/// The parameters that every call carries besides its own: the key, and the format of the
/// reply.
pub open spec fn credentials(key: Seq<char>) -> Seq<Pair> {
    seq![("api_key"@, key), ("format"@, "json"@)]
}

/// The client of the service. It is made once and lent to every call.
#[derive(Debug, Clone, PartialEq, Eq)]
pub struct Client {
    base_url: String,
    api_key: String,
}

impl Client {
    /// The address that the calls go to.
    pub closed spec fn base(&self) -> Seq<char> {
        self.base_url@
    }

    /// The key that the calls carry.
    pub closed spec fn key(&self) -> Seq<char> {
        self.api_key@
    }

    /// A client of the service at its own address.
    pub fn new(api_key: &str) -> (client: Client)
        ensures
            client.base() == endpoint(),
            client.key() == api_key@,
    {
        Client {
            base_url: "http://ws.audioscrobbler.com/2.0/".to_owned(),
            api_key: api_key.to_owned(),
        }
    }

    /// A client of the service at another address.
    pub fn with_endpoint(base_url: &str, api_key: &str) -> (client: Client)
        ensures
            client.base() == base_url@,
            client.key() == api_key@,
    {
        Client { base_url: base_url.to_owned(), api_key: api_key.to_owned() }
    }

    /// The address that the calls go to.
    pub fn base_url(&self) -> (base: &str)
        ensures
            base@ == self.base(),
    {
        self.base_url.as_str()
    }

    /// The key that the calls carry.
    pub fn api_key(&self) -> (key: &str)
        ensures
            key@ == self.key(),
    {
        self.api_key.as_str()
    }

    /// Writes the URL of a call: the address, then the call's parameters in the order given,
    /// then the key and the format. Nothing is escaped.
    pub fn compose_url(&self, params: &Vec<(&str, &str)>) -> (url: String)
        ensures
            url@ == url_text(self.base(), params_view(params@) + credentials(self.key())),
    {
        let ghost own = params_view(params@);
        let ghost key = ("api_key"@, self.key());
        let ghost format = ("format"@, "json"@);
        let mut url = compose(self.base_url.as_str(), params);
        if params.len() == 0 {
            proof {
                reveal_strlit("=");
            }
            url.append("api_key");
            url.append("=");
            url.append(self.api_key.as_str());
        } else {
            append_pair(&mut url, "api_key", self.api_key.as_str());
        }
        append_pair(&mut url, "format", "json");
        proof {
            lemma_query_text_push(own, key);
            lemma_query_text_push(own.push(key), format);
            assert(own.push(key).push(format) =~= own + credentials(self.key()));
            assert(url@ =~= url_text(self.base(), own.push(key).push(format)));
        }
        url
    }
}

} // verus!
