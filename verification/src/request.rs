//! The request of one call: a URL that parameters are attached to, and that is then sent.

use crate::error::{ClassifiedError, TransportFailure};
use crate::query::{
    append_pair, lemma_read_appended, pair_text, plain_key, plain_value, query_of, Pair,
};
use crate::reply::{answers, decode_body, Payload};
use std::marker::PhantomData;
use vstd::prelude::*;

verus! {

/// The request of one call, for a reply that holds an `R`. It is made for one call: parameters
/// are attached to it, and sending uses it up.
pub struct RequestBuilder<R> {
    url: String,
    target: PhantomData<R>,
}

impl<R> View for RequestBuilder<R> {
    type V = Seq<char>;

    /// The URL as it stands.
    closed spec fn view(&self) -> Seq<char> {
        self.url@
    }
}

impl<R> RequestBuilder<R> {
    /// A request always has a query string.
    #[verifier::type_invariant]
    spec fn has_query(&self) -> bool {
        self.url@.contains('?')
    }

    /// The parameters that the request carries, in order.
    pub open spec fn query(&self) -> Seq<Pair> {
        query_of(self@)
    }

    /// A request for a URL that has a query string.
    pub(crate) fn seeded(url: String) -> (builder: Self)
        requires
            url@.contains('?'),
        ensures
            builder@ == url@,
    {
        RequestBuilder { url, target: PhantomData }
    }

    /// The URL as it stands.
    pub fn url(&self) -> (url: &str)
        ensures
            url@ == self@,
            url@.contains('?'),
    {
        proof {
            use_type_invariant(self);
        }
        self.url.as_str()
    }

    /// Attaches a parameter: `&key=value` is appended to the URL, and nothing that stands
    /// there is changed. A key that was attached before is attached once more. Nothing is
    /// escaped: a key without `&` and `=` with a value without `&` is read back as it was
    /// given, after all that the request carried before.
    pub fn attach(self, key: &str, value: &str) -> (builder: Self)
        ensures
            builder@ == self@ + seq!['&'] + pair_text((key@, value@)),
            plain_key(key@) && plain_value(value@) ==> builder.query() == self.query().push(
                (key@, value@),
            ),
    {
        proof {
            use_type_invariant(&self);
            if plain_key(key@) && plain_value(value@) {
                lemma_read_appended(self.url@, (key@, value@));
            }
        }
        let ghost before = self.url@;
        let mut url = self.url;
        append_pair(&mut url, key, value);
        assert(url@.contains('?')) by {
            let at = before.index_of('?');
            assert(url@[at] == before[at]);
        }
        RequestBuilder { url, target: PhantomData }
    }
}

impl<R: Payload> RequestBuilder<R> {
    /// Ends the call with what came back from the service. A failure of the transport is
    /// handed on, and no body is read. A body that is an error of the service is that error,
    /// whatever else it holds; otherwise it is the result, where it holds one; otherwise the
    /// reply could not be read.
    pub fn send(self, reply: Result<String, TransportFailure>) -> (r: Result<R, ClassifiedError>)
        ensures
            answers(reply, r),
    {
        match reply {
            Ok(body) => decode_body(body.as_str()),
            Err(failure) => Err(ClassifiedError::Transport(failure)),
        }
    }
}

} // verus!
