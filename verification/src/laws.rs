//! What holds of every request and of every reply.

use crate::decode::{listed, nested, Decode};
use crate::error::{ClassifiedError, ServiceError, TransportFailure};
use crate::json::{member, parsed, JsonView};
use crate::model::Attributes;
use crate::query::{
    lemma_decimal_plain, lemma_read_appended, lemma_read_url_text, pair_text, plain_key,
    plain_pairs, plain_value, query_of, url_text, Pair,
};
use crate::reply::{answers, decoded, payload_of, Payload};
use crate::text::{decimal_text, decimal_value, lemma_decimal_value};
use crate::user::top_albums::TopAlbums;
use crate::user::Album;
use vstd::prelude::*;

verus! {

/// A URL after the parameters of a list were attached to it, one after another.
pub open spec fn attached(url: Seq<char>, pairs: Seq<Pair>) -> Seq<char>
    decreases pairs.len(),
{
    if pairs.len() == 0 {
        url
    } else {
        attached(url, pairs.drop_last()) + seq!['&'] + pair_text(pairs.last())
    }
}

/// Attaching only appends. After any number of plain parameters were attached to a URL that
/// has a query string, the URL carries what it carried before, in the same order, and then
/// the attached parameters in the order in which they were attached.
pub proof fn lemma_attach_is_append_only(url: Seq<char>, pairs: Seq<Pair>)
    requires
        url.contains('?'),
        plain_pairs(pairs),
    ensures
        attached(url, pairs).contains('?'),
        query_of(attached(url, pairs)) == query_of(url) + pairs,
    decreases pairs.len(),
{
    if pairs.len() == 0 {
        assert(query_of(url) + pairs =~= query_of(url));
    } else {
        let front = pairs.drop_last();
        let last = pairs.last();
        assert forall|i: int| 0 <= i < front.len() implies plain_key(#[trigger] front[i].0)
            && plain_value(front[i].1) by {
            assert(front[i] == pairs[i]);
        }
        lemma_attach_is_append_only(url, front);
        let so_far = attached(url, front);
        assert(plain_key(last.0) && plain_value(last.1));
        lemma_read_appended(so_far, last);
        assert(query_of(url) + front + seq![last] =~= query_of(url) + pairs);
        assert(query_of(so_far).push(last) =~= query_of(url) + pairs);
        let longer = attached(url, pairs);
        let at = so_far.index_of('?');
        assert(longer[at] == so_far[at]);
    }
}

/// Attaching a plain parameter makes it occur once more among the parameters that the URL
/// carries, and leaves the number of occurrences of every other parameter as it was.
pub proof fn lemma_attach_counts_once_more(url: Seq<char>, pair: Pair, other: Pair)
    requires
        url.contains('?'),
        plain_key(pair.0),
        plain_value(pair.1),
    ensures
        query_of(url + seq!['&'] + pair_text(pair)).to_multiset().count(pair) == query_of(
            url,
        ).to_multiset().count(pair) + 1,
        other != pair ==> query_of(url + seq!['&'] + pair_text(pair)).to_multiset().count(other)
            == query_of(url).to_multiset().count(other),
{
    lemma_read_appended(url, pair);
    vstd::seq_lib::to_multiset_build(query_of(url), pair);
}

/// The method, the user and a limit are read back from the URL that was written from them,
/// each once and in the order in which they were given, and the limit is read back from its
/// digits. This holds for a base without `?`, and a method and a user without `&`.
pub proof fn lemma_round_trip(base: Seq<char>, method: Seq<char>, user: Seq<char>, limit: nat)
    requires
        !base.contains('?'),
        plain_value(method),
        plain_value(user),
    ensures
        query_of(
            url_text(
                base,
                seq![("method"@, method), ("user"@, user), ("limit"@, decimal_text(limit))],
            ),
        ) == seq![("method"@, method), ("user"@, user), ("limit"@, decimal_text(limit))],
        decimal_value(decimal_text(limit)) == Some(limit),
{
    reveal_strlit("method");
    reveal_strlit("user");
    reveal_strlit("limit");
    lemma_decimal_plain(limit);
    lemma_decimal_value(limit);
    let digits = decimal_text(limit);
    let pairs = seq![("method"@, method), ("user"@, user), ("limit"@, digits)];
    assert(plain_pairs(pairs));
    lemma_read_url_text(base, pairs);
}

/// An error of the service goes first: a body that has its shape comes to that error,
/// whether or not the body also holds a result.
pub proof fn lemma_service_error_wins<R: Payload>(
    body: Seq<char>,
    json: JsonView,
    r: Result<R, ClassifiedError>,
)
    requires
        decoded(body, r),
        parsed(body) == Ok::<JsonView, Seq<char>>(json),
        ServiceError::shape(json) is Some,
    ensures
        r matches Err(ClassifiedError::Service(error)) && Some(error@) == ServiceError::shape(json),
{
}

/// A body that holds a result and is no error of the service comes to that result.
pub proof fn lemma_payload_is_returned<R: Payload>(
    body: Seq<char>,
    json: JsonView,
    r: Result<R, ClassifiedError>,
)
    requires
        decoded(body, r),
        parsed(body) == Ok::<JsonView, Seq<char>>(json),
        ServiceError::shape(json) is None,
        payload_of::<R>(json) is Some,
    ensures
        r matches Ok(payload) && Some(payload@) == payload_of::<R>(json),
{
}

/// Every field of a page of top albums comes from the reply: there are as many albums as
/// the array under `album` has items, each album is what its item holds, and the attributes
/// are what the object under `@attr` holds.
pub proof fn lemma_top_albums_come_from_reply(json: JsonView)
    requires
        payload_of::<TopAlbums>(json) is Some,
    ensures
        ({
            let page = payload_of::<TopAlbums>(json).unwrap();
            let inner = member(member(json, "user"@).unwrap(), "topalbums"@).unwrap();
            &&& member(inner, "album"@) matches Some(JsonView::Array(items))
            &&& page.albums.len() == items.len()
            &&& forall|i: int|
                0 <= i < items.len() ==> Some(#[trigger] page.albums[i]) == Album::shape(items[i])
            &&& Some(page.attrs) == nested::<Attributes>(inner, "@attr"@)
        }),
{
    let inner = member(member(json, "user"@).unwrap(), "topalbums"@).unwrap();
    let list = member(inner, "album"@).unwrap();
    assert(listed::<Album>(list) is Some);
}

/// A failure of the transport is handed on as it is.
pub proof fn lemma_transport_failure_is_returned<R: Payload>(
    failure: TransportFailure,
    r: Result<R, ClassifiedError>,
)
    requires
        answers(Err::<String, TransportFailure>(failure), r),
    ensures
        r == Err::<R, ClassifiedError>(ClassifiedError::Transport(failure)),
{
}

/// A body that is no JSON text, or is neither an error of the service nor a result, comes to
/// a failure to read it.
pub proof fn lemma_unreadable_body_fails<R: Payload>(body: Seq<char>, r: Result<R, ClassifiedError>)
    requires
        decoded(body, r),
        parsed(body) matches Ok(json) ==> ServiceError::shape(json) is None && payload_of::<R>(
            json,
        ) is None,
    ensures
        r matches Err(ClassifiedError::Parsing(_)),
{
}

} // verus!
