//! The albums that a user has listened to most.

use crate::client::{credentials, Client};
use crate::decode::{nested, nested_list, read_nested, read_nested_list, views, Decode};
use crate::json::JsonView;
use crate::model::{Attributes, AttributesView};
use crate::query::{
    lemma_decimal_plain, lemma_read_url_text, pair_text, params_view, plain_pairs, plain_value,
    query_of, url_text, Pair,
};
use crate::reply::Payload;
use crate::request::RequestBuilder;
use crate::text::{decimal, decimal_text};
use crate::user::{Album, AlbumView, Period};
use vstd::prelude::*;

verus! {

/// A page of a user's top albums.
#[derive(Debug, Clone, PartialEq, Eq)]
pub struct TopAlbums {
    /// The albums, the most played first.
    pub albums: Vec<Album>,
    /// Where the page stands among all of the user's albums.
    pub attrs: Attributes,
}

/// What a [`TopAlbums`] holds.
pub struct TopAlbumsView {
    pub albums: Seq<AlbumView>,
    pub attrs: AttributesView,
}

impl View for TopAlbums {
    type V = TopAlbumsView;

    open spec fn view(&self) -> TopAlbumsView {
        TopAlbumsView { albums: views(self.albums@), attrs: self.attrs@ }
    }
}

impl Decode for TopAlbums {
    /// An object with an array of albums under `album` and the page's attributes under
    /// `@attr`.
    open spec fn shape(json: JsonView) -> Option<TopAlbumsView> {
        match (nested_list::<Album>(json, "album"@), nested::<Attributes>(json, "@attr"@)) {
            (Some(albums), Some(attrs)) => Some(TopAlbumsView { albums, attrs }),
            _ => None,
        }
    }

    fn decode(value: &serde_json::Value) -> (r: Option<TopAlbums>) {
        let albums = read_nested_list::<Album>(value, "album")?;
        let attrs = read_nested::<Attributes>(value, "@attr")?;
        Some(TopAlbums { albums, attrs })
    }
}

impl Payload for TopAlbums {
    open spec fn resource() -> Seq<char> {
        "topalbums"@
    }

    fn resource_name() -> (name: &'static str) {
        "topalbums"
    }
}

/// The parameters that a request for a user's top albums starts with: the method of the
/// service, and the user.
pub open spec fn top_albums_params(user: Seq<char>) -> Seq<Pair> {
    seq![("method"@, "user.getTopAlbums"@), ("user"@, user)]
}

impl TopAlbums {
    /// The request for a user's top albums: the client's address with the method, the user,
    /// the key and the format, in this order.
    pub fn build(client: &Client, user: &str) -> (builder: RequestBuilder<TopAlbums>)
        ensures
            builder@ == url_text(
                client.base(),
                top_albums_params(user@) + credentials(client.key()),
            ),
            !client.base().contains('?') && plain_value(user@) && plain_value(client.key())
                ==> builder.query() == top_albums_params(user@) + credentials(client.key()),
    {
        let params = vec![("method", "user.getTopAlbums"), ("user", user)];
        let url = client.compose_url(&params);
        proof {
            assert(params_view(params@) =~= top_albums_params(user@));
            assert(url@[client.base().len() as int] == '?');
            if !client.base().contains('?') && plain_value(user@) && plain_value(client.key()) {
                lemma_top_albums_query(client.base(), client.key(), user@);
            }
        }
        RequestBuilder::seeded(url)
    }
}

impl RequestBuilder<TopAlbums> {
    /// Asks for at most `limit` albums on a page: attaches `limit`, in decimal digits.
    pub fn with_limit(self, limit: usize) -> (builder: Self)
        ensures
            builder@ == self@ + seq!['&'] + pair_text(("limit"@, decimal_text(limit as nat))),
            builder.query() == self.query().push(("limit"@, decimal_text(limit as nat))),
    {
        let digits = decimal(limit as u64);
        proof {
            reveal_strlit("limit");
            lemma_decimal_plain(limit as nat);
        }
        self.attach("limit", digits.as_str())
    }

    /// Asks for the chart of a period: attaches `period`, with the period's word.
    pub fn within_period(self, period: Period) -> (builder: Self)
        ensures
            builder@ == self@ + seq!['&'] + pair_text(("period"@, period.token_text())),
            builder.query() == self.query().push(("period"@, period.token_text())),
    {
        proof {
            reveal_strlit("period");
            reveal_strlit("overall");
            reveal_strlit("7day");
            reveal_strlit("1month");
            reveal_strlit("3month");
            reveal_strlit("6month");
            reveal_strlit("12month");
        }
        self.attach("period", period.token())
    }

    /// Asks for a page, counted from 1: attaches `page`, in decimal digits.
    pub fn with_page(self, page: usize) -> (builder: Self)
        ensures
            builder@ == self@ + seq!['&'] + pair_text(("page"@, decimal_text(page as nat))),
            builder.query() == self.query().push(("page"@, decimal_text(page as nat))),
    {
        let digits = decimal(page as u64);
        proof {
            reveal_strlit("page");
            lemma_decimal_plain(page as nat);
        }
        self.attach("page", digits.as_str())
    }
}

impl Client {
    /// The request for a user's top albums.
    pub fn top_albums(&self, user: &str) -> (builder: RequestBuilder<TopAlbums>)
        ensures
            builder@ == url_text(self.base(), top_albums_params(user@) + credentials(self.key())),
            !self.base().contains('?') && plain_value(user@) && plain_value(self.key())
                ==> builder.query() == top_albums_params(user@) + credentials(self.key()),
    {
        TopAlbums::build(self, user)
    }
}

/// The request for a user's top albums carries the method, the user, the key and the format,
/// where the address holds no `?` and the user and the key no `&`.
pub proof fn lemma_top_albums_query(base: Seq<char>, key: Seq<char>, user: Seq<char>)
    requires
        !base.contains('?'),
        plain_value(user),
        plain_value(key),
    ensures
        query_of(url_text(base, top_albums_params(user) + credentials(key))) == top_albums_params(
            user,
        ) + credentials(key),
{
    reveal_strlit("method");
    reveal_strlit("user.getTopAlbums");
    reveal_strlit("user");
    reveal_strlit("api_key");
    reveal_strlit("format");
    reveal_strlit("json");
    let pairs = top_albums_params(user) + credentials(key);
    assert(plain_pairs(pairs));
    lemma_read_url_text(base, pairs);
}

} // verus!
