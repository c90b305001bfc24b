//! What the service knows of a user.

pub mod top_albums;

use crate::decode::{nested, read_nested, Decode};
use crate::json::{text_member, text_of, JsonView};
use vstd::prelude::*;

verus! {

/// The artist of an album.
#[derive(Debug, Clone, PartialEq, Eq)]
pub struct Artist {
    /// The artist's name.
    pub name: String,
    /// The artist's MusicBrainz identifier; empty where the service knows none.
    pub mbid: String,
    /// The artist's page at the service.
    pub url: String,
}

/// What an [`Artist`] holds.
pub struct ArtistView {
    pub name: Seq<char>,
    pub mbid: Seq<char>,
    pub url: Seq<char>,
}

impl View for Artist {
    type V = ArtistView;

    open spec fn view(&self) -> ArtistView {
        ArtistView { name: self.name@, mbid: self.mbid@, url: self.url@ }
    }
}

impl Decode for Artist {
    /// An object with the strings `name`, `mbid` and `url`.
    open spec fn shape(json: JsonView) -> Option<ArtistView> {
        match (text_member(json, "name"@), text_member(json, "mbid"@), text_member(json, "url"@)) {
            (Some(name), Some(mbid), Some(url)) => Some(ArtistView { name, mbid, url }),
            _ => None,
        }
    }

    fn decode(value: &serde_json::Value) -> (r: Option<Artist>) {
        let name = text_of(value, "name")?;
        let mbid = text_of(value, "mbid")?;
        let url = text_of(value, "url")?;
        Some(Artist { name, mbid, url })
    }
}

/// An album that a user has listened to.
#[derive(Debug, Clone, PartialEq, Eq)]
pub struct Album {
    /// The album's title.
    pub name: String,
    /// How often the user has played it, as the service writes it.
    pub playcount: String,
    /// The album's MusicBrainz identifier; empty where the service knows none.
    pub mbid: String,
    /// The album's page at the service.
    pub url: String,
    /// The album's artist.
    pub artist: Artist,
}

/// What an [`Album`] holds.
pub struct AlbumView {
    pub name: Seq<char>,
    pub playcount: Seq<char>,
    pub mbid: Seq<char>,
    pub url: Seq<char>,
    pub artist: ArtistView,
}

impl View for Album {
    type V = AlbumView;

    open spec fn view(&self) -> AlbumView {
        AlbumView {
            name: self.name@,
            playcount: self.playcount@,
            mbid: self.mbid@,
            url: self.url@,
            artist: self.artist@,
        }
    }
}

impl Decode for Album {
    /// An object with the strings `name`, `playcount`, `mbid` and `url`, and an artist under
    /// `artist`.
    open spec fn shape(json: JsonView) -> Option<AlbumView> {
        match (
            text_member(json, "name"@),
            text_member(json, "playcount"@),
            text_member(json, "mbid"@),
            text_member(json, "url"@),
            nested::<Artist>(json, "artist"@),
        ) {
            (Some(name), Some(playcount), Some(mbid), Some(url), Some(artist)) => Some(
                AlbumView { name, playcount, mbid, url, artist },
            ),
            _ => None,
        }
    }

    fn decode(value: &serde_json::Value) -> (r: Option<Album>) {
        let name = text_of(value, "name")?;
        let playcount = text_of(value, "playcount")?;
        let mbid = text_of(value, "mbid")?;
        let url = text_of(value, "url")?;
        let artist = read_nested::<Artist>(value, "artist")?;
        Some(Album { name, playcount, mbid, url, artist })
    }
}

/// The span of time that a chart covers.
#[derive(Debug, Clone, Copy, PartialEq, Eq)]
pub enum Period {
    /// All the time that the service knows of.
    Overall,
    /// The last seven days.
    SevenDays,
    /// The last month.
    OneMonth,
    /// The last three months.
    ThreeMonths,
    /// The last six months.
    SixMonths,
    /// The last twelve months.
    TwelveMonths,
}

impl Period {
    /// The word that the service knows the period by.
    pub open spec fn token_text(self) -> Seq<char> {
        match self {
            Period::Overall => "overall"@,
            Period::SevenDays => "7day"@,
            Period::OneMonth => "1month"@,
            Period::ThreeMonths => "3month"@,
            Period::SixMonths => "6month"@,
            Period::TwelveMonths => "12month"@,
        }
    }

    /// The word that the service knows the period by.
    pub fn token(self) -> (token: &'static str)
        ensures
            token@ == self.token_text(),
    {
        match self {
            Period::Overall => "overall",
            Period::SevenDays => "7day",
            Period::OneMonth => "1month",
            Period::ThreeMonths => "3month",
            Period::SixMonths => "6month",
            Period::TwelveMonths => "12month",
        }
    }
}

} // verus!
