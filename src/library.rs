use vstd::prelude::*;
use crate::query::Query;
use crate::text::{decimal, decimal_string};

verus! {

/// One page of results of one category: how many, and from where.
#[derive(Clone, Copy, Debug, PartialEq, Eq, Structural)]
pub struct SearchPage {
    pub count: u64,
    pub offset: u64,
}

impl SearchPage {
    /// The first twenty results.
    pub fn new() -> (r: SearchPage)
        ensures
            r == (SearchPage { count: 20, offset: 0 }),
    {
        SearchPage { count: 20, offset: 0 }
    }

    /// No results of this category.
    pub fn none() -> (r: SearchPage)
        ensures
            r == (SearchPage { count: 0, offset: 0 }),
    {
        SearchPage { count: 0, offset: 0 }
    }

    /// The same page with `count` results.
    pub fn with_size(self, count: u64) -> (r: SearchPage)
        ensures
            r == (SearchPage { count, offset: self.offset }),
    {
        SearchPage { count, offset: self.offset }
    }

    /// The same page size, starting at `offset`.
    pub fn with_offset(self, offset: u64) -> (r: SearchPage)
        ensures
            r == (SearchPage { count: self.count, offset }),
    {
        SearchPage { count: self.count, offset }
    }
}

/// The parameters of a search for `query`, paged per category.
pub open spec fn search_params(
    query: Seq<char>,
    artist: SearchPage,
    album: SearchPage,
    song: SearchPage,
) -> Seq<(Seq<char>, Seq<char>)> {
    seq![
        ("query"@, query),
        ("artistCount"@, decimal(artist.count as nat)),
        ("artistOffset"@, decimal(artist.offset as nat)),
        ("albumCount"@, decimal(album.count as nat)),
        ("albumOffset"@, decimal(album.offset as nat)),
        ("songCount"@, decimal(song.count as nat)),
        ("songOffset"@, decimal(song.offset as nat)),
    ]
}

/// The query of a search for `query`: the text, then count and offset of
/// artists, albums and songs.
pub fn search_query(query: &str, artist: SearchPage, album: SearchPage, song: SearchPage) -> (r:
    Query)
    ensures
        r@ == search_params(query@, artist, album, song),
{
    let r = Query::with("query", query).arg("artistCount", decimal_string(artist.count).as_str()).arg(
        "artistOffset",
        decimal_string(artist.offset).as_str(),
    ).arg("albumCount", decimal_string(album.count).as_str()).arg(
        "albumOffset",
        decimal_string(album.offset).as_str(),
    ).arg("songCount", decimal_string(song.count).as_str()).arg(
        "songOffset",
        decimal_string(song.offset).as_str(),
    );
    assert(r@ =~= search_params(query@, artist, album, song));
    r
}

/// The software license of a server.
#[derive(Debug)]
pub struct License {
    /// Whether the license is valid.
    pub valid: bool,
    /// The email that the license belongs to.
    pub email: String,
    /// When the trial ends, as an ISO 8601 timestamp.
    pub trial_expires: Option<String>,
    /// When the license ends, as an ISO 8601 timestamp; absent during a trial.
    pub license_expires: Option<String>,
}

} // verus!
