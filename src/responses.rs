//! The bodies of the catalog's responses, and what the harvest reads of them.
use crate::artist::Artist;
use crate::harvest::PageOutcome;
use crate::song::ArtistSong;
use vstd::prelude::*;

verus! {

/// One search result: a song that the search term matched.
pub struct Hit {
    pub index: String,
    /// The kind of result (the catalog's `type` field).
    pub kind: String,
    pub result: ArtistSong,
}

/// Body of a search.
pub struct SearchResponse {
    pub hits: Option<Vec<Hit>>,
}

/// Body of an artist lookup.
pub struct ArtistResponse {
    pub artist: Option<Artist>,
}

/// Body of one page of an artist's song listing.
pub struct ArtistSongsResponse {
    pub songs: Option<Vec<ArtistSong>>,
}

/// Body of a lyrics lookup.
pub struct LyricsResponse {
    pub plain: Option<String>,
}

/// Body of a song lookup.
pub struct SongResponse {
    pub song: Option<ArtistSong>,
}

impl SearchResponse {
    /// The search results, if the body lists any.
    pub fn get_items(self) -> (r: Option<Vec<Hit>>)
        ensures
            r == self.hits,
    {
        self.hits
    }
}

impl ArtistSongsResponse {
    /// The songs of the page, if the body lists any.
    pub fn get_items(self) -> (r: Option<Vec<ArtistSong>>)
        ensures
            r == self.songs,
    {
        self.songs
    }

    /// What the page means to a harvest: its songs, or a missing list.
    pub fn into_page_outcome(self) -> (r: PageOutcome)
        ensures
            r == match self.songs {
                Some(v) => PageOutcome::Songs(v),
                None => PageOutcome::Missing,
            },
    {
        match self.songs {
            Some(v) => PageOutcome::Songs(v),
            None => PageOutcome::Missing,
        }
    }
}

impl SongResponse {
    /// The song, if the body holds one.
    pub fn get_item(self) -> (r: Option<ArtistSong>)
        ensures
            r == self.song,
    {
        self.song
    }
}

impl ArtistResponse {
    /// The artist, if the body holds one.
    pub fn get_item(self) -> (r: Option<Artist>)
        ensures
            r == self.artist,
    {
        self.artist
    }
}

} // verus!
