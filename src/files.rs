//! The record set that a run writes out: a total count and the songs, before
//! and after their lyrics are attached.
use crate::song::{ArtistSong, ArtistSongWithLyrics};
use std::collections::HashMap;
use vstd::prelude::*;

verus! {

broadcast use vstd::std_specs::hash::group_hash_axioms;

/// The songs of a run before their lyrics are fetched.
pub struct FileData {
    pub total: usize,
    pub songs: Vec<ArtistSong>,
}

/// The songs of a run with their lyrics.
pub struct FileDataWithLyrics {
    pub total: usize,
    pub songs: Vec<ArtistSongWithLyrics>,
}

/// The lyrics a map holds for a song id, empty when it holds none.
pub open spec fn lyrics_for(lyrics: Map<u32, String>, id: u32) -> Seq<char> {
    if lyrics.contains_key(id) {
        lyrics[id]@
    } else {
        Seq::empty()
    }
}

impl FileData {
    /// A record set of these songs, counting them.
    pub fn new(songs: Vec<ArtistSong>) -> (r: FileData)
        ensures
            r.total == songs@.len(),
            r.songs == songs,
    {
        FileData { total: songs.len(), songs }
    }

    /// Attaches to each song the lyrics that the map holds for its id, or
    /// empty lyrics where it holds none; order and total are kept.
    pub fn to_file_data_with_lyrics(&self, lyrics: HashMap<u32, String>) -> (r: FileDataWithLyrics)
        ensures
            r.total == self.total,
            r.songs@.len() == self.songs@.len(),
            forall|k: int|
                0 <= k < self.songs@.len() ==> {
                    &&& (#[trigger] r.songs@[k]).song == self.songs@[k]
                    &&& r.songs@[k].lyrics@ == lyrics_for(lyrics@, self.songs@[k].id)
                },
    {
        let mut out: Vec<ArtistSongWithLyrics> = Vec::new();
        let mut i: usize = 0;
        while i < self.songs.len()
            invariant
                0 <= i <= self.songs@.len(),
                out@.len() == i,
                forall|k: int|
                    0 <= k < i ==> {
                        &&& (#[trigger] out@[k]).song == self.songs@[k]
                        &&& out@[k].lyrics@ == lyrics_for(lyrics@, self.songs@[k].id)
                    },
            decreases self.songs@.len() - i,
        {
            let song = &self.songs[i];
            let text = match lyrics.get(&song.id) {
                Some(t) => t.clone(),
                None => String::new(),
            };
            out.push(song.to_artist_song_with_lyrics(text));
            i = i + 1;
        }
        FileDataWithLyrics { total: self.total, songs: out }
    }
}

/// Names the files that hold an artist's record set.
pub struct SongsFileManager;

/// A text with each space turned into an underscore.
pub open spec fn underscored(s: Seq<char>) -> Seq<char> {
    s.map_values(|c: char| if c == ' ' { '_' } else { c })
}

/// Relies on `str::replace`: every space is replaced by an underscore and
/// nothing else changes.
#[verifier::external_body]
fn replace_spaces(s: &str) -> (r: String)
    ensures
        r@ == underscored(s@),
{
    s.replace(' ', "_")
}

impl SongsFileManager {
    /// The stem of the file name for an artist: the name in lower case, with
    /// underscores for spaces.
    pub fn file_stem(artist: &str) -> (r: String)
        ensures
            r@ == underscored(crate::text::lower_of(artist@)),
    {
        let lower = crate::text::lowercase(artist);
        replace_spaces(lower.as_str())
    }
}

} // verus!
