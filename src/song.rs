//! The song records of the catalog.
use vstd::prelude::*;

verus! {

/// The artist a song is attributed to.
pub struct PrimaryArtist {
    pub id: u32,
    pub name: String,
}

impl Clone for PrimaryArtist {
    fn clone(&self) -> (r: Self)
        ensures
            r == *self,
    {
        PrimaryArtist { id: self.id, name: self.name.clone() }
    }
}

/// One song as the catalog lists it.
pub struct ArtistSong {
    pub annotation_count: Option<u32>,
    pub api_path: String,
    pub artist_names: String,
    pub full_title: String,
    pub header_image_thumbnail_url: String,
    pub header_image_url: String,
    pub id: u32,
    pub language: Option<String>,
    pub lyrics_owner_id: Option<u32>,
    pub lyrics_state: String,
    pub path: String,
    pub primary_artist: PrimaryArtist,
    pub pyongs_count: Option<u32>,
    pub relationships_index_url: String,
    pub release_date_for_display: Option<String>,
    pub song_art_image_thumbnail_url: String,
    pub song_art_image_url: String,
    pub title_with_featured: String,
    pub title: String,
    pub url: String,
}

/// A copy of an optional string, equal to it.
pub fn clone_opt_string(s: &Option<String>) -> (r: Option<String>)
    ensures
        r == *s,
{
    match s {
        Some(v) => Some(v.clone()),
        None => None,
    }
}

impl Clone for ArtistSong {
    fn clone(&self) -> (r: Self)
        ensures
            r == *self,
    {
        ArtistSong {
            annotation_count: self.annotation_count,
            api_path: self.api_path.clone(),
            artist_names: self.artist_names.clone(),
            full_title: self.full_title.clone(),
            header_image_thumbnail_url: self.header_image_thumbnail_url.clone(),
            header_image_url: self.header_image_url.clone(),
            id: self.id,
            language: clone_opt_string(&self.language),
            lyrics_owner_id: self.lyrics_owner_id,
            lyrics_state: self.lyrics_state.clone(),
            path: self.path.clone(),
            primary_artist: self.primary_artist.clone(),
            pyongs_count: self.pyongs_count,
            relationships_index_url: self.relationships_index_url.clone(),
            release_date_for_display: clone_opt_string(&self.release_date_for_display),
            song_art_image_thumbnail_url: self.song_art_image_thumbnail_url.clone(),
            song_art_image_url: self.song_art_image_url.clone(),
            title_with_featured: self.title_with_featured.clone(),
            title: self.title.clone(),
            url: self.url.clone(),
        }
    }
}

/// A song together with the lyrics fetched for it (empty when none could be
/// had).
pub struct ArtistSongWithLyrics {
    pub song: ArtistSong,
    pub lyrics: String,
}

impl Clone for ArtistSongWithLyrics {
    fn clone(&self) -> (r: Self)
        ensures
            r == *self,
    {
        ArtistSongWithLyrics { song: self.song.clone(), lyrics: self.lyrics.clone() }
    }
}

impl ArtistSong {
    /// Pairs a copy of this song with its lyrics.
    pub fn to_artist_song_with_lyrics(&self, lyrics: String) -> (r: ArtistSongWithLyrics)
        ensures
            r.song == *self,
            r.lyrics == lyrics,
    {
        ArtistSongWithLyrics { song: self.clone(), lyrics }
    }
}

/// A song's full catalog entry, as a song lookup returns it.
pub struct Song {
    /// Number of annotations on this song.
    pub annotation_count: Option<u32>,
    /// Path (not full URL) to this song through the catalog's API.
    pub api_path: String,
    pub apple_music_id: Option<String>,
    pub apple_music_player_url: Option<String>,
    pub artist_names: String,
    pub embed_content: Option<String>,
    pub featured_video: Option<bool>,
    pub full_title: String,
    pub header_image_thumbnail_url: String,
    pub header_image_url: String,
    /// This song's id.
    pub id: u32,
    pub lyrics_owner_id: Option<u32>,
    pub lyrics_state: String,
    /// Path to the lyrics page.
    pub path: String,
    /// Number of marks of user interest this song has received.
    pub pyongs_count: Option<u32>,
    pub release_date: Option<String>,
    pub release_date_for_display: Option<String>,
    pub song_art_image_thumbnail_url: String,
    pub song_art_image_url: String,
    /// Name of this song.
    pub title: String,
    pub title_with_featured: String,
    /// Full URL to this song's page.
    pub url: String,
    /// The main artist to which this song is attributed.
    pub primary_artist: PrimaryArtist,
}

} // verus!
