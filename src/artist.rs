//! Artists as the catalog describes them.
use vstd::prelude::*;

verus! {

/// An artist's catalog entry.
pub struct Artist {
    pub alternate_names: Vec<String>,
    pub api_path: String,
    pub facebook_name: Option<String>,
    pub followers_count: u32,
    pub header_image_url: String,
    /// The id under which the catalog lists the artist.
    pub id: u32,
    pub image_url: String,
    pub instagram_name: Option<String>,
    pub is_meme_verified: bool,
    pub is_verified: bool,
    /// The artist's full name.
    pub name: String,
    pub translation_artist: bool,
    pub twitter_name: Option<String>,
    pub url: String,
}

} // verus!
