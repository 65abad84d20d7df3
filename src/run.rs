//! The parameters of a run and the steps that connect the catalog's answers:
//! finding the searched artist among the search results, and turning the
//! harvested songs into the record set that is written out and enriched.
use crate::files::FileData;
use crate::filters::{
    apply, chain_for, effective_antipattern, regex_valid, run_stages, title_regex, FilterOptions,
};
use crate::harvest::{sort_named, to_songs_sort_type, ArtistSongsOptions, HarvestError};
use crate::responses::Hit;
use crate::song::{clone_opt_string, ArtistSong};
use crate::text::{lower_of, lowercase};
use vstd::prelude::*;

verus! {

/// Arguments of the single-artist command line.
pub struct Args {
    /// The name of the artist to search for.
    pub artist: String,
}

/// Parameters of a run for one artist.
pub struct ArtistArgs {
    /// Name of the artist.
    pub name: String,
    /// Number of songs to keep; all of them when absent.
    pub limit: Option<u32>,
    /// Drops songs whose title matches this pattern; an empty one selects the
    /// built-in pattern.
    pub antipattern: Option<String>,
    /// `Some(true)` keeps songs whose primary artist is another one.
    pub features: Option<bool>,
    /// "popularity" or "title"; the catalog's default order otherwise.
    pub sort: Option<String>,
    /// Directory of the record file; the current one when absent.
    pub output_dir: Option<String>,
}

/// The commands of the command line.
pub enum Commands {
    /// Retrieves lyrics for a specific artist.
    Artist(ArtistArgs),
}

/// The parsed command line.
pub struct Cli {
    pub commands: Commands,
}

/// Why a run failed.
#[derive(Debug)]
pub enum RunError {
    /// No search result has the searched name as its primary artist's name.
    ArtistNotFound,
    /// The harvest of the artist's songs failed.
    Harvest(HarvestError),
    /// The anti-pattern is not a pattern that `regex` accepts.
    InvalidAntipattern,
}

/// A search result whose primary artist bears the searched name, ignoring
/// case.
pub open spec fn hit_matches(term: Seq<char>, hit: Hit) -> bool {
    lower_of(hit.result.primary_artist.name@) == lower_of(term)
}

/// Finds the first search result whose primary artist bears the searched
/// name, ignoring case, and returns that artist's id and name.
pub fn find_arg_artist_from_hits(arg_artist: &str, genius_hits: Vec<Hit>) -> (r: Result<
    (u32, String),
    RunError,
>)
    ensures
        match r {
            Ok((id, name)) => exists|i: int|
                0 <= i < genius_hits@.len() && hit_matches(arg_artist@, #[trigger] genius_hits@[i])
                    && (forall|j: int| 0 <= j < i ==> !hit_matches(arg_artist@, #[trigger] genius_hits@[j]))
                    && id == genius_hits@[i].result.primary_artist.id
                    && name == genius_hits@[i].result.primary_artist.name,
            Err(e) => e == RunError::ArtistNotFound && forall|i: int|
                0 <= i < genius_hits@.len() ==> !hit_matches(arg_artist@, #[trigger] genius_hits@[i]),
        },
{
    let wanted = lowercase(arg_artist);
    let mut i: usize = 0;
    while i < genius_hits.len()
        invariant
            0 <= i <= genius_hits@.len(),
            wanted@ == lower_of(arg_artist@),
            forall|j: int| 0 <= j < i ==> !hit_matches(arg_artist@, #[trigger] genius_hits@[j]),
        decreases genius_hits@.len() - i,
    {
        let artist = &genius_hits[i].result.primary_artist;
        let name = lowercase(artist.name.as_str());
        if name == wanted {
            assert(hit_matches(arg_artist@, genius_hits@[i as int]));
            return Ok((artist.id, artist.name.clone()));
        }
        i = i + 1;
    }
    Err(RunError::ArtistNotFound)
}

/// The first `limit` songs, or all of them when there are no more than that
/// or no limit is given.
pub open spec fn limited(songs: Seq<ArtistSong>, limit: Option<u32>) -> Seq<ArtistSong> {
    match limit {
        Some(l) => if (l as int) < songs.len() {
            songs.take(l as int)
        } else {
            songs
        },
        None => songs,
    }
}

/// Keeps the first `limit` songs, in their order.
pub fn limit_songs(songs: Vec<ArtistSong>, limit: Option<u32>) -> (r: Vec<ArtistSong>)
    ensures
        r@ == limited(songs@, limit),
{
    let mut songs = songs;
    if let Some(l) = limit {
        if (l as usize) < songs.len() {
            songs.truncate(l as usize);
        }
    }
    songs
}

/// The record set of a run: the harvested songs that the filter chain keeps,
/// cut to the limit, with their count.
pub fn select_songs(
    artist_id: u32,
    songs: Vec<ArtistSong>,
    options: FilterOptions,
    limit: Option<u32>,
) -> (r: FileData)
    ensures
        r.songs@ == limited(run_stages(chain_for(artist_id, options), songs@), limit),
        r.total == r.songs@.len(),
{
    let kept = apply(artist_id, songs, options);
    FileData::new(limit_songs(kept, limit))
}

impl ArtistArgs {
    /// The listing options these parameters ask for.
    pub fn songs_options(&self) -> (r: ArtistSongsOptions)
        ensures
            r.sort == match self.sort {
                Some(s) => sort_named(s@),
                None => None,
            },
    {
        ArtistSongsOptions { sort: to_songs_sort_type(clone_opt_string(&self.sort)) }
    }

    /// The filter options these parameters ask for, refused when the
    /// anti-pattern does not compile.
    pub fn filter_options(&self) -> (r: Result<FilterOptions, RunError>)
        ensures
            match r {
                Ok(o) => o.include_features == self.features && o.antipattern == self.antipattern,
                Err(e) => e == RunError::InvalidAntipattern,
            },
            r is Ok <==> match self.antipattern {
                Some(p) => regex_valid(title_regex(effective_antipattern(p@))),
                None => true,
            },
    {
        let options = FilterOptions {
            include_features: self.features,
            antipattern: clone_opt_string(&self.antipattern),
        };
        if options.antipattern_compiles() {
            Ok(options)
        } else {
            Err(RunError::InvalidAntipattern)
        }
    }
}

} // verus!
