//! The chain of rules that narrows an artist's songs.
use crate::song::ArtistSong;
use crate::text::{lower_of, lowercase};
use regex::Regex;
use vstd::prelude::*;
use vstd::string::StringExecFns;

verus! {

/// The compiled regex of the `regex` crate, carried as an opaque value.
#[verifier::external_type_specification]
#[verifier::external_body]
pub struct ExRegex(regex::Regex);

/// Whether `regex` accepts a pattern (syntax and default size limit).
pub uninterp spec fn regex_valid(pattern: Seq<char>) -> bool;

/// Whether the regex of a valid pattern matches somewhere in a text.
pub uninterp spec fn regex_search(pattern: Seq<char>, text: Seq<char>) -> bool;

/// A compiled title pattern together with the text it was compiled from.
/// Its fields are private: every value comes from `compile_pattern`.
pub struct TitlePattern {
    source: String,
    re: Regex,
}

impl TitlePattern {
    /// The text the pattern was compiled from.
    pub closed spec fn spec_source(&self) -> Seq<char> {
        self.source@
    }
}

/// Relies on `regex::Regex::new`: it returns `Ok` exactly for the patterns
/// that it accepts.
#[verifier::external_body]
fn compile_pattern(source: String) -> (r: Option<TitlePattern>)
    ensures
        r is Some <==> regex_valid(source@),
        r matches Some(t) ==> t.spec_source() == source@,
{
    match Regex::new(&source) {
        Ok(re) => Some(TitlePattern { source, re }),
        Err(_) => None,
    }
}

/// Relies on `regex::Regex::is_match`, on the regex that `compile_pattern`
/// built from the pattern's source.
#[verifier::external_body]
fn pattern_matches(p: &TitlePattern, text: &str) -> (r: bool)
    ensures
        r == regex_search(p.spec_source(), text@),
{
    p.re.is_match(text)
}

/// Titles matching this pattern are dropped when the caller asks for the
/// built-in exclusion (an empty anti-pattern).
pub open spec fn default_antipattern() -> Seq<char> {
    "unreleased|remix|(instrumental)"@
}

/// The pattern that an anti-pattern argument stands for: the built-in one
/// when the argument is empty.
pub open spec fn effective_antipattern(p: Seq<char>) -> Seq<char> {
    if p.len() == 0 {
        default_antipattern()
    } else {
        p
    }
}

/// The regex that a title pattern compiles to: the pattern, case-insensitive.
pub open spec fn title_regex(pattern: Seq<char>) -> Seq<char> {
    "(?i)"@ + pattern
}

/// A title is excluded by a regex that compiles and matches its lower-case
/// form. A regex that does not compile excludes nothing.
pub open spec fn title_excluded(source: Seq<char>, title: Seq<char>) -> bool {
    regex_valid(source) && regex_search(source, lower_of(title))
}

/// One named rule of the filter chain, with its parameter.
pub enum SongFilter {
    /// Drops songs without a language tag.
    UnknownLanguage,
    /// Drops songs whose lyrics are not complete.
    IncompleteLyrics,
    /// Drops songs without a release date.
    UnknownReleaseDate,
    /// Drops songs whose primary artist is another one.
    MainArtist { artist_id: u32 },
    /// Drops songs whose title matches the pattern, ignoring case.
    TitleSanitizer { pattern: String },
}

/// What a [`SongFilter`] stands for.
pub enum FilterStage {
    UnknownLanguage,
    IncompleteLyrics,
    UnknownReleaseDate,
    MainArtist(u32),
    TitleSanitizer(Seq<char>),
}

impl View for SongFilter {
    type V = FilterStage;

    open spec fn view(&self) -> FilterStage {
        match self {
            SongFilter::UnknownLanguage => FilterStage::UnknownLanguage,
            SongFilter::IncompleteLyrics => FilterStage::IncompleteLyrics,
            SongFilter::UnknownReleaseDate => FilterStage::UnknownReleaseDate,
            SongFilter::MainArtist { artist_id } => FilterStage::MainArtist(*artist_id),
            SongFilter::TitleSanitizer { pattern } => FilterStage::TitleSanitizer(pattern@),
        }
    }
}

/// Whether a song survives one rule.
pub open spec fn passes(stage: FilterStage, song: ArtistSong) -> bool {
    match stage {
        FilterStage::UnknownLanguage => song.language is Some,
        FilterStage::IncompleteLyrics => song.lyrics_state@ == "complete"@,
        FilterStage::UnknownReleaseDate => song.release_date_for_display is Some,
        FilterStage::MainArtist(id) => song.primary_artist.id == id,
        FilterStage::TitleSanitizer(p) => !title_excluded(title_regex(p), song.title@),
    }
}

/// The songs left after running the rules left to right, each on the output
/// of the one before.
pub open spec fn run_stages(stages: Seq<FilterStage>, songs: Seq<ArtistSong>) -> Seq<ArtistSong>
    decreases stages.len(),
{
    if stages.len() == 0 {
        songs
    } else {
        run_stages(stages.drop_last(), songs).filter(|s: ArtistSong| passes(stages.last(), s))
    }
}

/// Whether a song survives every rule of a chain.
pub open spec fn passes_all(stages: Seq<FilterStage>, song: ArtistSong) -> bool {
    forall|i: int| 0 <= i < stages.len() ==> passes(#[trigger] stages[i], song)
}

proof fn lemma_filter_filter(
    songs: Seq<ArtistSong>,
    p: spec_fn(ArtistSong) -> bool,
    q: spec_fn(ArtistSong) -> bool,
)
    ensures
        songs.filter(p).filter(q) == songs.filter(|s: ArtistSong| p(s) && q(s)),
    decreases songs.len(),
{
    reveal(Seq::filter);
    if songs.len() > 0 {
        lemma_filter_filter(songs.drop_last(), p, q);
        let pq = |s: ArtistSong| p(s) && q(s);
        let once = songs.filter(p);
        let rest = songs.drop_last().filter(p);
        if p(songs.last()) {
            assert(once == rest.push(songs.last()));
            assert(once.drop_last() == rest);
        } else {
            assert(once == rest);
        }
    }
}

proof fn lemma_filter_same(
    songs: Seq<ArtistSong>,
    p: spec_fn(ArtistSong) -> bool,
    q: spec_fn(ArtistSong) -> bool,
)
    requires
        forall|s: ArtistSong| #[trigger] p(s) == q(s),
    ensures
        songs.filter(p) == songs.filter(q),
    decreases songs.len(),
{
    reveal(Seq::filter);
    if songs.len() > 0 {
        lemma_filter_same(songs.drop_last(), p, q);
    }
}

/// Running a chain keeps exactly the songs that survive all its rules, in
/// their order.
pub proof fn lemma_run_stages_keeps_survivors(stages: Seq<FilterStage>, songs: Seq<ArtistSong>)
    ensures
        run_stages(stages, songs) == songs.filter(|s: ArtistSong| passes_all(stages, s)),
    decreases stages.len(),
{
    if stages.len() == 0 {
        lemma_filter_same(songs, |s: ArtistSong| passes_all(stages, s), |s: ArtistSong| true);
        lemma_filter_all(songs);
    } else {
        let init = stages.drop_last();
        lemma_run_stages_keeps_survivors(init, songs);
        let p = |s: ArtistSong| passes_all(init, s);
        let q = |s: ArtistSong| passes(stages.last(), s);
        lemma_filter_filter(songs, p, q);
        assert forall|s: ArtistSong| #[trigger] passes_all(stages, s) == (p(s) && q(s)) by {
            if p(s) && q(s) {
                assert forall|i: int| 0 <= i < stages.len() implies passes(
                    #[trigger] stages[i],
                    s,
                ) by {
                    if i < init.len() {
                        assert(init[i] == stages[i]);
                    }
                }
            }
            if passes_all(stages, s) {
                assert forall|i: int| 0 <= i < init.len() implies passes(#[trigger] init[i], s) by {
                    assert(init[i] == stages[i]);
                }
                assert(passes(stages[stages.len() - 1], s));
            }
        }
        lemma_filter_same(
            songs,
            |s: ArtistSong| p(s) && q(s),
            |s: ArtistSong| passes_all(stages, s),
        );
    }
}

proof fn lemma_filter_all(songs: Seq<ArtistSong>)
    ensures
        songs.filter(|s: ArtistSong| true) == songs,
    decreases songs.len(),
{
    reveal(Seq::filter);
    if songs.len() > 0 {
        lemma_filter_all(songs.drop_last());
    }
}

/// Running a chain on its own output changes nothing: filtering twice keeps
/// what filtering once keeps.
pub proof fn lemma_chain_idempotent(stages: Seq<FilterStage>, songs: Seq<ArtistSong>)
    ensures
        run_stages(stages, run_stages(stages, songs)) == run_stages(stages, songs),
{
    let all = |s: ArtistSong| passes_all(stages, s);
    lemma_run_stages_keeps_survivors(stages, songs);
    lemma_run_stages_keeps_survivors(stages, run_stages(stages, songs));
    lemma_filter_filter(songs, all, all);
    lemma_filter_same(songs, |s: ArtistSong| all(s) && all(s), all);
}

/// Options of the filter chain.
pub struct FilterOptions {
    /// `Some(true)` keeps songs whose primary artist is another one.
    pub include_features: Option<bool>,
    /// Drops songs whose title matches this pattern (the built-in one when
    /// empty).
    pub antipattern: Option<String>,
}

/// The chain that the options ask for, in its fixed order: language, lyrics
/// state, release date, then the primary artist unless features are
/// included, then the title pattern when an anti-pattern is given.
pub open spec fn chain_for(artist_id: u32, options: FilterOptions) -> Seq<FilterStage> {
    let base = seq![
        FilterStage::UnknownLanguage,
        FilterStage::IncompleteLyrics,
        FilterStage::UnknownReleaseDate,
    ];
    let with_artist = if options.include_features == Some(true) {
        base
    } else {
        base.push(FilterStage::MainArtist(artist_id))
    };
    match options.antipattern {
        Some(p) => with_artist.push(FilterStage::TitleSanitizer(effective_antipattern(p@))),
        None => with_artist,
    }
}

fn title_regex_string(pattern: &String) -> (r: String)
    ensures
        r@ == title_regex(pattern@),
{
    let mut source = "(?i)".to_owned();
    source.append(pattern.as_str());
    source
}

impl FilterOptions {
    /// Whether the anti-pattern, if any, compiles to a title regex.
    pub fn antipattern_compiles(&self) -> (r: bool)
        ensures
            r == match self.antipattern {
                Some(p) => regex_valid(title_regex(effective_antipattern(p@))),
                None => true,
            },
    {
        match &self.antipattern {
            Some(p) => {
                let pattern = if p.as_str().is_empty() {
                    "unreleased|remix|(instrumental)".to_owned()
                } else {
                    p.clone()
                };
                compile_pattern(title_regex_string(&pattern)).is_some()
            },
            None => true,
        }
    }
}

impl SongFilter {
    fn admits(&self, compiled: &Option<TitlePattern>, song: &ArtistSong) -> (r: bool)
        requires
            self@ matches FilterStage::TitleSanitizer(p) ==> (compiled is Some <==> regex_valid(
                title_regex(p),
            )) && (compiled matches Some(t) ==> t.spec_source() == title_regex(p)),
        ensures
            r == passes(self@, *song),
    {
        match self {
            SongFilter::UnknownLanguage => song.language.is_some(),
            SongFilter::IncompleteLyrics => {
                let complete = "complete".to_owned();
                song.lyrics_state == complete
            },
            SongFilter::UnknownReleaseDate => song.release_date_for_display.is_some(),
            SongFilter::MainArtist { artist_id } => song.primary_artist.id == *artist_id,
            SongFilter::TitleSanitizer { .. } => match compiled {
                Some(t) => {
                    let title = lowercase(song.title.as_str());
                    !pattern_matches(t, title.as_str())
                },
                None => true,
            },
        }
    }

    /// The songs that survive this rule, in their order.
    pub fn process(&self, songs: Vec<ArtistSong>) -> (r: Vec<ArtistSong>)
        ensures
            r@ == songs@.filter(|s: ArtistSong| passes(self@, s)),
    {
        let compiled = match self {
            SongFilter::TitleSanitizer { pattern } => compile_pattern(title_regex_string(pattern)),
            _ => None,
        };
        let mut kept: Vec<ArtistSong> = Vec::new();
        let mut i: usize = 0;
        while i < songs.len()
            invariant
                0 <= i <= songs@.len(),
                kept@ == songs@.take(i as int).filter(|s: ArtistSong| passes(self@, s)),
                self@ matches FilterStage::TitleSanitizer(p) ==> (compiled is Some <==> regex_valid(
                    title_regex(p),
                )) && (compiled matches Some(t) ==> t.spec_source() == title_regex(p)),
            decreases songs@.len() - i,
        {
            let song = &songs[i];
            proof {
                reveal(Seq::filter);
                assert(songs@.take(i as int + 1).drop_last() == songs@.take(i as int));
                assert(songs@.take(i as int + 1).last() == songs@[i as int]);
            }
            if self.admits(&compiled, song) {
                kept.push(song.clone());
            }
            i = i + 1;
        }
        assert(songs@.take(songs@.len() as int) == songs@);
        kept
    }
}

/// Runs the rules left to right, each on the output of the one before.
pub fn run_chain(filters: &Vec<SongFilter>, songs: Vec<ArtistSong>) -> (r: Vec<ArtistSong>)
    ensures
        r@ == run_stages(filters@.map_values(|f: SongFilter| f@), songs@),
{
    let ghost stages = filters@.map_values(|f: SongFilter| f@);
    let mut current = songs;
    let mut i: usize = 0;
    while i < filters.len()
        invariant
            0 <= i <= filters@.len(),
            stages == filters@.map_values(|f: SongFilter| f@),
            current@ == run_stages(stages.take(i as int), songs@),
        decreases filters@.len() - i,
    {
        proof {
            assert(stages.take(i as int + 1).drop_last() == stages.take(i as int));
            assert(stages.take(i as int + 1).last() == filters@[i as int]@);
        }
        current = filters[i].process(current);
        i = i + 1;
    }
    assert(stages.take(filters@.len() as int) == stages);
    current
}

/// The chain of rules that the options ask for.
pub fn filter_chain(artist_id: u32, options: &FilterOptions) -> (r: Vec<SongFilter>)
    ensures
        r@.map_values(|f: SongFilter| f@) == chain_for(artist_id, *options),
{
    let mut filters: Vec<SongFilter> = vec![
        SongFilter::UnknownLanguage,
        SongFilter::IncompleteLyrics,
        SongFilter::UnknownReleaseDate,
        SongFilter::MainArtist { artist_id },
    ];
    if let Some(feat) = options.include_features {
        if feat {
            filters.pop();
        }
    }
    if let Some(antipattern) = &options.antipattern {
        let pattern = if antipattern.as_str().is_empty() {
            "unreleased|remix|(instrumental)".to_owned()
        } else {
            antipattern.clone()
        };
        filters.push(SongFilter::TitleSanitizer { pattern });
    }
    assert(filters@.map_values(|f: SongFilter| f@) =~= chain_for(artist_id, *options));
    filters
}

/// Narrows an artist's songs through the filter chain that the options ask
/// for, keeping the order of the songs that survive.
pub fn apply(artist_id: u32, artist_songs: Vec<ArtistSong>, options: FilterOptions) -> (r: Vec<
    ArtistSong,
>)
    ensures
        r@ == run_stages(chain_for(artist_id, options), artist_songs@),
{
    let filters = filter_chain(artist_id, &options);
    run_chain(&filters, artist_songs)
}

/// The full chain: language, lyrics state, release date, the searched artist,
/// and the built-in title exclusion.
pub open spec fn full_chain(artist_id: u32) -> Seq<FilterStage> {
    seq![
        FilterStage::UnknownLanguage,
        FilterStage::IncompleteLyrics,
        FilterStage::UnknownReleaseDate,
        FilterStage::MainArtist(artist_id),
        FilterStage::TitleSanitizer(default_antipattern()),
    ]
}

/// Narrows an artist's songs through the full chain.
pub fn process_artist_songs(artist_id: u32, artist_songs: Vec<ArtistSong>) -> (r: Vec<ArtistSong>)
    ensures
        r@ == run_stages(full_chain(artist_id), artist_songs@),
{
    let filters: Vec<SongFilter> = vec![
        SongFilter::UnknownLanguage,
        SongFilter::IncompleteLyrics,
        SongFilter::UnknownReleaseDate,
        SongFilter::MainArtist { artist_id },
        SongFilter::TitleSanitizer { pattern: "unreleased|remix|(instrumental)".to_owned() },
    ];
    assert(filters@.map_values(|f: SongFilter| f@) =~= full_chain(artist_id));
    run_chain(&filters, artist_songs)
}

} // verus!
