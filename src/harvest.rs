//! Walking the paginated song listing of one artist.
//!
//! The listing is fetched one page at a time by the caller; [`Harvester`]
//! decides, after each page, whether to ask for the next one, to stop with
//! the songs gathered so far, or to fail.
use crate::song::ArtistSong;
use vstd::prelude::*;

verus! {

/// Number of songs asked for on each page: the largest the catalog allows.
pub const PER_PAGE: u64 = 50;

/// Order in which the catalog lists an artist's songs.
pub enum SongsSort {
    Popularity,
    Title,
}

impl SongsSort {
    /// The value of the listing's `sort` parameter for this order.
    pub fn as_param(&self) -> (r: &'static str)
        ensures
            r@ == sort_param(*self),
    {
        match self {
            SongsSort::Popularity => "popularity",
            SongsSort::Title => "title",
        }
    }
}

/// The value of the listing's `sort` parameter for an order.
pub open spec fn sort_param(s: SongsSort) -> Seq<char> {
    match s {
        SongsSort::Popularity => "popularity"@,
        SongsSort::Title => "title"@,
    }
}

/// The order that a `sort` argument names, if any.
pub open spec fn sort_named(s: Seq<char>) -> Option<SongsSort> {
    if s == "popularity"@ {
        Some(SongsSort::Popularity)
    } else if s == "title"@ {
        Some(SongsSort::Title)
    } else {
        None
    }
}

/// Options of a listing request.
pub struct ArtistSongsOptions {
    pub sort: Option<SongsSort>,
}

/// Reads a `sort` argument: "popularity" and "title" name an order, anything
/// else (or nothing) leaves the catalog's default.
pub fn to_songs_sort_type(sort: Option<String>) -> (r: Option<SongsSort>)
    ensures
        r == match sort {
            Some(s) => sort_named(s@),
            None => None,
        },
{
    match sort {
        Some(s) => {
            let popularity = "popularity".to_owned();
            let title = "title".to_owned();
            if s == popularity {
                Some(SongsSort::Popularity)
            } else if s == title {
                Some(SongsSort::Title)
            } else {
                None
            }
        },
        None => None,
    }
}


/// No two songs of the sequence share an id.
pub open spec fn ids_unique(s: Seq<ArtistSong>) -> bool {
    forall|i: int, j: int| 0 <= i < j < s.len() ==> s[i].id != s[j].id
}

/// Some song of the sequence has this id.
pub open spec fn has_id(s: Seq<ArtistSong>, id: u32) -> bool {
    exists|i: int| 0 <= i < s.len() && s[i].id == id
}

/// The songs gathered so far followed by those of a new page whose id has not
/// been seen yet, in page order.
pub open spec fn merge_page(acc: Seq<ArtistSong>, page: Seq<ArtistSong>) -> Seq<ArtistSong>
    decreases page.len(),
{
    if page.len() == 0 {
        acc
    } else {
        let before = merge_page(acc, page.drop_last());
        if has_id(before, page.last().id) {
            before
        } else {
            before.push(page.last())
        }
    }
}

/// What the caller saw when it asked for a page of the listing.
pub enum PageOutcome {
    /// The response listed these songs, possibly none.
    Songs(Vec<ArtistSong>),
    /// The response carried no song list at all.
    Missing,
    /// The request failed at the transport or HTTP level.
    Failed,
}

/// Why a harvest failed.
#[derive(Debug)]
pub enum HarvestError {
    /// The first page carried no song list.
    MissingSongs,
    /// The first page could not be fetched.
    Transport,
}

/// What to do after a page.
pub enum HarvestStep {
    /// Ask for the page that the harvester now names.
    Next(Harvester),
    /// Stop: these are the artist's songs.
    Done(Vec<ArtistSong>),
    /// Stop: the harvest failed.
    Fail(HarvestError),
}

/// The state of a harvest: the page to ask for next and the songs gathered
/// from the pages before it.
pub struct Harvester {
    page: u64,
    songs: Vec<ArtistSong>,
}

impl Harvester {
    /// The page index that the next request asks for.
    pub closed spec fn spec_page(&self) -> u64 {
        self.page
    }

    /// The songs gathered so far, in harvest order.
    pub closed spec fn harvested(&self) -> Seq<ArtistSong> {
        self.songs@
    }

    /// Page indices start at 1 and no song is gathered twice.
    pub open spec fn wf(&self) -> bool {
        &&& self.spec_page() >= 1
        &&& ids_unique(self.harvested())
    }

    /// A harvest that asks for the first page.
    pub fn new() -> (r: Harvester)
        ensures
            r.wf(),
            r.spec_page() == 1,
            r.harvested() == Seq::<ArtistSong>::empty(),
    {
        Harvester { page: 1, songs: Vec::new() }
    }

    /// The page index that the next request asks for.
    pub fn page(&self) -> (r: u64)
        ensures
            r == self.spec_page(),
    {
        self.page
    }

    /// Number of songs gathered so far.
    pub fn len(&self) -> (r: usize)
        ensures
            r == self.harvested().len(),
    {
        self.songs.len()
    }

    fn holds_id(&self, id: u32) -> (r: bool)
        ensures
            r == has_id(self.harvested(), id),
    {
        let mut i: usize = 0;
        while i < self.songs.len()
            invariant
                0 <= i <= self.songs@.len(),
                forall|k: int| 0 <= k < i ==> self.songs@[k].id != id,
            decreases self.songs@.len() - i,
        {
            if self.songs[i].id == id {
                return true;
            }
            i = i + 1;
        }
        false
    }

    /// Adds the songs of a page that are not held yet, in page order.
    fn absorb(&mut self, page: &Vec<ArtistSong>)
        requires
            ids_unique(old(self).harvested()),
        ensures
            ids_unique(final(self).harvested()),
            final(self).harvested() == merge_page(old(self).harvested(), page@),
            final(self).spec_page() == old(self).spec_page(),
    {
        let ghost start = self.songs@;
        let mut i: usize = 0;
        while i < page.len()
            invariant
                0 <= i <= page@.len(),
                ids_unique(self.songs@),
                self.songs@ == merge_page(start, page@.take(i as int)),
                self.page == old(self).page,
            decreases page@.len() - i,
        {
            let song = &page[i];
            assert(page@.take(i as int + 1).drop_last() == page@.take(i as int));
            if !self.holds_id(song.id) {
                let c = song.clone();
                proof {
                    assert forall|a: int, b: int| 0 <= a < b < self.songs@.len() + 1 implies
                        self.songs@.push(c)[a].id != self.songs@.push(c)[b].id by {
                        if b == self.songs@.len() {
                            assert(!has_id(self.songs@, c.id));
                            assert(self.songs@[a].id != c.id);
                        }
                    }
                }
                self.songs.push(c);
            }
            i = i + 1;
        }
        assert(page@.take(page@.len() as int) == page@);
    }

    /// Decides what follows a page.
    ///
    /// A page that lists songs adds those not held yet and moves on to the
    /// next page index; a page that lists none ends the harvest with the songs
    /// gathered. A page without a song list, or a failed request, ends it with
    /// the songs gathered when there are some, and fails it otherwise. Once
    /// the largest page index has been read, the harvest ends there.
    pub fn step(self, outcome: PageOutcome) -> (r: HarvestStep)
        requires
            self.wf(),
        ensures
            match r {
                HarvestStep::Next(h) => h.wf(),
                HarvestStep::Done(v) => ids_unique(v@),
                HarvestStep::Fail(_) => true,
            },
            match outcome {
                PageOutcome::Songs(p) => if p@.len() == 0 {
                    r matches HarvestStep::Done(v) && v@ == self.harvested()
                } else if self.spec_page() == u64::MAX {
                    r matches HarvestStep::Done(v) && v@ == merge_page(self.harvested(), p@)
                } else {
                    r matches HarvestStep::Next(h) && h.spec_page() == self.spec_page() + 1
                        && h.harvested() == merge_page(self.harvested(), p@)
                },
                PageOutcome::Missing => if self.harvested().len() > 0 {
                    r matches HarvestStep::Done(v) && v@ == self.harvested()
                } else {
                    r == HarvestStep::Fail(HarvestError::MissingSongs)
                },
                PageOutcome::Failed => if self.harvested().len() > 0 {
                    r matches HarvestStep::Done(v) && v@ == self.harvested()
                } else {
                    r == HarvestStep::Fail(HarvestError::Transport)
                },
            },
    {
        let mut h = self;
        match outcome {
            PageOutcome::Songs(p) => {
                if p.len() == 0 {
                    HarvestStep::Done(h.songs)
                } else {
                    h.absorb(&p);
                    if h.page == u64::MAX {
                        HarvestStep::Done(h.songs)
                    } else {
                        h.page = h.page + 1;
                        HarvestStep::Next(h)
                    }
                }
            },
            PageOutcome::Missing => {
                if h.songs.len() > 0 {
                    HarvestStep::Done(h.songs)
                } else {
                    HarvestStep::Fail(HarvestError::MissingSongs)
                }
            },
            PageOutcome::Failed => {
                if h.songs.len() > 0 {
                    HarvestStep::Done(h.songs)
                } else {
                    HarvestStep::Fail(HarvestError::Transport)
                }
            },
        }
    }
}

} // verus!
