//! Scheduling the lyrics fetches of a batch of songs under a cap on the
//! number of fetches in flight, and gathering their outcomes by song id.
//!
//! The caller performs the fetches: it asks [`EnrichmentScheduler::next_job`]
//! for work while a slot is free, and hands each outcome back through
//! [`EnrichmentScheduler::record`]. A failed fetch counts as done, with empty
//! lyrics.
use crate::harvest::ids_unique;
use crate::song::ArtistSong;
use std::collections::HashMap;
use vstd::prelude::*;

verus! {

broadcast use vstd::std_specs::hash::group_hash_axioms;

/// The default cap on fetches in flight.
pub const MAX_PERMITS: usize = 50;

/// A fetch handed out: the song's position in the batch, its id, and the page
/// that holds its lyrics.
pub struct FetchJob {
    pub index: usize,
    pub id: u32,
    pub url: String,
}

/// The lyrics that a fetch outcome stands for: the fetched text, or nothing
/// when the fetch failed.
pub open spec fn lyrics_of(fetched: Option<String>) -> Seq<char> {
    match fetched {
        Some(t) => t@,
        None => Seq::empty(),
    }
}

/// The map from song id to lyrics built by inserting the pairs in order.
pub open spec fn lyrics_map(ids: Seq<u32>, texts: Seq<String>) -> Map<u32, String>
    decreases ids.len(),
{
    if ids.len() == 0 || texts.len() == 0 {
        Map::empty()
    } else {
        lyrics_map(ids.drop_last(), texts.drop_last()).insert(ids.last(), texts.last())
    }
}

/// With distinct ids, the map holds exactly one entry per song, each with
/// that song's lyrics, whatever the lyrics are (empty ones included).
pub proof fn lemma_lyrics_map_complete(ids: Seq<u32>, texts: Seq<String>)
    requires
        ids.no_duplicates(),
        ids.len() == texts.len(),
    ensures
        lyrics_map(ids, texts).dom() == ids.to_set(),
        lyrics_map(ids, texts).len() == ids.len(),
        forall|k: int| 0 <= k < ids.len() ==> #[trigger] lyrics_map(ids, texts)[ids[k]] == texts[k],
    decreases ids.len(),
{
    if ids.len() > 0 {
        let (i0, t0) = (ids.drop_last(), texts.drop_last());
        assert(i0.no_duplicates()) by {
            assert forall|a: int, b: int| 0 <= a < i0.len() && 0 <= b < i0.len() && a != b implies
                i0[a] != i0[b] by {
                assert(i0[a] == ids[a] && i0[b] == ids[b]);
            }
        }
        lemma_lyrics_map_complete(i0, t0);
        let m0 = lyrics_map(i0, t0);
        let last = ids.last();
        assert(!i0.contains(last)) by {
            if i0.contains(last) {
                let j = choose|j: int| 0 <= j < i0.len() && i0[j] == last;
                assert(ids[j] == ids[ids.len() - 1]);
            }
        }
        assert(!m0.dom().contains(last));
        assert(ids == i0.push(last));
        assert(ids.to_set() == i0.to_set().insert(last)) by {
            i0.lemma_push_to_set_commute(last);
        }
        assert forall|k: int| 0 <= k < ids.len() implies #[trigger] lyrics_map(ids, texts)[ids[k]]
            == texts[k] by {
            if k < ids.len() - 1 {
                assert(ids[k] == i0[k]);
                assert(ids[k] != last);
            }
        }
    }
}

/// A batch of songs with distinct ids (as a harvest gives them) ends in a
/// map with exactly one entry per song, whatever lyrics each fetch produced.
pub proof fn lemma_enrichment_complete(songs: Seq<ArtistSong>, texts: Seq<String>)
    requires
        ids_unique(songs),
        texts.len() == songs.len(),
    ensures
        songs.map_values(|s: ArtistSong| s.id).no_duplicates(),
        lyrics_map(songs.map_values(|s: ArtistSong| s.id), texts).len() == songs.len(),
        forall|k: int|
            0 <= k < songs.len() ==> lyrics_map(songs.map_values(|s: ArtistSong| s.id), texts).contains_key(
                #[trigger] songs[k].id,
            ),
{
    let ids = songs.map_values(|s: ArtistSong| s.id);
    assert forall|a: int, b: int| 0 <= a < ids.len() && 0 <= b < ids.len() && a != b implies ids[a]
        != ids[b] by {
        if a < b {
            assert(songs[a].id != songs[b].id);
        } else {
            assert(songs[b].id != songs[a].id);
        }
    }
    lemma_lyrics_map_complete(ids, texts);
    assert forall|k: int| 0 <= k < songs.len() implies lyrics_map(ids, texts).contains_key(
        #[trigger] songs[k].id,
    ) by {
        assert(ids[k] == songs[k].id);
        assert(ids.to_set().contains(ids[k]));
    }
}

/// A scheduler in its invariant never has more fetches in flight than its
/// cap.
pub proof fn lemma_in_flight_within_cap(s: EnrichmentScheduler)
    requires
        s.wf(),
    ensures
        s.spec_in_flight() <= s.spec_cap(),
{
}

/// The state of a batch: which songs have been handed out, which fetches are
/// in flight, and the lyrics recorded so far.
pub struct EnrichmentScheduler {
    ids: Vec<u32>,
    urls: Vec<String>,
    cap: usize,
    next: usize,
    in_flight: usize,
    texts: Vec<Option<String>>,
    pending: Ghost<Set<int>>,
}

impl EnrichmentScheduler {
    /// The ids of the songs of the batch, in batch order.
    pub closed spec fn spec_ids(&self) -> Seq<u32> {
        self.ids@
    }

    /// The page of each song's lyrics, in batch order.
    pub closed spec fn spec_urls(&self) -> Seq<String> {
        self.urls@
    }

    /// The cap on fetches in flight.
    pub closed spec fn spec_cap(&self) -> nat {
        self.cap as nat
    }

    /// How many songs have been handed out: those before this position.
    pub closed spec fn spec_dispatched(&self) -> nat {
        self.next as nat
    }

    /// The positions handed out whose outcome has not come back.
    pub closed spec fn spec_pending(&self) -> Set<int> {
        self.pending@
    }

    /// The lyrics recorded at each position, `None` until its outcome comes.
    pub closed spec fn spec_texts(&self) -> Seq<Option<String>> {
        self.texts@
    }

    /// Number of fetches in flight.
    pub closed spec fn spec_in_flight(&self) -> nat {
        self.in_flight as nat
    }

    /// The scheduler's invariant: every position has an outcome once it is
    /// handed out and its fetch came back, and never before; the fetches in
    /// flight are the positions handed out without an outcome, and there are
    /// never more of them than the cap.
    pub open spec fn wf(&self) -> bool {
        let n = self.spec_ids().len();
        &&& self.spec_urls().len() == n
        &&& self.spec_texts().len() == n
        &&& self.spec_cap() >= 1
        &&& self.spec_dispatched() <= n
        &&& self.spec_pending().finite()
        &&& self.spec_pending().len() == self.spec_in_flight()
        &&& self.spec_in_flight() <= self.spec_cap()
        &&& self.spec_in_flight() <= self.spec_dispatched()
        &&& forall|k: int|
            #![trigger self.spec_pending().contains(k)]
            self.spec_pending().contains(k) <==> (0 <= k < self.spec_dispatched()
                && self.spec_texts()[k] is None)
        &&& forall|k: int|
            #![trigger self.spec_texts()[k]]
            self.spec_dispatched() <= k < n ==> self.spec_texts()[k] is None
    }

    /// Every song has an outcome.
    pub open spec fn spec_finished(&self) -> bool {
        &&& self.spec_dispatched() == self.spec_ids().len()
        &&& self.spec_in_flight() == 0
    }

    /// Number of songs whose outcome has come back.
    pub open spec fn spec_completed(&self) -> nat {
        (self.spec_dispatched() - self.spec_in_flight()) as nat
    }

    /// A batch of these songs with nothing handed out yet, at most
    /// `max_in_flight` fetches in flight at once.
    pub fn new(songs: &Vec<ArtistSong>, max_in_flight: usize) -> (r: EnrichmentScheduler)
        requires
            max_in_flight >= 1,
        ensures
            r.wf(),
            r.spec_ids() == songs@.map_values(|s: ArtistSong| s.id),
            r.spec_urls() == songs@.map_values(|s: ArtistSong| s.url),
            r.spec_cap() == max_in_flight,
            r.spec_dispatched() == 0,
            r.spec_in_flight() == 0,
    {
        let mut ids: Vec<u32> = Vec::new();
        let mut urls: Vec<String> = Vec::new();
        let mut texts: Vec<Option<String>> = Vec::new();
        let mut i: usize = 0;
        while i < songs.len()
            invariant
                0 <= i <= songs@.len(),
                ids@ == songs@.take(i as int).map_values(|s: ArtistSong| s.id),
                urls@ == songs@.take(i as int).map_values(|s: ArtistSong| s.url),
                texts@.len() == i,
                forall|k: int| 0 <= k < i ==> #[trigger] texts@[k] is None,
            decreases songs@.len() - i,
        {
            ids.push(songs[i].id);
            urls.push(songs[i].url.clone());
            texts.push(None);
            assert(songs@.take(i as int + 1) == songs@.take(i as int).push(songs@[i as int]));
            i = i + 1;
        }
        assert(songs@.take(songs@.len() as int) == songs@);
        EnrichmentScheduler {
            ids,
            urls,
            cap: max_in_flight,
            next: 0,
            in_flight: 0,
            texts,
            pending: Ghost(Set::empty()),
        }
    }

    /// Hands out the next song when one is left and a slot is free.
    pub fn next_job(&mut self) -> (r: Option<FetchJob>)
        requires
            old(self).wf(),
        ensures
            final(self).wf(),
            final(self).spec_ids() == old(self).spec_ids(),
            final(self).spec_urls() == old(self).spec_urls(),
            final(self).spec_cap() == old(self).spec_cap(),
            final(self).spec_texts() == old(self).spec_texts(),
            ({
                let k = old(self).spec_dispatched();
                if k < old(self).spec_ids().len() && old(self).spec_in_flight() < old(
                    self,
                ).spec_cap() {
                    &&& r matches Some(job) && job.index == k && job.id == old(self).spec_ids()[k as int]
                        && job.url == old(self).spec_urls()[k as int]
                    &&& final(self).spec_dispatched() == k + 1
                    &&& final(self).spec_in_flight() == old(self).spec_in_flight() + 1
                    &&& final(self).spec_pending() == old(self).spec_pending().insert(k as int)
                } else {
                    &&& r is None
                    &&& final(self).spec_dispatched() == k
                    &&& final(self).spec_in_flight() == old(self).spec_in_flight()
                    &&& final(self).spec_pending() == old(self).spec_pending()
                }
            }),
    {
        if self.next < self.ids.len() && self.in_flight < self.cap {
            let k = self.next;
            let job = FetchJob { index: k, id: self.ids[k], url: self.urls[k].clone() };
            proof {
                assert(!self.pending@.contains(k as int));
                self.pending@ = self.pending@.insert(k as int);
            }
            self.next = k + 1;
            self.in_flight = self.in_flight + 1;
            Some(job)
        } else {
            None
        }
    }

    /// Records the outcome of the fetch at position `index`: the fetched
    /// lyrics, or `None` when the fetch failed, which records empty lyrics.
    /// An index that is not in flight changes nothing and is refused.
    pub fn record(&mut self, index: usize, fetched: Option<String>) -> (accepted: bool)
        requires
            old(self).wf(),
        ensures
            final(self).wf(),
            final(self).spec_ids() == old(self).spec_ids(),
            final(self).spec_urls() == old(self).spec_urls(),
            final(self).spec_cap() == old(self).spec_cap(),
            final(self).spec_dispatched() == old(self).spec_dispatched(),
            accepted == old(self).spec_pending().contains(index as int),
            accepted ==> {
                &&& final(self).spec_texts() == old(self).spec_texts().update(
                    index as int,
                    Some(final(self).spec_texts()[index as int]->0),
                )
                &&& final(self).spec_texts()[index as int]->0@ == lyrics_of(fetched)
                &&& final(self).spec_in_flight() + 1 == old(self).spec_in_flight()
                &&& final(self).spec_pending() == old(self).spec_pending().remove(index as int)
            },
            !accepted ==> {
                &&& final(self).spec_texts() == old(self).spec_texts()
                &&& final(self).spec_in_flight() == old(self).spec_in_flight()
                &&& final(self).spec_pending() == old(self).spec_pending()
            },
    {
        if index < self.next && self.texts[index].is_none() {
            let text = match fetched {
                Some(t) => t,
                None => String::new(),
            };
            proof {
                assert(self.pending@.contains(index as int));
                self.pending@ = self.pending@.remove(index as int);
            }
            self.texts.set(index, Some(text));
            self.in_flight = self.in_flight - 1;
            true
        } else {
            false
        }
    }

    /// Whether every song has an outcome.
    pub fn is_finished(&self) -> (r: bool)
        requires
            self.wf(),
        ensures
            r == self.spec_finished(),
    {
        self.next == self.ids.len() && self.in_flight == 0
    }

    /// Number of fetches in flight.
    pub fn in_flight(&self) -> (r: usize)
        ensures
            r == self.spec_in_flight(),
    {
        self.in_flight
    }

    /// Number of songs whose outcome has come back; it only grows.
    pub fn completed(&self) -> (r: usize)
        requires
            self.wf(),
        ensures
            r == self.spec_completed(),
    {
        self.next - self.in_flight
    }

    /// Number of songs in the batch.
    pub fn len(&self) -> (r: usize)
        ensures
            r == self.spec_ids().len(),
    {
        self.ids.len()
    }

    /// The lyrics recorded for the batch, one entry per song id; the batch
    /// must be finished. With distinct ids there is exactly one entry per
    /// song, failed fetches included (with empty lyrics).
    pub fn finish(self) -> (m: HashMap<u32, String>)
        requires
            self.wf(),
            self.spec_finished(),
        ensures
            forall|k: int|
                0 <= k < self.spec_ids().len() ==> #[trigger] self.spec_texts()[k] is Some,
            m@ == lyrics_map(self.spec_ids(), self.spec_texts().map_values(|o: Option<String>| o->0)),
            self.spec_ids().no_duplicates() ==> {
                &&& m@.dom() == self.spec_ids().to_set()
                &&& m@.len() == self.spec_ids().len()
                &&& forall|k: int|
                    0 <= k < self.spec_ids().len() ==> #[trigger] m@[self.spec_ids()[k]]
                        == self.spec_texts()[k]->0
            },
    {
        proof {
            assert forall|k: int| 0 <= k < self.spec_ids().len() implies #[trigger] self.spec_texts()[k] is Some by {
                if self.texts@[k] is None {
                    assert(self.pending@.contains(k));
                    assert(self.pending@.len() > 0);
                }
            }
        }
        let ghost texts = self.texts@.map_values(|o: Option<String>| o->0);
        let mut m: HashMap<u32, String> = HashMap::new();
        let mut i: usize = 0;
        while i < self.ids.len()
            invariant
                0 <= i <= self.ids@.len(),
                self.texts@.len() == self.ids@.len(),
                texts == self.texts@.map_values(|o: Option<String>| o->0),
                forall|k: int| 0 <= k < self.ids@.len() ==> #[trigger] self.texts@[k] is Some,
                m@ == lyrics_map(self.ids@.take(i as int), texts.take(i as int)),
            decreases self.ids@.len() - i,
        {
            let text = match &self.texts[i] {
                Some(t) => t.clone(),
                None => String::new(),
            };
            proof {
                assert(self.ids@.take(i as int + 1).drop_last() == self.ids@.take(i as int));
                assert(texts.take(i as int + 1).drop_last() == texts.take(i as int));
            }
            m.insert(self.ids[i], text);
            i = i + 1;
        }
        proof {
            assert(self.ids@.take(self.ids@.len() as int) == self.ids@);
            assert(texts.take(self.ids@.len() as int) == texts);
            if self.ids@.no_duplicates() {
                lemma_lyrics_map_complete(self.ids@, texts);
            }
        }
        m
    }
}

} // verus!
