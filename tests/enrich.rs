use lyri::enrich::{EnrichmentScheduler, MAX_PERMITS};
use lyri::song::{ArtistSong, PrimaryArtist};

fn song(id: u32) -> ArtistSong {
    ArtistSong {
        annotation_count: None,
        api_path: format!("/songs/{}", id),
        artist_names: String::from("Artist"),
        full_title: format!("Song {}", id),
        header_image_thumbnail_url: String::new(),
        header_image_url: String::new(),
        id,
        language: Some(String::from("en")),
        lyrics_owner_id: None,
        lyrics_state: String::from("complete"),
        path: format!("/song-{}-lyrics", id),
        primary_artist: PrimaryArtist { id: 1, name: String::from("Artist") },
        pyongs_count: None,
        relationships_index_url: String::new(),
        release_date_for_display: None,
        song_art_image_thumbnail_url: String::new(),
        song_art_image_url: String::new(),
        title_with_featured: format!("Song {}", id),
        title: format!("Song {}", id),
        url: format!("https://example.com/song-{}-lyrics", id),
    }
}

#[test]
fn one_failed_fetch_gives_empty_lyrics() {
    let songs = vec![song(10), song(20), song(30)];
    let mut s = EnrichmentScheduler::new(&songs, MAX_PERMITS);
    let mut jobs = Vec::new();
    while let Some(job) = s.next_job() {
        jobs.push(job);
    }
    assert_eq!(jobs.len(), 3);
    assert_eq!(jobs[1].id, 20);
    assert_eq!(jobs[1].url, "https://example.com/song-20-lyrics");
    // outcomes come back out of order
    assert!(s.record(jobs[2].index, Some(String::from("third"))));
    assert!(s.record(jobs[1].index, None));
    assert!(!s.is_finished());
    assert!(s.record(jobs[0].index, Some(String::from("first"))));
    assert!(s.is_finished());
    let map = s.finish();
    assert_eq!(map.len(), 3);
    assert_eq!(map[&10], "first");
    assert_eq!(map[&20], "");
    assert_eq!(map[&30], "third");
}

#[test]
fn in_flight_never_exceeds_cap() {
    let songs: Vec<ArtistSong> = (1..=7u32).map(song).collect();
    let mut s = EnrichmentScheduler::new(&songs, 2);
    let mut in_flight = Vec::new();
    let mut most = 0usize;
    let mut round = 0usize;
    while !s.is_finished() {
        while let Some(job) = s.next_job() {
            in_flight.push(job.index);
            most = most.max(s.in_flight());
            assert_eq!(s.in_flight(), in_flight.len());
        }
        assert!(s.in_flight() <= 2);
        let done = in_flight.remove(0);
        let outcome = if round % 2 == 0 { Some(format!("lyrics {}", done)) } else { None };
        assert!(s.record(done, outcome));
        round += 1;
    }
    assert_eq!(most, 2);
    assert_eq!(s.completed(), 7);
    assert_eq!(s.finish().len(), 7);
}

#[test]
fn every_song_has_an_entry_when_all_fail() {
    let songs: Vec<ArtistSong> = (100..160u32).map(song).collect();
    let mut s = EnrichmentScheduler::new(&songs, MAX_PERMITS);
    let mut done = 0usize;
    while !s.is_finished() {
        let mut batch = Vec::new();
        while let Some(job) = s.next_job() {
            batch.push(job.index);
        }
        assert!(batch.len() <= MAX_PERMITS);
        for index in batch {
            assert!(s.record(index, None));
            done += 1;
            assert_eq!(s.completed(), done);
        }
    }
    let map = s.finish();
    assert_eq!(map.len(), 60);
    for id in 100..160u32 {
        assert_eq!(map.get(&id).map(|t| t.as_str()), Some(""));
    }
}

#[test]
fn stray_or_repeated_outcomes_are_refused() {
    let songs = vec![song(1), song(2)];
    let mut s = EnrichmentScheduler::new(&songs, 1);
    assert!(!s.record(0, Some(String::from("early"))));
    let job = s.next_job().unwrap();
    assert!(s.next_job().is_none());
    assert!(!s.record(1, Some(String::from("not handed out"))));
    assert!(s.record(job.index, Some(String::from("one"))));
    assert!(!s.record(job.index, Some(String::from("again"))));
    assert_eq!(s.completed(), 1);
    let job = s.next_job().unwrap();
    assert_eq!(job.index, 1);
    assert!(s.record(job.index, Some(String::from("two"))));
    let map = s.finish();
    assert_eq!(map[&1], "one");
    assert_eq!(map[&2], "two");
}

#[test]
fn empty_batch_is_finished_at_once() {
    let mut s = EnrichmentScheduler::new(&Vec::new(), MAX_PERMITS);
    assert_eq!(s.len(), 0);
    assert!(s.is_finished());
    assert!(s.next_job().is_none());
    assert!(s.finish().is_empty());
}
