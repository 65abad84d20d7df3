use lyri::harvest::{
    to_songs_sort_type, HarvestError, HarvestStep, Harvester, PageOutcome, SongsSort, PER_PAGE,
};
use lyri::song::{ArtistSong, PrimaryArtist};

fn song(id: u32) -> ArtistSong {
    ArtistSong {
        annotation_count: None,
        api_path: format!("/songs/{}", id),
        artist_names: String::from("Artist"),
        full_title: format!("Song {} by Artist", id),
        header_image_thumbnail_url: String::new(),
        header_image_url: String::new(),
        id,
        language: Some(String::from("en")),
        lyrics_owner_id: None,
        lyrics_state: String::from("complete"),
        path: format!("/song-{}-lyrics", id),
        primary_artist: PrimaryArtist { id: 1, name: String::from("Artist") },
        pyongs_count: None,
        relationships_index_url: String::new(),
        release_date_for_display: Some(String::from("May 1, 2020")),
        song_art_image_thumbnail_url: String::new(),
        song_art_image_url: String::new(),
        title_with_featured: format!("Song {}", id),
        title: format!("Song {}", id),
        url: format!("https://example.com/song-{}-lyrics", id),
    }
}

fn page(ids: &[u32]) -> Vec<ArtistSong> {
    ids.iter().map(|&i| song(i)).collect()
}

/// Feeds the outcomes in turn; returns the last step and how many pages were
/// asked for.
fn run(outcomes: Vec<PageOutcome>) -> (HarvestStep, usize, Vec<u64>) {
    let mut h = Harvester::new();
    let mut requests = 0usize;
    let mut pages = Vec::new();
    for outcome in outcomes {
        requests += 1;
        pages.push(h.page());
        match h.step(outcome) {
            HarvestStep::Next(next) => h = next,
            other => return (other, requests, pages),
        }
    }
    panic!("the harvest asked for more pages than were given");
}

fn ids(songs: &[ArtistSong]) -> Vec<u32> {
    songs.iter().map(|s| s.id).collect()
}

#[test]
fn three_pages_then_empty() {
    let (step, requests, pages) = run(vec![
        PageOutcome::Songs(page(&[1, 2, 3])),
        PageOutcome::Songs(page(&[4, 5])),
        PageOutcome::Songs(Vec::new()),
    ]);
    assert_eq!(requests, 3);
    assert_eq!(pages, vec![1, 2, 3]);
    match step {
        HarvestStep::Done(songs) => assert_eq!(ids(&songs), vec![1, 2, 3, 4, 5]),
        _ => panic!("expected the harvest to end with songs"),
    }
}

#[test]
fn transport_error_on_first_page_fails() {
    let (step, requests, _) = run(vec![PageOutcome::Failed]);
    assert_eq!(requests, 1);
    assert!(matches!(step, HarvestStep::Fail(HarvestError::Transport)));
}

#[test]
fn transport_error_after_songs_returns_them() {
    let (step, requests, _) =
        run(vec![PageOutcome::Songs(page(&[1, 2, 3, 4, 5])), PageOutcome::Failed]);
    assert_eq!(requests, 2);
    match step {
        HarvestStep::Done(songs) => assert_eq!(ids(&songs), vec![1, 2, 3, 4, 5]),
        _ => panic!("expected the partial harvest to succeed"),
    }
}

#[test]
fn missing_list_on_first_page_fails() {
    let (step, _, _) = run(vec![PageOutcome::Missing]);
    assert!(matches!(step, HarvestStep::Fail(HarvestError::MissingSongs)));
}

#[test]
fn missing_list_after_songs_returns_them() {
    let (step, requests, _) = run(vec![
        PageOutcome::Songs(page(&[7, 8])),
        PageOutcome::Songs(page(&[9])),
        PageOutcome::Missing,
    ]);
    assert_eq!(requests, 3);
    match step {
        HarvestStep::Done(songs) => assert_eq!(ids(&songs), vec![7, 8, 9]),
        _ => panic!("expected the harvest to end with songs"),
    }
}

#[test]
fn empty_first_page_gives_empty_harvest() {
    let (step, requests, _) = run(vec![PageOutcome::Songs(Vec::new())]);
    assert_eq!(requests, 1);
    match step {
        HarvestStep::Done(songs) => assert!(songs.is_empty()),
        _ => panic!("an empty first page ends the harvest successfully"),
    }
}

#[test]
fn repeated_songs_are_kept_once() {
    let (step, _, _) = run(vec![
        PageOutcome::Songs(page(&[1, 2, 3])),
        PageOutcome::Songs(page(&[3, 4, 4, 1])),
        PageOutcome::Songs(page(&[5])),
        PageOutcome::Songs(Vec::new()),
    ]);
    match step {
        HarvestStep::Done(songs) => {
            assert_eq!(ids(&songs), vec![1, 2, 3, 4, 5]);
            let mut seen = ids(&songs);
            seen.sort();
            seen.dedup();
            assert_eq!(seen.len(), songs.len());
        }
        _ => panic!("expected the harvest to end with songs"),
    }
}

#[test]
fn harvester_counts_gathered_songs() {
    let h = Harvester::new();
    assert_eq!(h.page(), 1);
    assert_eq!(h.len(), 0);
    match h.step(PageOutcome::Songs(page(&[1, 2]))) {
        HarvestStep::Next(next) => {
            assert_eq!(next.page(), 2);
            assert_eq!(next.len(), 2);
        }
        _ => panic!("a non-empty page moves on"),
    }
}

#[test]
fn sort_arguments() {
    assert!(matches!(
        to_songs_sort_type(Some(String::from("popularity"))),
        Some(SongsSort::Popularity)
    ));
    assert!(matches!(to_songs_sort_type(Some(String::from("title"))), Some(SongsSort::Title)));
    assert!(to_songs_sort_type(Some(String::from("Title"))).is_none());
    assert!(to_songs_sort_type(Some(String::new())).is_none());
    assert!(to_songs_sort_type(None).is_none());
    assert_eq!(SongsSort::Popularity.as_param(), "popularity");
    assert_eq!(SongsSort::Title.as_param(), "title");
    assert_eq!(PER_PAGE, 50);
}
