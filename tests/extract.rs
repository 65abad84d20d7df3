use lyri::extract::{join_with_newlines, lyrics_from_containers, lyrics_from_html};

#[test]
fn parts_joined_by_line_breaks() {
    assert_eq!(join_with_newlines(&vec![]), "");
    assert_eq!(join_with_newlines(&vec![String::from("one")]), "one");
    assert_eq!(
        join_with_newlines(&vec![String::from("a"), String::new(), String::from("c")]),
        "a\n\nc"
    );
}

#[test]
fn containers_joined_line_by_line() {
    let containers = vec![
        vec![String::from("Verse one"), String::from("line two")],
        vec![String::from("Chorus")],
    ];
    assert_eq!(lyrics_from_containers(&containers), "Verse one\nline two\nChorus");
    assert_eq!(lyrics_from_containers(&Vec::new()), "");
}

#[test]
fn lyrics_read_from_page() {
    let html = [
        "<html><body><h1>Title</h1>",
        "<div data-lyrics-container=\"true\">First line<br>Second <i>line</i></div>",
        "<p>not lyrics</p>",
        "<div data-lyrics-container=\"true\">Last line</div>",
        "<div data-lyrics-container=\"false\">hidden</div>",
        "</body></html>",
    ]
    .join("");
    assert_eq!(lyrics_from_html(&html), "First line\nSecond \nline\nLast line");
}

#[test]
fn page_without_lyrics_gives_empty_text() {
    assert_eq!(lyrics_from_html("<html><body><p>nothing here</p></body></html>"), "");
    assert_eq!(lyrics_from_html(""), "");
}
