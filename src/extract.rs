//! Extracting the lyrics from the HTML of a song's page.
use scraper::{Html, Selector};
use vstd::prelude::*;
use vstd::string::StringExecFns;

verus! {

/// The elements of a song page that hold its lyrics.
pub open spec fn lyrics_selector() -> Seq<char> {
    "div[data-lyrics-container=\"true\"]"@
}

/// For each element that a CSS selector picks in an HTML document, in
/// document order, the texts of its text nodes in order; `None` when the
/// selector does not parse.
pub uninterp spec fn selected_texts(html: Seq<char>, selector: Seq<char>) -> Option<
    Seq<Seq<Seq<char>>>,
>;

/// Relies on `scraper::Selector::parse`, `scraper::Html::parse_document`,
/// `Html::select` and `ElementRef::text`: the result depends on the document
/// and the selector alone.
#[verifier::external_body]
fn select_texts(html: &str, selector: &str) -> (r: Option<Vec<Vec<String>>>)
    ensures
        r is Some <==> selected_texts(html@, selector@) is Some,
        r matches Some(v) ==> v.deep_view() == selected_texts(html@, selector@)->0,
{
    let selector = match Selector::parse(selector) {
        Ok(s) => s,
        Err(_) => return None,
    };
    let document = Html::parse_document(html);
    Some(document.select(&selector).map(|e| e.text().map(String::from).collect()).collect())
}

/// The parts joined into one text, one line break between two parts.
pub open spec fn join_lines(parts: Seq<Seq<char>>) -> Seq<char>
    decreases parts.len(),
{
    if parts.len() == 0 {
        Seq::empty()
    } else if parts.len() == 1 {
        parts[0]
    } else {
        join_lines(parts.drop_last()) + "\n"@ + parts.last()
    }
}

/// The lyrics of a page: the text of each lyrics element (its text nodes
/// joined line by line), the elements joined line by line.
pub open spec fn lyrics_text(containers: Seq<Seq<Seq<char>>>) -> Seq<char> {
    join_lines(containers.map_values(|nodes: Seq<Seq<char>>| join_lines(nodes)))
}

/// Joins the parts, one line break between two parts.
pub fn join_with_newlines(parts: &Vec<String>) -> (r: String)
    ensures
        r@ == join_lines(parts.deep_view()),
{
    let mut out = String::new();
    let mut i: usize = 0;
    while i < parts.len()
        invariant
            0 <= i <= parts@.len(),
            out@ == join_lines(parts.deep_view().take(i as int)),
        decreases parts@.len() - i,
    {
        proof {
            assert(parts.deep_view().take(i as int + 1).drop_last() == parts.deep_view().take(
                i as int,
            ));
        }
        if i > 0 {
            out.append("\n");
        }
        out.append(parts[i].as_str());
        i = i + 1;
    }
    assert(parts.deep_view().take(parts@.len() as int) == parts.deep_view());
    out
}

/// The lyrics that the texts of a page's lyrics elements make up.
pub fn lyrics_from_containers(containers: &Vec<Vec<String>>) -> (r: String)
    ensures
        r@ == lyrics_text(containers.deep_view()),
{
    let mut lines: Vec<String> = Vec::new();
    let mut i: usize = 0;
    while i < containers.len()
        invariant
            0 <= i <= containers@.len(),
            lines.deep_view() == containers.deep_view().take(i as int).map_values(
                |nodes: Seq<Seq<char>>| join_lines(nodes),
            ),
        decreases containers@.len() - i,
    {
        let line = join_with_newlines(&containers[i]);
        let ghost before = lines.deep_view();
        lines.push(line);
        proof {
            assert(lines.deep_view() =~= before.push(line@));
            assert(containers.deep_view()[i as int] == containers@[i as int].deep_view());
            assert(lines.deep_view() =~= containers.deep_view().take(i as int + 1).map_values(
                |nodes: Seq<Seq<char>>| join_lines(nodes),
            ));
        }
        i = i + 1;
    }
    assert(containers.deep_view().take(containers@.len() as int) == containers.deep_view());
    join_with_newlines(&lines)
}

/// The lyrics on a song page: the texts of its lyrics elements, joined line by
/// line; empty when the page has none.
pub fn lyrics_from_html(html: &str) -> (r: String)
    ensures
        r@ == match selected_texts(html@, lyrics_selector()) {
            Some(c) => lyrics_text(c),
            None => Seq::empty(),
        },
{
    match select_texts(html, "div[data-lyrics-container=\"true\"]") {
        Some(containers) => lyrics_from_containers(&containers),
        None => String::new(),
    }
}

} // verus!
