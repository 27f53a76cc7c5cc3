//! Reading a work's metadata off its catalogue product page: the title, the
//! circle, the voice actors and the genre tags.

use vstd::prelude::*;
use crate::text::{all_trimmed, contains_seq, has_substring, trim_all, trim_text, trimmed};

verus! {

/// The element that holds the work's title.
pub const TITLE_SELECTOR: &'static str = "#work_name";

/// The element that holds the circle's name.
pub const CIRCLE_SELECTOR: &'static str = "#work_maker .maker_name";

/// The rows of the work's outline table.
pub const OUTLINE_ROW_SELECTOR: &'static str = "table#work_outline tr";

/// A row's header cell.
pub const HEADER_SELECTOR: &'static str = "th";

/// A row's data cell.
pub const CELL_SELECTOR: &'static str = "td";

/// A link inside a data cell.
pub const LINK_SELECTOR: &'static str = "a";

/// The genre links outside the outline table.
pub const MAIN_GENRE_SELECTOR: &'static str = ".main_genre a";

/// Header text of the outline row that lists the voice actors.
pub const VOICE_ACTOR_LABEL: &'static str = "声優";

/// Header text of the outline row that lists the genres.
pub const GENRE_LABEL: &'static str = "ジャンル";

/// The failure of a page without a title.
pub const NO_TITLE: &'static str = "Could not find title";

/// The metadata of one work.
#[derive(Debug)]
pub struct ScrapedMetadata {
    pub title: String,
    pub circle: Option<String>,
    pub voice_actors: Vec<String>,
    pub tags: Vec<String>,
}

/// The metadata of one work, in plain values.
pub ghost struct MetadataView {
    pub title: Seq<char>,
    pub circle: Option<Seq<char>>,
    pub voice_actors: Seq<Seq<char>>,
    pub tags: Seq<Seq<char>>,
}

impl View for ScrapedMetadata {
    type V = MetadataView;

    open spec fn view(&self) -> MetadataView {
        MetadataView {
            title: self.title@,
            circle: match self.circle {
                Some(c) => Some(c@),
                None => None,
            },
            voice_actors: self.voice_actors.deep_view(),
            tags: self.tags.deep_view(),
        }
    }
}

/// The text of every element of the document parsed from `html` that
/// `selector` matches, in document order.
pub uninterp spec fn selected_texts(html: Seq<char>, selector: Seq<char>) -> Seq<Seq<char>>;

/// For every element of the document parsed from `html` that `outer`
/// matches, in document order: the texts of its descendants that `inner`
/// matches.
pub uninterp spec fn grouped_texts(html: Seq<char>, outer: Seq<char>, inner: Seq<char>) -> Seq<
    Seq<Seq<char>>,
>;

/// For every element that `outer` matches, for each of its descendants that
/// `middle` matches: the texts of that descendant's descendants that `inner`
/// matches.
pub uninterp spec fn nested_texts(
    html: Seq<char>,
    outer: Seq<char>,
    middle: Seq<char>,
    inner: Seq<char>,
) -> Seq<Seq<Seq<Seq<char>>>>;

/// Relies on scraper's `Html::parse_document`, `Selector::parse`,
/// `Html::select` and `ElementRef::text`: the concatenated text of each
/// match, in document order; no match where the selector does not parse.
#[verifier::external_body]
fn select_texts(html: &str, selector: &str) -> (r: Vec<String>)
    ensures
        r.deep_view() == selected_texts(html@, selector@),
{
    let document = scraper::Html::parse_document(html);
    let mut out = Vec::new();
    if let Ok(s) = scraper::Selector::parse(selector) {
        for e in document.select(&s) {
            out.push(e.text().collect::<String>());
        }
    }
    out
}

/// Relies on scraper's `Html::select`, then `ElementRef::select` inside
/// each match, and `ElementRef::text`.
#[verifier::external_body]
fn select_grouped_texts(html: &str, outer: &str, inner: &str) -> (r: Vec<Vec<String>>)
    ensures
        r.deep_view() == grouped_texts(html@, outer@, inner@),
{
    let document = scraper::Html::parse_document(html);
    let mut out = Vec::new();
    if let (Ok(o), Ok(i)) = (scraper::Selector::parse(outer), scraper::Selector::parse(inner)) {
        for g in document.select(&o) {
            let mut texts = Vec::new();
            for e in g.select(&i) {
                texts.push(e.text().collect::<String>());
            }
            out.push(texts);
        }
    }
    out
}

/// Relies on scraper's `Html::select`, then `ElementRef::select` two levels
/// deep, and `ElementRef::text`.
#[verifier::external_body]
fn select_nested_texts(html: &str, outer: &str, middle: &str, inner: &str) -> (r: Vec<
    Vec<Vec<String>>,
>)
    ensures
        r.deep_view() == nested_texts(html@, outer@, middle@, inner@),
{
    let document = scraper::Html::parse_document(html);
    let (o, m, i) = (scraper::Selector::parse(outer), scraper::Selector::parse(middle), scraper::Selector::parse(inner));
    let mut out = Vec::new();
    if let (Ok(o), Ok(m), Ok(i)) = (o, m, i) {
        for g in document.select(&o) {
            let mut groups = Vec::new();
            for c in g.select(&m) {
                groups.push(c.select(&i).map(|e| e.text().collect::<String>()).collect());
            }
            out.push(groups);
        }
    }
    out
}

/// The trimmed header text of outline row `i`; empty where it has none.
pub open spec fn row_label(headers: Seq<Seq<Seq<char>>>, i: int) -> Seq<char> {
    if headers[i].len() > 0 {
        trimmed(headers[i][0])
    } else {
        Seq::empty()
    }
}

/// The trimmed link texts of the first data cell of outline row `i`.
pub open spec fn row_links(cells: Seq<Seq<Seq<Seq<char>>>>, i: int) -> Seq<Seq<char>> {
    if 0 <= i < cells.len() && cells[i].len() > 0 {
        all_trimmed(cells[i][0])
    } else {
        Seq::empty()
    }
}

/// Whether outline row `i` lists voice actors.
pub open spec fn is_voice_row(headers: Seq<Seq<Seq<char>>>, i: int) -> bool {
    contains_seq(row_label(headers, i), VOICE_ACTOR_LABEL@)
}

/// Whether outline row `i` lists genres (and not voice actors).
pub open spec fn is_genre_row(headers: Seq<Seq<Seq<char>>>, i: int) -> bool {
    !is_voice_row(headers, i) && contains_seq(row_label(headers, i), GENRE_LABEL@)
}

/// The voice actors listed by the first `n` outline rows.
pub open spec fn voice_actors_of(
    headers: Seq<Seq<Seq<char>>>,
    cells: Seq<Seq<Seq<Seq<char>>>>,
    n: int,
) -> Seq<Seq<char>>
    decreases n,
{
    if n <= 0 {
        Seq::empty()
    } else {
        voice_actors_of(headers, cells, n - 1) + if is_voice_row(headers, n - 1) {
            row_links(cells, n - 1)
        } else {
            Seq::empty()
        }
    }
}

/// The genre tags listed by the first `n` outline rows.
pub open spec fn genre_tags_of(
    headers: Seq<Seq<Seq<char>>>,
    cells: Seq<Seq<Seq<Seq<char>>>>,
    n: int,
) -> Seq<Seq<char>>
    decreases n,
{
    if n <= 0 {
        Seq::empty()
    } else {
        genre_tags_of(headers, cells, n - 1) + if is_genre_row(headers, n - 1) {
            row_links(cells, n - 1)
        } else {
            Seq::empty()
        }
    }
}

/// The metadata that the page `html` gives, or `None` where it has no title.
/// Tags come from the outline table, or from the main genre list where the
/// table has none.
pub open spec fn page_metadata(html: Seq<char>) -> Option<MetadataView> {
    let titles = selected_texts(html, TITLE_SELECTOR@);
    let circles = selected_texts(html, CIRCLE_SELECTOR@);
    let headers = grouped_texts(html, OUTLINE_ROW_SELECTOR@, HEADER_SELECTOR@);
    let cells = nested_texts(html, OUTLINE_ROW_SELECTOR@, CELL_SELECTOR@, LINK_SELECTOR@);
    let tags = genre_tags_of(headers, cells, headers.len() as int);
    if titles.len() == 0 {
        None
    } else {
        Some(
            MetadataView {
                title: trimmed(titles[0]),
                circle: if circles.len() > 0 {
                    Some(trimmed(circles[0]))
                } else {
                    None
                },
                voice_actors: voice_actors_of(headers, cells, headers.len() as int),
                tags: if tags.len() == 0 {
                    all_trimmed(selected_texts(html, MAIN_GENRE_SELECTOR@))
                } else {
                    tags
                },
            },
        )
    }
}

fn first_cell_links(cells: &Vec<Vec<Vec<String>>>, i: usize) -> (r: Vec<String>)
    ensures
        r.deep_view() == row_links(cells.deep_view(), i as int),
{
    if i < cells.len() && cells[i].len() > 0 {
        trim_all(&cells[i][0])
    } else {
        Vec::new()
    }
}

/// Reads the metadata off a product page.
pub fn parse_dlsite_html(html_content: &str) -> (r: Result<ScrapedMetadata, String>)
    ensures
        match r {
            Ok(m) => page_metadata(html_content@) == Some(m@),
            Err(e) => page_metadata(html_content@) is None && e@ == NO_TITLE@,
        },
{
    let titles = select_texts(html_content, TITLE_SELECTOR);
    if titles.len() == 0 {
        return Err(String::from_str(NO_TITLE));
    }
    let title = trim_text(titles[0].as_str());
    let circles = select_texts(html_content, CIRCLE_SELECTOR);
    let circle = if circles.len() > 0 {
        Some(trim_text(circles[0].as_str()))
    } else {
        None
    };
    let headers = select_grouped_texts(html_content, OUTLINE_ROW_SELECTOR, HEADER_SELECTOR);
    let cells = select_nested_texts(
        html_content,
        OUTLINE_ROW_SELECTOR,
        CELL_SELECTOR,
        LINK_SELECTOR,
    );
    let ghost hv = headers.deep_view();
    let ghost cv = cells.deep_view();
    let mut voice_actors: Vec<String> = Vec::new();
    let mut tags: Vec<String> = Vec::new();
    let mut i: usize = 0;
    while i < headers.len()
        invariant
            i <= headers.len(),
            hv == headers.deep_view(),
            cv == cells.deep_view(),
            voice_actors.deep_view() == voice_actors_of(hv, cv, i as int),
            tags.deep_view() == genre_tags_of(hv, cv, i as int),
        decreases headers.len() - i,
    {
        let label = if headers[i].len() > 0 {
            trim_text(headers[i][0].as_str())
        } else {
            String::new()
        };
        assert(label@ == row_label(hv, i as int));
        let ghost va_before = voice_actors.deep_view();
        let ghost tags_before = tags.deep_view();
        if has_substring(label.as_str(), VOICE_ACTOR_LABEL) {
            let mut links = first_cell_links(&cells, i);
            let ghost lv = links.deep_view();
            voice_actors.append(&mut links);
            assert(voice_actors.deep_view() =~= va_before + lv);
        } else if has_substring(label.as_str(), GENRE_LABEL) {
            let mut links = first_cell_links(&cells, i);
            let ghost lv = links.deep_view();
            tags.append(&mut links);
            assert(tags.deep_view() =~= tags_before + lv);
        }
        proof {
            assert(voice_actors.deep_view() =~= voice_actors_of(hv, cv, i + 1));
            assert(tags.deep_view() =~= genre_tags_of(hv, cv, i + 1));
        }
        i += 1;
    }
    if tags.len() == 0 {
        let genres = select_texts(html_content, MAIN_GENRE_SELECTOR);
        tags = trim_all(&genres);
    }
    Ok(ScrapedMetadata { title, circle, voice_actors, tags })
}

} // verus!
