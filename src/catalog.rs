//! Rows of the library catalogue, as the UI receives them, and the small
//! rules of the catalogue commands.

use vstd::prelude::*;
use crate::text::{all_trimmed, trim_text};

verus! {

/// A work: one directory of the library.
#[derive(Debug)]
pub struct Work {
    pub id: i64,
    pub rj_code: Option<String>,
    pub title: String,
    pub dir_path: String,
    pub cover_path: Option<String>,
    /// Tag names, joined by ", ".
    pub tags: Option<String>,
    /// Voice actor names, joined by ", ".
    pub voice_actors: Option<String>,
    /// Circle names, joined by ", ".
    pub circles: Option<String>,
}

/// An audio file of a work.
#[derive(Debug)]
pub struct Track {
    pub id: i64,
    pub work_id: i64,
    pub title: String,
    pub path: String,
    pub duration_sec: i64,
}

/// A genre tag.
#[derive(Debug)]
pub struct Tag {
    pub id: i64,
    pub name: String,
}

/// A voice actor.
#[derive(Debug)]
pub struct VoiceActor {
    pub id: i64,
    pub name: String,
}

/// A circle: the group that published a work.
#[derive(Debug)]
pub struct Circle {
    pub id: i64,
    pub name: String,
}

/// The tags, voice actors and circles of one work.
#[derive(Debug)]
pub struct WorkMetadata {
    pub tags: Vec<Tag>,
    pub voice_actors: Vec<VoiceActor>,
    pub circles: Vec<Circle>,
}

/// A name offered for completion, with the number of works that carry it.
#[derive(Debug)]
pub struct SuggestionItem {
    pub name: String,
    pub count: i64,
}

/// A voice actor with the number of works they appear in.
#[derive(Debug)]
pub struct VoiceActorWithCount {
    pub id: i64,
    pub name: String,
    pub count: i64,
}

/// A tag with the number of works that carry it.
#[derive(Debug)]
pub struct TagWithCount {
    pub id: i64,
    pub name: String,
    pub count: i64,
}

/// A playlist with the number of its tracks.
#[derive(Debug)]
pub struct Playlist {
    pub id: i64,
    pub name: String,
    pub track_count: i64,
}

/// A track of a playlist, with the work it belongs to.
#[derive(Debug)]
pub struct PlaylistTrack {
    pub id: i64,
    pub title: String,
    pub path: String,
    pub duration_sec: Option<i64>,
    pub work_id: i64,
    pub work_title: String,
    pub cover_path: Option<String>,
}

/// One entry of the play history.
#[derive(Debug)]
pub struct PlayHistoryItem {
    pub id: i64,
    pub work_id: i64,
    pub work_title: String,
    pub track_id: i64,
    pub track_title: String,
    pub cover_path: Option<String>,
    pub played_at: String,
}

/// Number of entries the play history keeps.
pub const HISTORY_LIMIT: i64 = 100;

/// The list of `n` bind placeholders of an `IN (...)` clause: `?`
/// separated by `", "`.
pub open spec fn placeholders(n: nat) -> Seq<char>
    decreases n,
{
    if n == 0 {
        Seq::empty()
    } else if n == 1 {
        seq!['?']
    } else {
        placeholders((n - 1) as nat) + seq![',', ' ', '?']
    }
}

/// Builds the placeholder list for a filter on `n` tags.
pub fn tag_filter_placeholders(n: usize) -> (r: String)
    ensures
        r@ == placeholders(n as nat),
{
    let mut out = String::new();
    let mut i: usize = 0;
    while i < n
        invariant
            i <= n,
            out@ == placeholders(i as nat),
        decreases n - i,
    {
        if i == 0 {
            out.append("?");
            proof {
                reveal_strlit("?");
                assert(out@ =~= placeholders(1));
            }
        } else {
            out.append(", ?");
            proof {
                reveal_strlit(", ?");
                assert(out@ =~= placeholders((i + 1) as nat));
            }
        }
        i += 1;
    }
    out
}

/// Text that reports a successful metadata update.
pub const UPDATED_PREFIX: &'static str = "Updated metadata for ";

/// The report of a metadata update for the work titled `title`.
pub fn metadata_updated_message(title: &str) -> (r: String)
    ensures
        r@ == UPDATED_PREFIX@ + title@,
{
    let mut out = String::from_str(UPDATED_PREFIX);
    out.append(title);
    out
}

/// Turns `(name, count)` rows into suggestions, in the same order.
pub fn suggestion_items(rows: &Vec<(String, i64)>) -> (r: Vec<SuggestionItem>)
    ensures
        r.len() == rows.len(),
        forall|i: int|
            0 <= i < rows.len() ==> r[i].name@ == rows[i].0@ && r[i].count == rows[i].1,
{
    let mut out: Vec<SuggestionItem> = Vec::new();
    let mut i: usize = 0;
    while i < rows.len()
        invariant
            i <= rows.len(),
            out.len() == i,
            forall|j: int|
                0 <= j < i ==> out[j].name@ == rows[j].0@ && out[j].count == rows[j].1,
        decreases rows.len() - i,
    {
        let (name, count) = (rows[i].0.clone(), rows[i].1);
        out.push(SuggestionItem { name, count });
        i += 1;
    }
    out
}

/// Position of a track appended to a playlist whose largest position is
/// `max` (`None` for an empty playlist); `None` where no position is left.
pub fn next_playlist_position(max: Option<i64>) -> (r: Option<i64>)
    ensures
        match max {
            None => r == Some(1i64),
            Some(m) => if m < i64::MAX {
                r == Some((m + 1) as i64)
            } else {
                r is None
            },
        },
{
    match max {
        None => Some(1),
        Some(m) => m.checked_add(1),
    }
}

/// The pieces of `s` between the occurrences of `sep`, in order, empty
/// pieces included: `n` separators give `n + 1` pieces.
pub open spec fn split_on(s: Seq<char>, sep: char) -> Seq<Seq<char>>
    decreases s.len(),
{
    if s.len() == 0 {
        seq![Seq::empty()]
    } else {
        let prev = split_on(s.drop_last(), sep);
        if s.last() == sep {
            prev.push(Seq::empty())
        } else {
            prev.update(prev.len() - 1, prev.last().push(s.last()))
        }
    }
}

/// Relies on `str::split` with a `char` pattern: the substrings between the
/// occurrences of `sep`, in order, empty ones included.
#[verifier::external_body]
fn split_at_char(s: &str, sep: char) -> (r: Vec<String>)
    ensures
        r.deep_view() == split_on(s@, sep),
{
    s.split(sep).map(|p| p.to_string()).collect()
}

/// The texts of `texts` that are not empty, in order.
pub open spec fn non_empty(texts: Seq<Seq<char>>) -> Seq<Seq<char>>
    decreases texts.len(),
{
    if texts.len() == 0 {
        Seq::empty()
    } else if texts.last().len() == 0 {
        non_empty(texts.drop_last())
    } else {
        non_empty(texts.drop_last()).push(texts.last())
    }
}

/// The names of a comma-separated list: each piece trimmed, empty ones
/// dropped.
pub open spec fn names_of(list: Seq<char>) -> Seq<Seq<char>> {
    non_empty(all_trimmed(split_on(list, ',')))
}

/// Splits a comma-separated list of names as the metadata editor sends it.
pub fn split_names(list: &str) -> (r: Vec<String>)
    ensures
        r.deep_view() == names_of(list@),
{
    let pieces = split_at_char(list, ',');
    let ghost trimmed_pieces = all_trimmed(pieces.deep_view());
    let mut out: Vec<String> = Vec::new();
    let mut i: usize = 0;
    while i < pieces.len()
        invariant
            i <= pieces.len(),
            trimmed_pieces == all_trimmed(pieces.deep_view()),
            out.deep_view() == non_empty(trimmed_pieces.take(i as int)),
        decreases pieces.len() - i,
    {
        let name = trim_text(pieces[i].as_str());
        proof {
            assert(trimmed_pieces.take(i + 1).drop_last() =~= trimmed_pieces.take(i as int));
        }
        if !name.as_str().is_empty() {
            let ghost before = out.deep_view();
            out.push(name);
            assert(out.deep_view() =~= before.push(trimmed_pieces[i as int]));
        }
        i += 1;
    }
    proof {
        assert(trimmed_pieces.take(pieces.len() as int) =~= trimmed_pieces);
    }
    out
}

} // verus!
