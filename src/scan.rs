//! The rules of the library scan: which directories are works, which files
//! are tracks, and which image becomes a work's cover.

use vstd::prelude::*;
use crate::text::{
    contains_seq, has_prefix, has_substring, lower_of, lowercase, starts_with_text, text_equals,
    upper_of, uppercase,
};

verus! {

/// Pattern of a catalogue code in a directory name.
pub const CODE_PATTERN: &'static str = r"(RJ|BJ)\d{6,8}";

/// Pattern of a catalogue code in any letter case.
pub const CODE_PATTERN_ANY_CASE: &'static str = r"(?i)(RJ|BJ)\d{6,8}";

/// Name that a cover extracted from a track's tags starts with.
pub const EXTRACTED_COVER_STEM: &'static str = "cover_extracted";

/// The first match of the regular expression `pattern` in `haystack`, as the
/// `regex` crate finds it; `None` where there is none or the pattern is
/// invalid.
pub uninterp spec fn regex_first_match(pattern: Seq<char>, haystack: Seq<char>) -> Option<
    Seq<char>,
>;

/// Relies on `regex::Regex::new` and `Regex::find`: the leftmost-first
/// match, which depends on the pattern and the text alone.
#[verifier::external_body]
fn first_match(pattern: &str, haystack: &str) -> (r: Option<String>)
    ensures
        match r {
            Some(m) => regex_first_match(pattern@, haystack@) == Some(m@),
            None => regex_first_match(pattern@, haystack@) is None,
        },
{
    match regex::Regex::new(pattern) {
        Ok(re) => re.find(haystack).map(|m| m.as_str().to_string()),
        Err(_) => None,
    }
}

/// Extensions, in lower case, of the files that count as tracks.
pub open spec fn audio_extension(e: Seq<char>) -> bool {
    e == "mp3"@ || e == "wav"@ || e == "flac"@ || e == "m4a"@ || e == "mp4"@ || e == "ogg"@
}

/// Extensions, in lower case, of the tracks searched for an embedded cover.
pub open spec fn tagged_extension(e: Seq<char>) -> bool {
    e == "mp3"@ || e == "flac"@ || e == "m4a"@ || e == "ogg"@ || e == "opus"@
}

/// Extensions, in lower case, of the files that can be a cover.
pub open spec fn image_extension(e: Seq<char>) -> bool {
    e == "jpg"@ || e == "jpeg"@ || e == "png"@ || e == "webp"@ || e == "bmp"@
}

/// File names, in lower case and without extension, preferred as a cover.
pub open spec fn cover_name(e: Seq<char>) -> bool {
    e == "cover"@ || e == "folder"@ || e == "front"@ || e == "main"@ || e == "jacket"@
}

/// Whether a file with extension `ext`, in any case, is a track.
pub fn is_audio_extension(ext: &str) -> (r: bool)
    ensures
        r == audio_extension(lower_of(ext@)),
{
    let e = lowercase(ext);
    let e = e.as_str();
    text_equals(e, "mp3") || text_equals(e, "wav") || text_equals(e, "flac") || text_equals(
        e,
        "m4a",
    ) || text_equals(e, "mp4") || text_equals(e, "ogg")
}

/// Whether a file with extension `ext`, in any case, may carry a picture in
/// its tags.
pub fn is_tagged_audio_extension(ext: &str) -> (r: bool)
    ensures
        r == tagged_extension(lower_of(ext@)),
{
    let e = lowercase(ext);
    let e = e.as_str();
    text_equals(e, "mp3") || text_equals(e, "flac") || text_equals(e, "m4a") || text_equals(
        e,
        "ogg",
    ) || text_equals(e, "opus")
}

/// Whether any of the extensions of a directory's files is that of a track:
/// a directory without a code is a work exactly when this holds.
pub fn has_audio_file(extensions: &Vec<String>) -> (r: bool)
    ensures
        r == exists|i: int|
            0 <= i < extensions.len() && audio_extension(lower_of(#[trigger] extensions[i]@)),
{
    let mut i: usize = 0;
    while i < extensions.len()
        invariant
            i <= extensions.len(),
            forall|j: int| 0 <= j < i ==> !audio_extension(lower_of(#[trigger] extensions[j]@)),
        decreases extensions.len() - i,
    {
        if is_audio_extension(extensions[i].as_str()) {
            return true;
        }
        i += 1;
    }
    false
}

/// The catalogue code in a directory's name, as it stands there.
pub fn directory_code(dir_name: &str) -> (r: Option<String>)
    ensures
        match r {
            Some(c) => regex_first_match(CODE_PATTERN@, dir_name@) == Some(c@),
            None => regex_first_match(CODE_PATTERN@, dir_name@) is None,
        },
{
    first_match(CODE_PATTERN, dir_name)
}

/// The code under which a work's metadata is fetched: the stored one where it
/// is not empty, else one found in its directory path in any case, written in
/// upper case.
pub open spec fn scrape_code_of(stored: Option<Seq<char>>, dir_path: Seq<char>) -> Option<
    Seq<char>,
> {
    match stored {
        Some(c) if c.len() > 0 => Some(c),
        _ => match regex_first_match(CODE_PATTERN_ANY_CASE@, dir_path) {
            Some(m) => Some(upper_of(m)),
            None => None,
        },
    }
}

/// Picks the code to fetch a work's metadata under; `None` skips the work.
pub fn scrape_code(stored: &Option<String>, dir_path: &str) -> (r: Option<String>)
    ensures
        match r {
            Some(c) => scrape_code_of(
                match stored {
                    Some(s) => Some(s@),
                    None => None,
                },
                dir_path@,
            ) == Some(c@),
            None => scrape_code_of(
                match stored {
                    Some(s) => Some(s@),
                    None => None,
                },
                dir_path@,
            ) is None,
        },
{
    if let Some(code) = stored {
        if !code.as_str().is_empty() {
            return Some(code.clone());
        }
    }
    match first_match(CODE_PATTERN_ANY_CASE, dir_path) {
        Some(m) => Some(uppercase(m.as_str())),
        None => None,
    }
}

/// A file of a work's directory that may become its cover.
pub struct ImageCandidate {
    /// File name without extension.
    pub stem: String,
    /// Extension, empty where there is none.
    pub extension: String,
    /// Size in bytes, where it could be read.
    pub size: Option<u64>,
}

/// Whether candidate `c` is an image.
pub open spec fn is_image(c: ImageCandidate) -> bool {
    image_extension(lower_of(c.extension@))
}

/// Whether candidate `c` is an image with a preferred name.
pub open spec fn is_preferred(c: ImageCandidate) -> bool {
    is_image(c) && cover_name(lower_of(c.stem@))
}

/// The first preferred image among the first `n` candidates.
pub open spec fn first_preferred(cs: Seq<ImageCandidate>, n: int) -> Option<int>
    decreases n,
{
    if n <= 0 {
        None
    } else {
        match first_preferred(cs, n - 1) {
            Some(i) => Some(i),
            None => if is_preferred(cs[n - 1]) {
                Some(n - 1)
            } else {
                None
            },
        }
    }
}

/// The first of the largest images of known size among the first `n`
/// candidates.
pub open spec fn largest_image(cs: Seq<ImageCandidate>, n: int) -> Option<int>
    decreases n,
{
    if n <= 0 {
        None
    } else {
        let prev = largest_image(cs, n - 1);
        let c = cs[n - 1];
        if is_image(c) && c.size is Some && (prev is None || c.size.unwrap()
            > cs[prev.unwrap()].size.unwrap()) {
            Some(n - 1)
        } else {
            prev
        }
    }
}

/// The cover of a directory: its first image with a preferred name, else its
/// first largest image.
pub open spec fn chosen_cover(cs: Seq<ImageCandidate>) -> Option<int> {
    match first_preferred(cs, cs.len() as int) {
        Some(i) => Some(i),
        None => largest_image(cs, cs.len() as int),
    }
}

proof fn first_preferred_stays(cs: Seq<ImageCandidate>, n: int, m: int)
    requires
        0 <= n <= m,
        first_preferred(cs, n) is Some,
    ensures
        first_preferred(cs, m) == first_preferred(cs, n),
    decreases m - n,
{
    if m > n {
        first_preferred_stays(cs, n, m - 1);
    }
}

/// Index of the candidate that becomes the cover, if any.
pub fn choose_cover(candidates: &Vec<ImageCandidate>) -> (r: Option<usize>)
    ensures
        match r {
            Some(i) => chosen_cover(candidates@) == Some(i as int),
            None => chosen_cover(candidates@) is None,
        },
{
    let mut best: Option<usize> = None;
    let mut best_size: u64 = 0;
    let mut i: usize = 0;
    while i < candidates.len()
        invariant
            i <= candidates.len(),
            first_preferred(candidates@, i as int) is None,
            match best {
                Some(b) => b < i && largest_image(candidates@, i as int) == Some(b as int)
                    && candidates@[b as int].size == Some(best_size),
                None => largest_image(candidates@, i as int) is None,
            },
        decreases candidates.len() - i,
    {
        let c = &candidates[i];
        let ext = lowercase(c.extension.as_str());
        let e = ext.as_str();
        let image = text_equals(e, "jpg") || text_equals(e, "jpeg") || text_equals(e, "png")
            || text_equals(e, "webp") || text_equals(e, "bmp");
        if image {
            let stem = lowercase(c.stem.as_str());
            let s = stem.as_str();
            if text_equals(s, "cover") || text_equals(s, "folder") || text_equals(s, "front")
                || text_equals(s, "main") || text_equals(s, "jacket") {
                assert(first_preferred(candidates@, i + 1) == Some(i as int));
                proof {
                    first_preferred_stays(candidates@, i + 1, candidates@.len() as int);
                }
                return Some(i);
            }
            if let Some(size) = c.size {
                let better = match best {
                    None => true,
                    Some(_) => size > best_size,
                };
                if better {
                    best = Some(i);
                    best_size = size;
                }
            }
        }
        i += 1;
    }
    best
}

/// Whether a file named `name` is a cover extracted earlier.
pub fn is_extracted_cover(name: &str) -> (r: bool)
    ensures
        r == has_prefix(name@, EXTRACTED_COVER_STEM@),
{
    starts_with_text(name, EXTRACTED_COVER_STEM)
}

/// File name under which a picture of the given MIME type (as its debug text
/// reads, where the tag tells one) is saved: PNG pictures keep their type,
/// everything else is saved as JPEG.
pub fn extracted_cover_name(mime: &Option<String>) -> (r: String)
    ensures
        r@ == (match mime {
            Some(m) => if contains_seq(lower_of(m@), "png"@) {
                "cover_extracted.png"@
            } else {
                "cover_extracted.jpg"@
            },
            None => "cover_extracted.jpg"@,
        }),
{
    let png = match mime {
        Some(m) => {
            let lower = lowercase(m.as_str());
            has_substring(lower.as_str(), "png")
        },
        None => false,
    };
    if png {
        String::from_str("cover_extracted.png")
    } else {
        String::from_str("cover_extracted.jpg")
    }
}

} // verus!
