//! Markup sanitizer: turns arbitrary HTML fragments into safe plain text
//! with a length cap, and digs the first site-hosted image URL out of a
//! feed description.

use vstd::prelude::*;

use crate::text::{
    cap_chars, cap_spec, chars_match_at, chars_to_string, copy_range, match_at, replace_chars,
    replace_spec, str_to_chars, trim_chars, trim_spec,
};
use crate::DESCRIPTION_LIMIT;

verus! {

/// The plain text that the HTML sanitizer leaves of `s` once every tag is
/// removed: a function of the fragment alone.
pub uninterp spec fn stripped_of(s: Seq<char>) -> Seq<char>;

/// Relies on `ammonia::Builder::clean` with an empty tag allow-list: it
/// removes all HTML markup from the fragment and returns plain text that
/// depends on the fragment alone.
#[verifier::external_body]
pub fn strip_html(value: &str) -> (r: String)
    ensures
        r@ == stripped_of(value@),
{
    let mut builder = ammonia::Builder::new();
    builder.tags(std::collections::HashSet::new());
    builder.clean(value).to_string()
}

/// What the sanitizer does after tags are gone: the one known HTML entity
/// becomes a space, surrounding whitespace goes, and the text is capped.
pub open spec fn finish_description_spec(t: Seq<char>) -> Seq<char> {
    cap_spec(trim_spec(replace_spec(t, "&nbsp;"@, " "@)), DESCRIPTION_LIMIT as int)
}

/// The entity-replacement, trimming and capping steps of the sanitizer,
/// applied to already tag-free text.
pub fn normalize_description(text: &str) -> (r: String)
    ensures
        r@ == finish_description_spec(text@),
{
    proof {
        reveal_strlit("&nbsp;");
    }
    let chars = str_to_chars(text);
    let entity = str_to_chars("&nbsp;");
    let space = str_to_chars(" ");
    let replaced = replace_chars(&chars, &entity, &space);
    let trimmed = trim_chars(&replaced);
    let capped = cap_chars(&trimmed, DESCRIPTION_LIMIT);
    chars_to_string(&capped)
}

/// Strip tags, replace the known entity, trim, and cap the length.
pub fn sanitize_description(value: &str) -> (r: String)
    ensures
        r@ == finish_description_spec(stripped_of(value@)),
{
    let text = strip_html(value);
    normalize_description(text.as_str())
}

/// The position of the first double quote at or after `i`.
pub open spec fn first_quote_from(s: Seq<char>, i: int) -> Option<int>
    decreases s.len() - i,
{
    if i < 0 || i >= s.len() {
        None
    } else if s[i] == '"' {
        Some(i)
    } else {
        first_quote_from(s, i + 1)
    }
}

/// The attribute marker whose value is taken as the feed-derived image.
pub open spec fn image_marker() -> Seq<char> {
    " src=\"https://www.segelflug.de/"@
}

/// How far into the marker the captured URL starts (just past ` src="`).
pub open spec fn image_capture_offset() -> int {
    (" src=\""@).len() as int
}

/// A complete image reference starts at `i`: the marker matches and a
/// closing quote follows with at least one character of URL after the
/// site prefix.
pub open spec fn image_match_at(s: Seq<char>, i: int) -> bool {
    &&& match_at(s, image_marker(), i)
    &&& match first_quote_from(s, i + image_marker().len()) {
        Some(j) => j > i + image_marker().len(),
        None => false,
    }
}

/// The URL captured by the image reference that starts at `i`.
pub open spec fn image_capture(s: Seq<char>, i: int) -> Seq<char> {
    let j = first_quote_from(s, i + image_marker().len())->Some_0;
    s.subrange(i + image_capture_offset(), j)
}

/// The first complete image reference at or after `i`, if any.
pub open spec fn image_url_from(s: Seq<char>, i: int) -> Option<Seq<char>>
    decreases s.len() - i,
{
    if i < 0 || i >= s.len() || i + image_marker().len() > s.len() {
        None
    } else if image_match_at(s, i) {
        Some(image_capture(s, i))
    } else {
        image_url_from(s, i + 1)
    }
}

/// The image URL a feed description carries, if any: the value of the
/// first `src` attribute that points into the classifieds site.
pub open spec fn image_url_spec(s: Seq<char>) -> Option<Seq<char>> {
    image_url_from(s, 0)
}

proof fn lemma_image_url_unchanged(s: Seq<char>, i: int, j: int)
    requires
        0 <= i <= j,
        forall|k: int| i <= k < j ==> !image_match_at(s, k),
    ensures
        image_url_from(s, i) == image_url_from(s, j),
    decreases j - i,
{
    if i < j {
        if i >= s.len() || i + image_marker().len() > s.len() {
            assert(j + image_marker().len() > s.len());
        } else {
            lemma_image_url_unchanged(s, i + 1, j);
        }
    }
}

fn quote_from(s: &Vec<char>, k: usize) -> (r: Option<usize>)
    requires
        k <= s.len(),
    ensures
        match r {
            Some(j) => first_quote_from(s@, k as int) == Some(j as int) && k <= j < s.len(),
            None => first_quote_from(s@, k as int).is_none(),
        },
{
    let mut i: usize = k;
    while i < s.len()
        invariant
            k <= i <= s.len(),
            first_quote_from(s@, k as int) == first_quote_from(s@, i as int),
        decreases s.len() - i,
    {
        if s[i] == '"' {
            return Some(i);
        }
        i += 1;
    }
    None
}

/// Extract the feed-derived image URL from a raw description fragment.
pub fn find_image_url(description: &str) -> (r: Option<String>)
    ensures
        match r {
            Some(u) => image_url_spec(description@) == Some(u@),
            None => image_url_spec(description@).is_none(),
        },
{
    let s = str_to_chars(description);
    let marker = str_to_chars(" src=\"https://www.segelflug.de/");
    let head = str_to_chars(" src=\"");
    proof {
        reveal_strlit(" src=\"https://www.segelflug.de/");
        reveal_strlit(" src=\"");
    }
    if marker.len() > s.len() {
        proof {
            lemma_image_url_unchanged(s@, 0, 0);
        }
        return None;
    }
    let last: usize = s.len() - marker.len();
    let mut i: usize = 0;
    while i <= last
        invariant
            0 <= i <= last + 1,
            s@ == description@,
            marker@ == image_marker(),
            head@ == (" src=\""@),
            0 < head.len() < marker.len() <= s.len(),
            last == s.len() - marker.len(),
            image_url_from(s@, 0) == image_url_from(s@, i as int),
        decreases last + 1 - i,
    {
        if chars_match_at(&s, &marker, i) {
            match quote_from(&s, i + marker.len()) {
                Some(j) => {
                    if j > i + marker.len() {
                        assert(image_match_at(s@, i as int));
                        let capture = copy_range(&s, i + head.len(), j);
                        assert(capture@ == image_capture(s@, i as int));
                        return Some(chars_to_string(&capture));
                    }
                },
                None => {},
            }
            assert(!image_match_at(s@, i as int));
        }
        i += 1;
        assert(image_url_from(s@, 0) == image_url_from(s@, i as int)) by {
            lemma_image_url_unchanged(s@, i - 1, i as int);
        }
    }
    assert(i + marker@.len() > s@.len());
    None
}

} // verus!
