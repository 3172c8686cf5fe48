//! Text helpers for the history list: row titles, lower-casing and substring
//! search.

use vstd::prelude::*;
use vstd::string::*;
use crate::entry::{display_text, ClipboardContent, ContentView};

verus! {

/// How many characters of an entry a row title shows.
pub const PREVIEW_CHARS: usize = 100;

/// What `str::to_lowercase` makes of a text.
pub uninterp spec fn lower_of(s: Seq<char>) -> Seq<char>;

/// Relies on `str::to_lowercase`: the lower-case form of each character; the
/// result depends on the text alone.
#[verifier::external_body]
fn lowercase(s: &str) -> (r: String)
    ensures
        r@ == lower_of(s@),
{
    s.to_lowercase()
}

/// The title of a row: the entry's text, cut to its first hundred characters
/// with "..." after them when it is longer.
pub open spec fn title_of(c: ContentView) -> Seq<char> {
    let t = display_text(c);
    if t.len() > PREVIEW_CHARS {
        t.take(PREVIEW_CHARS as int) + "..."@
    } else {
        t
    }
}

/// Whether `needle` occurs in `hay` as a contiguous part.
pub open spec fn contains_seq(hay: Seq<char>, needle: Seq<char>) -> bool {
    exists|i: int| 0 <= i <= hay.len() - needle.len() && #[trigger] hay.subrange(i, i + needle.len()) == needle
}

/// Whether a row with content `c` passes the search text `filter`: the filter
/// is empty, or the lower-cased title contains the lower-cased filter.
pub open spec fn row_visible(c: ContentView, filter: Seq<char>) -> bool {
    filter.len() == 0 || contains_seq(lower_of(title_of(c)), lower_of(filter))
}

/// The title of the row for `c`.
pub fn title(c: &ClipboardContent) -> (r: String)
    ensures
        r@ == title_of(c@),
{
    let text = c.as_text();
    let n = text.as_str().unicode_len();
    if n > PREVIEW_CHARS {
        let head = text.as_str().substring_char(0, PREVIEW_CHARS);
        proof {
            assert(text@.subrange(0, PREVIEW_CHARS as int) =~= text@.take(PREVIEW_CHARS as int));
        }
        String::from_str(head).concat("...")
    } else {
        text
    }
}

/// The characters of `s`.
pub fn chars_of(s: &str) -> (r: Vec<char>)
    ensures
        r@ == s@,
{
    let n = s.unicode_len();
    let mut out: Vec<char> = Vec::new();
    let mut i: usize = 0;
    while i < n
        invariant
            n == s@.len(),
            i <= n,
            out@ == s@.take(i as int),
        decreases n - i,
    {
        out.push(s.get_char(i));
        i = i + 1;
        proof {
            assert(out@ =~= s@.take(i as int));
        }
    }
    proof {
        assert(s@.take(n as int) =~= s@);
    }
    out
}

/// Whether `needle` occurs in `hay`.
pub fn contains_chars(hay: &Vec<char>, needle: &Vec<char>) -> (r: bool)
    ensures
        r == contains_seq(hay@, needle@),
{
    let h = hay.len();
    let n = needle.len();
    if n > h {
        return false;
    }
    let mut i: usize = 0;
    while i <= h - n
        invariant
            h == hay@.len(),
            n == needle@.len(),
            n <= h,
            i <= h - n + 1,
            forall|j: int| 0 <= j < i ==> #[trigger] hay@.subrange(j, j + n) != needle@,
        decreases h - n + 1 - i,
    {
        let mut k: usize = 0;
        while k < n && hay[i + k] == needle[k]
            invariant
                h == hay@.len(),
                n == needle@.len(),
                i + n <= h,
                k <= n,
                forall|q: int| 0 <= q < k ==> hay@[i + q] == needle@[q],
            decreases n - k,
        {
            k = k + 1;
        }
        if k == n {
            proof {
                assert(hay@.subrange(i as int, i + n) =~= needle@);
            }
            return true;
        }
        proof {
            assert(hay@.subrange(i as int, i + n)[k as int] != needle@[k as int]);
        }
        i = i + 1;
    }
    proof {
        assert forall|j: int| 0 <= j <= hay@.len() - needle@.len() implies #[trigger] hay@.subrange(j, j + needle@.len()) != needle@ by {
            assert(j < i);
        }
    }
    false
}

/// The lower-cased characters of `s`.
pub fn lowered_chars(s: &str) -> (r: Vec<char>)
    ensures
        r@ == lower_of(s@),
{
    let l = lowercase(s);
    chars_of(l.as_str())
}

/// Whether a row with content `c` passes the search text `filter`, whose
/// lower-cased characters are `filter_lower`.
pub fn row_passes(c: &ClipboardContent, filter: &str, filter_lower: &Vec<char>) -> (r: bool)
    requires
        filter_lower@ == lower_of(filter@),
    ensures
        r == row_visible(c@, filter@),
{
    if filter.unicode_len() == 0 {
        return true;
    }
    let t = title(c);
    let hay = lowered_chars(t.as_str());
    contains_chars(&hay, filter_lower)
}

} // verus!
