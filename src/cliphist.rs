//! The `cliphist` provider: the line format that `cliphist list` prints, and
//! how a run of that command becomes a list of entries or an error.

use vstd::prelude::*;
use vstd::slice::slice_subrange;
use vstd::string::*;
use crate::entry::{opt_text, ClipboardContent, ContentView};

verus! {

/// The command, and the name of the provider.
pub const COMMAND: &'static str = "cliphist";

/// The start of a payload that stands for binary (image) data.
pub const BINARY_MARKER: &'static str = "[[ binary data";

pub const NEWLINE: u8 = 10;
pub const TAB: u8 = 9;
pub const CARRIAGE_RETURN: u8 = 13;

/// What `String::from_utf8_lossy` makes of a byte sequence.
pub uninterp spec fn lossy_text(b: Seq<u8>) -> Seq<char>;

/// What `str::trim` makes of a text.
pub uninterp spec fn trimmed(s: Seq<char>) -> Seq<char>;

/// Relies on `String::from_utf8_lossy`: the bytes read as UTF-8, each invalid
/// sequence replaced; the result depends on the bytes alone.
#[verifier::external_body]
fn decode_lossy(bytes: &[u8]) -> (r: String)
    ensures
        r@ == lossy_text(bytes@),
{
    String::from_utf8_lossy(bytes).to_string()
}

/// Relies on `str::trim`: the text without leading and trailing whitespace;
/// the result depends on the text alone.
#[verifier::external_body]
fn trim_text(s: &str) -> (r: String)
    ensures
        r@ == trimmed(s@),
{
    s.trim().to_string()
}

/// `b` without its zero bytes.
pub open spec fn without_nul(b: Seq<u8>) -> Seq<u8>
    decreases b.len(),
{
    if b.len() == 0 {
        b
    } else if b.last() == 0 {
        without_nul(b.drop_last())
    } else {
        without_nul(b.drop_last()).push(b.last())
    }
}

/// The text a field of a record stands for: zero bytes removed, read as
/// UTF-8, surrounding whitespace trimmed.
pub open spec fn cleaned(b: Seq<u8>) -> Seq<char> {
    trimmed(lossy_text(without_nul(b)))
}

/// The index of the first `x` in `b`, or the length of `b` where there is none.
pub open spec fn index_of(b: Seq<u8>, x: u8) -> nat
    decreases b.len(),
{
    if b.len() == 0 {
        0
    } else if b[0] == x {
        0
    } else {
        1 + index_of(b.drop_first(), x)
    }
}

/// `line` without one trailing carriage return.
pub open spec fn without_cr(line: Seq<u8>) -> Seq<u8> {
    if line.len() > 0 && line.last() == CARRIAGE_RETURN {
        line.drop_last()
    } else {
        line
    }
}

/// Whether a payload marks binary data.
pub open spec fn is_binary_payload(p: Seq<char>) -> bool {
    p.len() >= BINARY_MARKER@.len() && p.take(BINARY_MARKER@.len() as int) == BINARY_MARKER@
}

/// The entry that one line stands for, if any: an optional identifier before
/// the first tab, and the payload after it (or the whole line).
pub open spec fn parse_record(line: Seq<u8>) -> Option<(Option<Seq<char>>, ContentView)> {
    let l = without_cr(line);
    let t = index_of(l, TAB);
    let payload = if t < l.len() { cleaned(l.skip(t + 1 as int)) } else { cleaned(l) };
    let id = if t < l.len() { cleaned(l.take(t as int)) } else { Seq::<char>::empty() };
    if line.len() == 0 || payload.len() == 0 {
        None
    } else {
        Some((
            if id.len() == 0 { None } else { Some(id) },
            if is_binary_payload(payload) { ContentView::Image } else { ContentView::Text(payload) },
        ))
    }
}

/// The entries that an output of `cliphist list` stands for, in its order:
/// one for each newline-separated line that holds a payload.
pub open spec fn parse_all(b: Seq<u8>) -> Seq<(Option<Seq<char>>, ContentView)>
    decreases b.len(),
{
    if b.len() == 0 {
        Seq::empty()
    } else {
        let e = index_of(b, NEWLINE);
        let rest = if e < b.len() { b.skip(e + 1 as int) } else { Seq::<u8>::empty() };
        match parse_record(b.take(e as int)) {
            Some(r) => seq![r] + parse_all(rest),
            None => parse_all(rest),
        }
    }
}

/// The value of one listed entry.
pub open spec fn record_view(r: (Option<String>, ClipboardContent)) -> (Option<Seq<char>>, ContentView) {
    (opt_text(r.0), r.1@)
}

/// The values of listed entries.
pub open spec fn records_view(v: Seq<(Option<String>, ClipboardContent)>) -> Seq<(Option<Seq<char>>, ContentView)> {
    v.map_values(|r: (Option<String>, ClipboardContent)| record_view(r))
}

/// `index_of` is the first position that holds `x`.
proof fn lemma_index_of(b: Seq<u8>, x: u8, j: int)
    requires
        0 <= j <= b.len(),
        forall|k: int| 0 <= k < j ==> b[k] != x,
        j == b.len() || b[j] == x,
    ensures
        index_of(b, x) == j,
    decreases b.len(),
{
    if b.len() > 0 && b[0] != x {
        assert forall|k: int| 0 <= k < j - 1 implies b.drop_first()[k] != x by {
            assert(b.drop_first()[k] == b[k + 1]);
        }
        lemma_index_of(b.drop_first(), x, j - 1);
    }
}

/// The first position in `b` at or after `from` that holds `x`, or the length.
fn find_byte(b: &[u8], from: usize, x: u8) -> (r: usize)
    requires
        from <= b@.len(),
    ensures
        from <= r <= b@.len(),
        forall|k: int| from <= k < r ==> b@[k] != x,
        r == b@.len() || b@[r as int] == x,
{
    let mut i = from;
    while i < b.len() && b[i] != x
        invariant
            from <= i <= b@.len(),
            forall|k: int| from <= k < i ==> b@[k] != x,
        decreases b@.len() - i,
    {
        i = i + 1;
    }
    i
}

/// The text a field stands for: zero bytes removed, the rest read as UTF-8
/// (invalid sequences replaced), surrounding whitespace trimmed.
pub fn clean_bytes_to_string(bytes: &[u8]) -> (r: String)
    ensures
        r@ == cleaned(bytes@),
{
    let mut kept: Vec<u8> = Vec::new();
    let mut i: usize = 0;
    while i < bytes.len()
        invariant
            i <= bytes@.len(),
            kept@ == without_nul(bytes@.take(i as int)),
        decreases bytes@.len() - i,
    {
        proof {
            assert(bytes@.take(i + 1).drop_last() =~= bytes@.take(i as int));
        }
        if bytes[i] != 0 {
            kept.push(bytes[i]);
        }
        i = i + 1;
    }
    proof {
        assert(bytes@.take(bytes@.len() as int) =~= bytes@);
    }
    let text = decode_lossy(kept.as_slice());
    trim_text(text.as_str())
}

/// Whether `payload` starts with the binary-data marker.
fn starts_with_marker(payload: &str) -> (r: bool)
    ensures
        r == is_binary_payload(payload@),
{
    let marker = BINARY_MARKER;
    let m = marker.unicode_len();
    let n = payload.unicode_len();
    if n < m {
        return false;
    }
    let mut i: usize = 0;
    while i < m
        invariant
            marker@ == BINARY_MARKER@,
            m == marker@.len(),
            n == payload@.len(),
            m <= n,
            i <= m,
            forall|k: int| 0 <= k < i ==> payload@[k] == marker@[k],
        decreases m - i,
    {
        if payload.get_char(i) != marker.get_char(i) {
            proof {
                assert(payload@.take(m as int)[i as int] != marker@[i as int]);
                assert(payload@.take(m as int) != marker@);
            }
            return false;
        }
        i = i + 1;
    }
    proof {
        assert(payload@.take(m as int) =~= marker@);
    }
    true
}

/// The entry that one line of output stands for, if any.
pub fn parse_line(line: &[u8]) -> (r: Option<(Option<String>, ClipboardContent)>)
    ensures
        parse_record(line@) == (match r {
            Some(x) => Some(record_view(x)),
            None => None,
        }),
{
    if line.len() == 0 {
        return None;
    }
    let l = if line[line.len() - 1] == CARRIAGE_RETURN {
        slice_subrange(line, 0, line.len() - 1)
    } else {
        line
    };
    proof {
        assert(l@ == without_cr(line@));
    }
    let t = find_byte(l, 0, TAB);
    proof {
        lemma_index_of(l@, TAB, t as int);
    }
    let (id, payload) = if t < l.len() {
        let id = clean_bytes_to_string(slice_subrange(l, 0, t));
        let payload = clean_bytes_to_string(slice_subrange(l, t + 1, l.len()));
        proof {
            assert(l@.subrange(0, t as int) =~= l@.take(t as int));
            assert(l@.subrange(t + 1, l@.len() as int) =~= l@.skip(t + 1));
        }
        (Some(id), payload)
    } else {
        (None, clean_bytes_to_string(l))
    };
    if payload.unicode_len() == 0 {
        return None;
    }
    let raw_id = match id {
        Some(s) => if s.unicode_len() == 0 { None } else { Some(s) },
        None => None,
    };
    let content = if starts_with_marker(payload.as_str()) {
        ClipboardContent::Image
    } else {
        ClipboardContent::Text(payload)
    };
    Some((raw_id, content))
}

/// The entries that an output of `cliphist list` stands for, in its order.
pub fn parse_output(stdout: &[u8]) -> (r: Vec<(Option<String>, ClipboardContent)>)
    ensures
        records_view(r@) == parse_all(stdout@),
{
    let n = stdout.len();
    let mut out: Vec<(Option<String>, ClipboardContent)> = Vec::new();
    let mut start: usize = 0;
    proof {
        assert(stdout@.skip(0) =~= stdout@);
    }
    while start < n
        invariant
            n == stdout@.len(),
            start <= n,
            records_view(out@) + parse_all(stdout@.skip(start as int)) == parse_all(stdout@),
        decreases n - start,
    {
        let end = find_byte(stdout, start, NEWLINE);
        let ghost rem = stdout@.skip(start as int);
        proof {
            lemma_index_of(rem, NEWLINE, end - start);
            assert(rem.take(end - start) =~= stdout@.subrange(start as int, end as int));
        }
        let record = parse_line(slice_subrange(stdout, start, end));
        let next = if end < n { end + 1 } else { n };
        proof {
            if end < n {
                assert(rem.skip(end - start + 1) =~= stdout@.skip(next as int));
            } else {
                assert(stdout@.skip(next as int) =~= Seq::<u8>::empty());
            }
        }
        let ghost before = out@;
        match record {
            Some(x) => {
                out.push(x);
                proof {
                    assert(records_view(out@) =~= records_view(before) + seq![record_view(x)]);
                }
            },
            None => {},
        }
        start = next;
    }
    proof {
        assert(stdout@.skip(n as int) =~= Seq::<u8>::empty());
        assert(records_view(out@) + Seq::empty() =~= records_view(out@));
    }
    out
}

/// The error reported when `cliphist list` exits with a failure status.
pub open spec fn exit_failure_message(stderr: Seq<u8>) -> Seq<char> {
    "cliphist list non-zero exit: "@ + lossy_text(stderr)
}

/// The error reported when `cliphist list` cannot be started.
pub open spec fn spawn_failure_message(description: Seq<char>) -> Seq<char> {
    "cliphist list failed: "@ + description
}

/// The provider backed by the `cliphist` command-line tool. Running the
/// command is left to the caller; this type names the provider and turns what
/// a run produced into entries or an error.
#[derive(Clone, Copy)]
pub struct CliphistProvider;

impl CliphistProvider {
    pub fn new() -> (r: CliphistProvider) {
        CliphistProvider
    }

    pub fn name(&self) -> (r: &'static str)
        ensures
            r@ == COMMAND@,
    {
        COMMAND
    }

    /// The outcome of a finished run of `cliphist list`: the parsed entries
    /// when it exited successfully, else an error carrying its standard error.
    pub fn interpret_output(&self, success: bool, stdout: &[u8], stderr: &[u8]) -> (r: Result<
        Vec<(Option<String>, ClipboardContent)>,
        String,
    >)
        ensures
            success ==> (r matches Ok(v) && records_view(v@) == parse_all(stdout@)),
            !success ==> (r matches Err(e) && e@ == exit_failure_message(stderr@)),
    {
        if !success {
            let text = decode_lossy(stderr);
            return Err(String::from_str("cliphist list non-zero exit: ").concat(text.as_str()));
        }
        Ok(parse_output(stdout))
    }

    /// The error for a run of `cliphist list` that could not be started.
    pub fn spawn_failure(&self, description: &str) -> (r: String)
        ensures
            r@ == spawn_failure_message(description@),
    {
        String::from_str("cliphist list failed: ").concat(description)
    }
}

} // verus!
