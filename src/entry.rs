//! The clipboard entry value type and its content variants.

use vstd::prelude::*;
use vstd::string::*;

verus! {

/// What a clipboard entry holds: text, or an image of which nothing is kept.
#[derive(Debug, Clone)]
pub enum ClipboardContent {
    Text(String),
    Image,
}

/// The mathematical value of a `ClipboardContent`.
pub enum ContentView {
    Text(Seq<char>),
    Image,
}

impl View for ClipboardContent {
    type V = ContentView;

    open spec fn view(&self) -> ContentView {
        match self {
            ClipboardContent::Text(t) => ContentView::Text(t@),
            ClipboardContent::Image => ContentView::Image,
        }
    }
}

/// The text shown for an image entry.
pub const IMAGE_LABEL: &'static str = "[Image]";

/// The text shown for a content value.
pub open spec fn display_text(c: ContentView) -> Seq<char> {
    match c {
        ContentView::Text(t) => t,
        ContentView::Image => IMAGE_LABEL@,
    }
}

impl ClipboardContent {
    /// The text content verbatim, or a fixed placeholder for an image.
    pub fn as_text(&self) -> (r: String)
        ensures
            r@ == display_text(self@),
    {
        match self {
            ClipboardContent::Text(text) => text.clone(),
            ClipboardContent::Image => String::from_str(IMAGE_LABEL),
        }
    }

    pub fn is_image(&self) -> (r: bool)
        ensures
            r == (self@ == ContentView::Image),
    {
        matches!(self, ClipboardContent::Image)
    }

    /// A copy of this content with the same value.
    pub fn duplicate(&self) -> (r: ClipboardContent)
        ensures
            r@ == self@,
    {
        match self {
            ClipboardContent::Text(text) => ClipboardContent::Text(text.clone()),
            ClipboardContent::Image => ClipboardContent::Image,
        }
    }

    /// Content equality as used for deduplication: equal texts, or two images.
    pub fn same_as(&self, other: &ClipboardContent) -> (r: bool)
        ensures
            r == (self@ == other@),
    {
        match (self, other) {
            (ClipboardContent::Text(a), ClipboardContent::Text(b)) => *a == *b,
            (ClipboardContent::Image, ClipboardContent::Image) => true,
            _ => false,
        }
    }
}


/// The value of an optional text.
pub open spec fn opt_text(o: Option<String>) -> Option<Seq<char>> {
    match o {
        Some(s) => Some(s@),
        None => None,
    }
}

/// A copy of an optional text.
pub fn copy_opt_text(o: &Option<String>) -> (r: Option<String>)
    ensures
        opt_text(r) == opt_text(*o),
{
    match o {
        Some(s) => Some(s.clone()),
        None => None,
    }
}

/// One recorded clipboard snapshot. `timestamp` is in whole seconds since the
/// Unix epoch and serves only for the "time ago" label, never for ordering.
#[derive(Debug, Clone)]
pub struct ClipboardEntry {
    pub content: ClipboardContent,
    pub timestamp: i64,
    pub source: String,
    pub raw_id: Option<String>,
}

/// The source label of entries whose origin is not known.
pub const UNKNOWN_SOURCE: &'static str = "Unknown";

/// The character of a decimal digit.
pub open spec fn digit_char(d: nat) -> char {
    ((d % 10) + 48) as char
}

/// The decimal representation of `n`, without leading zeros.
pub open spec fn decimal(n: nat) -> Seq<char>
    decreases n,
{
    if n < 10 {
        seq![digit_char(n)]
    } else {
        decimal(n / 10).push(digit_char(n % 10))
    }
}

/// "N unit ago" or "N units ago".
pub open spec fn count_label(n: nat, unit: Seq<char>) -> Seq<char> {
    decimal(n) + " "@ + unit + (if n == 1 { ""@ } else { "s"@ }) + " ago"@
}

/// The label for an entry recorded `elapsed` seconds ago.
pub open spec fn relative_time_label(elapsed: int) -> Seq<char> {
    if elapsed < 60 {
        "Just Now"@
    } else if elapsed / 60 < 60 {
        count_label((elapsed / 60) as nat, "minute"@)
    } else if elapsed / 3600 < 24 {
        count_label((elapsed / 3600) as nat, "hour"@)
    } else {
        count_label((elapsed / 86400) as nat, "day"@)
    }
}

/// Relies on chrono's `Local::now` and `DateTime::timestamp`: the current time
/// in whole seconds since the Unix epoch.
#[verifier::external_body]
pub(crate) fn current_time() -> (r: i64) {
    chrono::Local::now().timestamp()
}

/// Relies on std's `ToString` for `u64`: the decimal representation.
#[verifier::external_body]
fn decimal_text(n: u64) -> (r: String)
    ensures
        r@ == decimal(n as nat),
{
    n.to_string()
}

/// "N unit ago" / "N units ago" for a count and a unit word.
fn count_text(n: u64, unit: &str) -> (r: String)
    ensures
        r@ == count_label(n as nat, unit@),
{
    let s = decimal_text(n).concat(" ").concat(unit);
    let s = if n == 1 { s.concat("") } else { s.concat("s") };
    s.concat(" ago")
}

impl ClipboardEntry {
    /// An entry with every field given.
    pub fn with_timestamp(
        content: ClipboardContent,
        source: Option<String>,
        raw_id: Option<String>,
        timestamp: i64,
    ) -> (r: ClipboardEntry)
        ensures
            r.content@ == content@,
            r.source@ == (match source {
                Some(s) => s@,
                None => UNKNOWN_SOURCE@,
            }),
            r.raw_id == raw_id,
            r.timestamp == timestamp,
    {
        let source = match source {
            Some(s) => s,
            None => String::from_str(UNKNOWN_SOURCE),
        };
        ClipboardEntry { content, timestamp, source, raw_id }
    }

    /// How long ago this entry was recorded, as seen at time `now` (seconds
    /// since the Unix epoch): "Just Now" under a minute, then whole minutes,
    /// hours, or days.
    pub fn format_relative_time(&self, now: i64) -> (r: String)
        ensures
            r@ == relative_time_label(now - self.timestamp),
    {
        let elapsed: i128 = (now as i128) - (self.timestamp as i128);
        if elapsed < 60 {
            String::from_str("Just Now")
        } else if elapsed / 60 < 60 {
            count_text((elapsed / 60) as u64, "minute")
        } else if elapsed / 3600 < 24 {
            count_text((elapsed / 3600) as u64, "hour")
        } else {
            count_text((elapsed / 86400) as u64, "day")
        }
    }
}


/// Construction and time label of a clipboard entry.
/// Making an entry at the current time, and its "time ago" label.
pub trait IClipboardEntry: Sized {
    fn new(content: ClipboardContent, source: Option<String>) -> Self;

    fn format_time(&self) -> String;
}

impl IClipboardEntry for ClipboardEntry {
    /// An entry stamped with the current time; `source` defaults to "Unknown".
    fn new(content: ClipboardContent, source: Option<String>) -> (r: ClipboardEntry)
        ensures
            r.content@ == content@,
            r.source@ == (match source {
                Some(s) => s@,
                None => UNKNOWN_SOURCE@,
            }),
            r.raw_id.is_none(),
    {
        ClipboardEntry::with_timestamp(content, source, None, current_time())
    }

    /// How long ago this entry was recorded, as seen at the current time.
    fn format_time(&self) -> (r: String)
        ensures
            exists|now: i64| r@ == #[trigger] relative_time_label(now - self.timestamp),
    {
        self.format_relative_time(current_time())
    }
}

} // verus!
