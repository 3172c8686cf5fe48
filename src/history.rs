//! The bounded, ordered, deduplicating history store.

use vstd::prelude::*;
use crate::entry::{ClipboardContent, ClipboardEntry, IClipboardEntry};

verus! {

/// The number of entries a history keeps unless told otherwise.
pub const DEFAULT_CAPACITY: usize = 100;

/// `s` cut down to its first `cap` elements.
pub open spec fn truncated(s: Seq<ClipboardEntry>, cap: nat) -> Seq<ClipboardEntry> {
    if s.len() > cap {
        s.take(cap as int)
    } else {
        s
    }
}

/// Whether `e` repeats the content of the newest entry of `s`.
pub open spec fn repeats_head(s: Seq<ClipboardEntry>, e: ClipboardEntry) -> bool {
    s.len() > 0 && s[0].content@ == e.content@
}

/// The history `s` after `e` is offered at the front, with capacity `cap`:
/// unchanged when `e` repeats the newest entry, else `e` prepended and the
/// oldest entries beyond `cap` dropped.
pub open spec fn inserted(s: Seq<ClipboardEntry>, e: ClipboardEntry, cap: nat) -> Seq<ClipboardEntry> {
    if repeats_head(s, e) {
        s
    } else {
        truncated(seq![e] + s, cap)
    }
}

/// The history `s` after every entry of `batch` is offered at the front, the
/// last one first, so that `batch[0]` is offered last (batches list the newest
/// entry first).
pub open spec fn merged(s: Seq<ClipboardEntry>, batch: Seq<ClipboardEntry>, cap: nat) -> Seq<ClipboardEntry>
    decreases batch.len(),
{
    if batch.len() == 0 {
        s
    } else {
        merged(inserted(s, batch.last(), cap), batch.drop_last(), cap)
    }
}

/// No two neighbouring entries of `b` have equal content.
pub open spec fn no_adjacent_repeats(b: Seq<ClipboardEntry>) -> bool {
    forall|i: int| 0 <= i < b.len() - 1 ==> #[trigger] b[i].content@ != b[i + 1].content@
}

/// Cutting `a + truncated(c)` to `cap` is cutting `a + c` to `cap`.
proof fn lemma_truncated_append(a: Seq<ClipboardEntry>, c: Seq<ClipboardEntry>, cap: nat)
    ensures
        truncated(a + truncated(c, cap), cap) == truncated(a + c, cap),
{
    if c.len() > cap {
        if a.len() + cap > cap {
            assert((a + c.take(cap as int)).take(cap as int) =~= (a + c).take(cap as int));
        } else {
            assert(a + c.take(cap as int) =~= (a + c).take(cap as int));
        }
    }
}

/// Any offer keeps a history within its capacity.
pub proof fn lemma_inserted_within_capacity(s: Seq<ClipboardEntry>, e: ClipboardEntry, cap: nat)
    requires
        s.len() <= cap,
    ensures
        inserted(s, e, cap).len() <= cap,
{
}

/// Any sequence of offers keeps a history within its capacity.
pub proof fn lemma_merged_within_capacity(s: Seq<ClipboardEntry>, batch: Seq<ClipboardEntry>, cap: nat)
    requires
        s.len() <= cap,
    ensures
        merged(s, batch, cap).len() <= cap,
    decreases batch.len(),
{
    if batch.len() > 0 {
        lemma_merged_within_capacity(inserted(s, batch.last(), cap), batch.drop_last(), cap);
    }
}

/// Offering content equal to the newest entry's leaves the history as it is.
pub proof fn lemma_repeat_suppressed(s: Seq<ClipboardEntry>, e: ClipboardEntry, cap: nat)
    requires
        s.len() > 0,
        s[0].content@ == e.content@,
    ensures
        inserted(s, e, cap) == s,
{
}

/// Content offered again after a different entry came in between is added
/// again: it becomes the newest entry.
pub proof fn lemma_repeat_after_other_added(
    s: Seq<ClipboardEntry>,
    x: ClipboardEntry,
    y: ClipboardEntry,
    cap: nat,
)
    requires
        cap > 0,
        x.content@ != y.content@,
    ensures
        ({
            let after_y = inserted(inserted(s, x, cap), y, cap);
            &&& !repeats_head(after_y, x)
            &&& inserted(after_y, x, cap)[0] == x
        }),
{
    let after_x = inserted(s, x, cap);
    assert(after_x.len() > 0 && after_x[0].content@ == x.content@);
    let after_y = inserted(after_x, y, cap);
    assert(after_y[0] == y);
}

/// When no offer repeats the newest entry of its moment, a sequence of offers
/// keeps exactly the `cap` most recently offered entries, newest first: the
/// batch (newest first) followed by the earlier history, cut to `cap`.
pub proof fn lemma_merge_keeps_newest(s: Seq<ClipboardEntry>, batch: Seq<ClipboardEntry>, cap: nat)
    requires
        s.len() <= cap,
        no_adjacent_repeats(batch),
        batch.len() == 0 || !repeats_head(s, batch.last()),
    ensures
        merged(s, batch, cap) == truncated(batch + s, cap),
    decreases batch.len(),
{
    if batch.len() == 0 {
        assert(batch + s =~= s);
    } else {
        let x = batch.last();
        let rest = batch.drop_last();
        let s1 = inserted(s, x, cap);
        assert(s1 == truncated(seq![x] + s, cap));
        if rest.len() > 0 && cap > 0 {
            assert(rest.last() == batch[batch.len() - 2]);
            assert(s1[0] == x);
        }
        assert forall|i: int| 0 <= i < rest.len() - 1 implies #[trigger] rest[i].content@ != rest[i + 1].content@ by {
            assert(rest[i] == batch[i] && rest[i + 1] == batch[i + 1]);
        }
        lemma_merge_keeps_newest(s1, rest, cap);
        lemma_truncated_append(rest, seq![x] + s, cap);
        assert(rest + (seq![x] + s) =~= batch + s);
    }
}

/// Importing a batch (newest first) into an empty history yields the batch in
/// the same order, when no two neighbours of the batch repeat each other and
/// it fits the capacity.
pub proof fn lemma_import_into_empty(batch: Seq<ClipboardEntry>, cap: nat)
    requires
        no_adjacent_repeats(batch),
        batch.len() <= cap,
    ensures
        merged(Seq::<ClipboardEntry>::empty(), batch, cap) == batch,
{
    lemma_merge_keeps_newest(Seq::<ClipboardEntry>::empty(), batch, cap);
    assert(batch + Seq::<ClipboardEntry>::empty() =~= batch);
}

/// The clipboard history, newest entry first, never longer than its capacity.
pub struct ClipboardHistory {
    entries: Vec<ClipboardEntry>,
    max_entries: usize,
}

impl View for ClipboardHistory {
    type V = Seq<ClipboardEntry>;

    closed spec fn view(&self) -> Seq<ClipboardEntry> {
        self.entries@
    }
}

impl ClipboardHistory {
    /// The most entries the history keeps.
    pub closed spec fn cap(&self) -> nat {
        self.max_entries as nat
    }

    pub open spec fn wf(&self) -> bool {
        self@.len() <= self.cap()
    }

    /// An empty history of the default capacity.
    pub fn new() -> (r: ClipboardHistory)
        ensures
            r.wf(),
            r@ == Seq::<ClipboardEntry>::empty(),
            r.cap() == DEFAULT_CAPACITY,
    {
        ClipboardHistory::with_capacity(DEFAULT_CAPACITY)
    }

    /// An empty history that keeps at most `max_entries` entries.
    pub fn with_capacity(max_entries: usize) -> (r: ClipboardHistory)
        ensures
            r.wf(),
            r@ == Seq::<ClipboardEntry>::empty(),
            r.cap() == max_entries,
    {
        ClipboardHistory { entries: Vec::new(), max_entries }
    }

    /// The entries, newest first.
    pub fn entries(&self) -> (r: &[ClipboardEntry])
        ensures
            r@ == self@,
    {
        self.entries.as_slice()
    }

    pub fn len(&self) -> (r: usize)
        ensures
            r == self@.len(),
    {
        self.entries.len()
    }

    pub fn capacity(&self) -> (r: usize)
        ensures
            r == self.cap(),
    {
        self.max_entries
    }

    /// Puts `entry` at the front unless its content equals that of the
    /// newest entry; drops the oldest entries beyond the capacity. Returns
    /// whether the entry was added.
    pub fn insert_front(&mut self, entry: ClipboardEntry) -> (added: bool)
        requires
            old(self).wf(),
        ensures
            final(self).wf(),
            final(self).cap() == old(self).cap(),
            final(self)@ == inserted(old(self)@, entry, old(self).cap()),
            added == !repeats_head(old(self)@, entry),
    {
        if self.entries.len() > 0 && self.entries[0].content.same_as(&entry.content) {
            return false;
        }
        self.entries.insert(0, entry);
        if self.entries.len() > self.max_entries {
            self.entries.truncate(self.max_entries);
        }
        proof {
            assert(old(self)@.insert(0, entry) =~= seq![entry] + old(self)@);
        }
        true
    }

    /// Records `content` from `source` at the current time, as `insert_front`
    /// does. Returns whether it was added.
    pub fn add_entry_with_source(&mut self, content: ClipboardContent, source: String) -> (added: bool)
        requires
            old(self).wf(),
        ensures
            final(self).wf(),
            final(self).cap() == old(self).cap(),
            exists|e: ClipboardEntry|
                e.content@ == content@ && e.source@ == source@ && e.raw_id.is_none()
                    && final(self)@ == #[trigger] inserted(old(self)@, e, old(self).cap())
                    && added == !repeats_head(old(self)@, e),
    {
        let entry = ClipboardEntry::new(content, Some(source));
        let ghost e = entry;
        let added = self.insert_front(entry);
        assert(final(self)@ == inserted(old(self)@, e, old(self).cap()));
        added
    }

    /// Offers the entries of `batch` (newest first) at the front, the oldest
    /// first, each checked only against the newest entry at that moment.
    pub fn merge_import(&mut self, batch: Vec<ClipboardEntry>)
        requires
            old(self).wf(),
        ensures
            final(self).wf(),
            final(self).cap() == old(self).cap(),
            final(self)@ == merged(old(self)@, batch@, old(self).cap()),
    {
        let mut batch = batch;
        let ghost cap = self.cap();
        let ghost goal = merged(self@, batch@, cap);
        while batch.len() > 0
            invariant
                self.wf(),
                self.cap() == cap,
                merged(self@, batch@, cap) == goal,
            decreases batch.len(),
        {
            let ghost before = batch@;
            let entry = batch.pop().unwrap();
            proof {
                assert(before.drop_last() =~= batch@);
            }
            self.insert_front(entry);
        }
    }

    /// Empties the history.
    pub fn clear(&mut self)
        requires
            old(self).wf(),
        ensures
            final(self).wf(),
            final(self).cap() == old(self).cap(),
            final(self)@ == Seq::<ClipboardEntry>::empty(),
    {
        self.entries.clear();
    }
}

} // verus!
