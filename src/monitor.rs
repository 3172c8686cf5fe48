//! The clipboard monitor: sole owner and writer of the history, fed by live
//! clipboard text and by imports from a provider.

use vstd::prelude::*;
use vstd::string::*;
use crate::entry::{copy_opt_text, opt_text, ClipboardContent, ClipboardEntry, ContentView, UNKNOWN_SOURCE};
use crate::history::{inserted, merged, ClipboardHistory};

verus! {

/// Whether `e` is the entry made for the listed item `item`, imported from
/// `source` at time `now`.
pub open spec fn imported_as(
    e: ClipboardEntry,
    item: (Option<String>, ClipboardContent),
    source: Seq<char>,
    now: i64,
) -> bool {
    &&& e.content@ == item.1@
    &&& opt_text(e.raw_id) == opt_text(item.0)
    &&& e.source@ == source
    &&& e.timestamp == now
}

/// Whether `b` is the batch made for the listed items `items`, all imported
/// from `source` at time `now`, in the same order.
pub open spec fn imported_batch(
    b: Seq<ClipboardEntry>,
    items: Seq<(Option<String>, ClipboardContent)>,
    source: Seq<char>,
    now: i64,
) -> bool {
    &&& b.len() == items.len()
    &&& forall|i: int| 0 <= i < b.len() ==> imported_as(#[trigger] b[i], items[i], source, now)
}

/// Owns the clipboard history; the only code that changes it.
pub struct ClipboardMonitor {
    history: ClipboardHistory,
}

impl ClipboardMonitor {
    pub closed spec fn history_spec(&self) -> ClipboardHistory {
        self.history
    }

    pub open spec fn wf(&self) -> bool {
        self.history_spec().wf()
    }

    /// A monitor with an empty history of the default capacity.
    pub fn new() -> (r: ClipboardMonitor)
        ensures
            r.wf(),
            r.history_spec()@ == Seq::<ClipboardEntry>::empty(),
            r.history_spec().cap() == crate::history::DEFAULT_CAPACITY,
    {
        ClipboardMonitor { history: ClipboardHistory::new() }
    }

    /// Read access to the history.
    pub fn history(&self) -> (r: &ClipboardHistory)
        ensures
            *r == self.history_spec(),
    {
        &self.history
    }

    /// Handles text read from the system clipboard: non-empty text is offered
    /// at the front of the history with the source "Unknown". Returns whether
    /// the text was non-empty, that is whether listeners are to be told.
    pub fn record_clipboard_text(&mut self, text: String) -> (notify: bool)
        requires
            old(self).wf(),
        ensures
            final(self).wf(),
            final(self).history_spec().cap() == old(self).history_spec().cap(),
            notify == (text@.len() > 0),
            !notify ==> final(self).history_spec()@ == old(self).history_spec()@,
            notify ==> exists|e: ClipboardEntry|
                e.content@ == ContentView::Text(text@) && e.source@ == UNKNOWN_SOURCE@
                    && e.raw_id.is_none()
                    && final(self).history_spec()@ == #[trigger] inserted(
                    old(self).history_spec()@,
                    e,
                    old(self).history_spec().cap(),
                ),
    {
        if text.as_str().unicode_len() == 0 {
            return false;
        }
        self.history.add_entry_with_source(ClipboardContent::Text(text), String::from_str(UNKNOWN_SOURCE));
        true
    }

    /// The entries made for listed items, in their order, all from `source`
    /// and stamped `now`.
    pub fn entries_from_records(
        items: &Vec<(Option<String>, ClipboardContent)>,
        source: &str,
        now: i64,
    ) -> (r: Vec<ClipboardEntry>)
        ensures
            r@.len() == items@.len(),
            forall|i: int| 0 <= i < r@.len() ==> imported_as(#[trigger] r@[i], items@[i], source@, now),
    {
        let mut out: Vec<ClipboardEntry> = Vec::new();
        let mut i: usize = 0;
        while i < items.len()
            invariant
                i <= items@.len(),
                out@.len() == i,
                forall|k: int| 0 <= k < i ==> imported_as(#[trigger] out@[k], items@[k], source@, now),
            decreases items@.len() - i,
        {
            let item = &items[i];
            let entry = ClipboardEntry::with_timestamp(
                item.1.duplicate(),
                Some(String::from_str(source)),
                copy_opt_text(&item.0),
                now,
            );
            out.push(entry);
            i = i + 1;
        }
        out
    }

    /// Merges listed items (newest first) from provider `source` into the
    /// history, each stamped `now`.
    pub fn import_entries(
        &mut self,
        source: &str,
        items: &Vec<(Option<String>, ClipboardContent)>,
        now: i64,
    )
        requires
            old(self).wf(),
        ensures
            final(self).wf(),
            final(self).history_spec().cap() == old(self).history_spec().cap(),
            exists|b: Seq<ClipboardEntry>|
                #[trigger] imported_batch(b, items@, source@, now)
                    && final(self).history_spec()@ == merged(
                    old(self).history_spec()@,
                    b,
                    old(self).history_spec().cap(),
                ),
    {
        let batch = Self::entries_from_records(items, source, now);
        let ghost b = batch@;
        self.history.merge_import(batch);
        assert(imported_batch(b, items@, source@, now));
    }

    /// Applies what a provider's listing gave: on success the items are merged
    /// as `import_entries` does, stamped with the current time; on failure the
    /// history is left as it was and the provider's message is handed back.
    pub fn load_history(
        &mut self,
        source: &str,
        listing: Result<Vec<(Option<String>, ClipboardContent)>, String>,
    ) -> (r: Result<(), String>)
        requires
            old(self).wf(),
        ensures
            final(self).wf(),
            final(self).history_spec().cap() == old(self).history_spec().cap(),
            listing is Err ==> (r matches Err(m) && listing matches Err(m0) && m == m0
                && final(self).history_spec()@ == old(self).history_spec()@),
            listing matches Ok(items) ==> (r is Ok && exists|b: Seq<ClipboardEntry>, now: i64|
                #[trigger] imported_batch(b, items@, source@, now)
                    && final(self).history_spec()@ == merged(
                    old(self).history_spec()@,
                    b,
                    old(self).history_spec().cap(),
                )),
    {
        match listing {
            Ok(items) => {
                let now = crate::entry::current_time();
                self.import_entries(source, &items, now);
                let ghost b = choose|b: Seq<ClipboardEntry>|
                    #[trigger] imported_batch(b, items@, source@, now)
                        && final(self).history_spec()@ == merged(old(self).history_spec()@, b, old(self).history_spec().cap());
                assert(imported_batch(b, items@, source@, now));
                Ok(())
            },
            Err(message) => Err(message),
        }
    }
}

} // verus!
