//! The capability of bulk-importing earlier clipboard entries from an outside
//! source.

use vstd::prelude::*;
use crate::entry::ClipboardContent;

verus! {

/// A source of earlier clipboard entries: a command-line tool, a file, a daemon.
/// `list_entries` gives `(raw id, content)` pairs, newest first, or an error
/// message.
pub trait IClipboardProvider {
    fn name(&self) -> &'static str;

    fn list_entries(&self) -> Result<Vec<(Option<String>, ClipboardContent)>, String>;
}

} // verus!
