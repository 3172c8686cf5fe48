//! The stylesheet that marks the row holding the copied text.

use vstd::prelude::*;

verus! {

/// The style class of the row holding the copied text.
pub const CURRENT_CLIPBOARD_CLASS: &'static str = "current-clipboard";

/// The stylesheet for rows with the class `current-clipboard`.
pub const STYLESHEET: &'static str = "listboxrow.current-clipboard {\n  background-color: alpha(@accent_bg_color, 0.15);\n}\nlistboxrow.current-clipboard:selected {\n  background-color: alpha(@accent_bg_color, 0.35);\n}\n";

/// The application's styling: hands out the stylesheet to install on the
/// display.
pub struct StyleService;

impl StyleService {
    pub fn new() -> (r: StyleService) {
        StyleService
    }

    /// The stylesheet to install.
    pub fn stylesheet(&self) -> (r: &'static str)
        ensures
            r@ == STYLESHEET@,
    {
        STYLESHEET
    }
}

impl Default for StyleService {
    fn default() -> (r: StyleService) {
        StyleService::new()
    }
}

} // verus!
