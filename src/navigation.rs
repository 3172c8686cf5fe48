//! The navigation/filter model behind the history list: which rows pass the
//! search text, which row is selected, and which row is marked as the text
//! last written to the system clipboard.

use vstd::prelude::*;
use crate::entry::{ClipboardContent, ClipboardEntry, ContentView};
use crate::history::ClipboardHistory;
use crate::text::{lowered_chars, row_passes, row_visible};

verus! {

/// A direction to move the selection in.
#[derive(Clone, Copy, Debug, PartialEq, Eq)]
pub enum NavigationDirection {
    Up,
    Down,
}

/// The contents of a sequence of rows.
pub open spec fn contents(rows: Seq<ClipboardContent>) -> Seq<ContentView> {
    rows.map_values(|c: ClipboardContent| c@)
}

/// Which rows pass the search text `filter`.
pub open spec fn visibility(rows: Seq<ContentView>, filter: Seq<char>) -> Seq<bool> {
    Seq::new(rows.len(), |i: int| row_visible(rows[i], filter))
}

/// The first visible row at or after `i`.
pub open spec fn first_visible_from(vis: Seq<bool>, i: int) -> Option<int>
    decreases vis.len() - i,
{
    if i < 0 || i >= vis.len() {
        None
    } else if vis[i] {
        Some(i)
    } else {
        first_visible_from(vis, i + 1)
    }
}

/// The last visible row at or before `i`.
pub open spec fn last_visible_upto(vis: Seq<bool>, i: int) -> Option<int>
    decreases i + 1,
{
    if i < 0 || i >= vis.len() {
        None
    } else if vis[i] {
        Some(i)
    } else {
        last_visible_upto(vis, i - 1)
    }
}

/// The row a move in `dir` goes to from `selected`: the next visible row
/// below or above it, or, with no selection, the first or the last visible row.
pub open spec fn move_target(vis: Seq<bool>, selected: Option<usize>, dir: NavigationDirection) -> Option<int> {
    match (dir, selected) {
        (NavigationDirection::Down, Some(s)) => first_visible_from(vis, s + 1),
        (NavigationDirection::Up, Some(s)) => last_visible_upto(vis, s - 1),
        (NavigationDirection::Down, None) => first_visible_from(vis, 0),
        (NavigationDirection::Up, None) => last_visible_upto(vis, vis.len() - 1),
    }
}

/// The first row at or after `i` that holds the text `t`.
pub open spec fn first_match_from(rows: Seq<ContentView>, t: Seq<char>, i: int) -> Option<int>
    decreases rows.len() - i,
{
    if i < 0 || i >= rows.len() {
        None
    } else if rows[i] == ContentView::Text(t) {
        Some(i)
    } else {
        first_match_from(rows, t, i + 1)
    }
}

/// The row marked as holding the last copied text `current`: the first row,
/// in history order, whose content is that text.
pub open spec fn highlight_for(rows: Seq<ContentView>, current: Option<Seq<char>>) -> Option<int> {
    match current {
        Some(t) => first_match_from(rows, t, 0),
        None => None,
    }
}

/// No row between `i` and the first visible row from `i` is visible.
proof fn lemma_first_visible_skips(vis: Seq<bool>, i: int, j: int)
    requires
        0 <= i,
        first_visible_from(vis, i) == Some(j),
    ensures
        i <= j < vis.len(),
        vis[j],
        forall|k: int| i <= k < j ==> !vis[k],
    decreases vis.len() - i,
{
    if i < vis.len() && !vis[i] {
        lemma_first_visible_skips(vis, i + 1, j);
    }
}

/// No row between the last visible row up to `i` and `i` is visible.
proof fn lemma_last_visible_skips(vis: Seq<bool>, i: int, j: int)
    requires
        i < vis.len(),
        last_visible_upto(vis, i) == Some(j),
    ensures
        0 <= j <= i,
        vis[j],
        forall|k: int| j < k <= i ==> !vis[k],
    decreases i + 1,
{
    if i >= 0 && !vis[i] {
        lemma_last_visible_skips(vis, i - 1, j);
    }
}

/// With no visible row from `i` on, there is no first visible row from `i`.
proof fn lemma_first_visible_none(vis: Seq<bool>, i: int)
    requires
        forall|k: int| i <= k < vis.len() ==> !vis[k],
    ensures
        first_visible_from(vis, i) is None,
    decreases vis.len() - i,
{
    if 0 <= i < vis.len() {
        lemma_first_visible_none(vis, i + 1);
    }
}

/// With no visible row up to `i`, there is no last visible row up to `i`.
proof fn lemma_last_visible_none(vis: Seq<bool>, i: int)
    requires
        forall|k: int| 0 <= k <= i ==> !vis[k],
    ensures
        last_visible_upto(vis, i) is None,
    decreases i + 1,
{
    if 0 <= i < vis.len() {
        lemma_last_visible_none(vis, i - 1);
    }
}

/// Moving up from the first visible row, or down from the last, finds no
/// target: the move reports no movement and the selection stays.
pub proof fn lemma_no_move_past_ends(vis: Seq<bool>, s: usize)
    ensures
        first_visible_from(vis, 0) == Some(s as int) ==> move_target(vis, Some(s), NavigationDirection::Up) is None,
        last_visible_upto(vis, vis.len() - 1) == Some(s as int) ==> move_target(vis, Some(s), NavigationDirection::Down)
            is None,
{
    if first_visible_from(vis, 0) == Some(s as int) {
        lemma_first_visible_skips(vis, 0, s as int);
        lemma_last_visible_none(vis, s - 1);
    }
    if last_visible_upto(vis, vis.len() - 1) == Some(s as int) {
        lemma_last_visible_skips(vis, vis.len() - 1, s as int);
        lemma_first_visible_none(vis, s + 1);
    }
}

/// The first row at or after `i` holding `t` lies at or before any row from
/// `i` on that holds it, and no row before it from `i` on holds it.
proof fn lemma_first_match_from(rows: Seq<ContentView>, t: Seq<char>, i: int, index: int)
    requires
        0 <= i <= index < rows.len(),
        rows[index] == ContentView::Text(t),
    ensures
        first_match_from(rows, t, i) matches Some(j) && i <= j <= index && rows[j] == ContentView::Text(t)
            && forall|k: int| i <= k < j ==> rows[k] != ContentView::Text(t),
    decreases index - i,
{
    if rows[i] != ContentView::Text(t) {
        lemma_first_match_from(rows, t, i + 1, index);
    }
}

/// When the copied text is that of row `index`, exactly one row is marked:
/// the first row, in history order, holding that text.
pub proof fn lemma_single_highlight(rows: Seq<ContentView>, index: int, t: Seq<char>)
    requires
        0 <= index < rows.len(),
        rows[index] == ContentView::Text(t),
    ensures
        highlight_for(rows, Some(t)) matches Some(j) && j <= index && rows[j] == ContentView::Text(t)
            && forall|k: int| 0 <= k < j ==> rows[k] != ContentView::Text(t),
{
    lemma_first_match_from(rows, t, 0, index);
}

/// A key pressed while the history window has the focus, as far as the list
/// cares: a printable character opens the search.
#[derive(Clone, Copy, Debug, PartialEq, Eq)]
pub enum KeyPress {
    Escape,
    Up,
    Down,
    Printable,
    Other,
}

/// What a key press asks of the window: whether the press is consumed, and
/// whether the search is to be shown.
#[derive(Clone, Copy, Debug, PartialEq, Eq)]
pub struct KeyOutcome {
    pub handled: bool,
    pub search_active: bool,
}

/// The state of the history list. The rows are the history's entries in
/// history order; with no entries the list shows only a placeholder row, which
/// takes no selection.
pub struct NavigationModel {
    rows: Vec<ClipboardContent>,
    search_text: String,
    visible: Vec<bool>,
    selected: Option<usize>,
    current_clipboard: Option<String>,
    highlighted: Option<usize>,
}

impl NavigationModel {
    /// The contents of the rows, in history order.
    pub closed spec fn rows_spec(&self) -> Seq<ContentView> {
        contents(self.rows@)
    }

    pub closed spec fn filter_spec(&self) -> Seq<char> {
        self.search_text@
    }

    /// The selected row, by its position in the history.
    pub closed spec fn selection(&self) -> Option<usize> {
        self.selected
    }

    /// The text last written to the system clipboard by this list.
    pub closed spec fn current_spec(&self) -> Option<Seq<char>> {
        crate::entry::opt_text(self.current_clipboard)
    }

    /// The row marked as current.
    pub closed spec fn highlight_spec(&self) -> Option<usize> {
        self.highlighted
    }

    pub open spec fn vis(&self) -> Seq<bool> {
        visibility(self.rows_spec(), self.filter_spec())
    }

    /// Whether the list shows only the placeholder row.
    pub open spec fn is_placeholder(&self) -> bool {
        self.rows_spec().len() == 0
    }

    /// The cached visibility of each row is up to date.
    pub closed spec fn cache_ok(&self) -> bool {
        self.visible@ == self.vis()
    }

    /// The selection is on a visible row, and the marked row is the one that
    /// the copied text calls for.
    pub open spec fn wf(&self) -> bool {
        &&& self.cache_ok()
        &&& (self.selection() matches Some(s) ==> s < self.rows_spec().len() && self.vis()[s as int])
        &&& opt_int(self.highlight_spec()) == highlight_for(self.rows_spec(), self.current_spec())
    }

    /// `self` and `other` have the same rows, search text, copied text and
    /// marked row.
    pub open spec fn same_list(&self, other: &NavigationModel) -> bool {
        &&& self.rows_spec() == other.rows_spec()
        &&& self.filter_spec() == other.filter_spec()
        &&& self.current_spec() == other.current_spec()
        &&& self.highlight_spec() == other.highlight_spec()
    }
}


/// The selection after the search text changed: kept where the row stays
/// visible, else moved to the first visible row, or to none.
pub open spec fn repaired(vis: Seq<bool>, selected: Option<usize>) -> Option<int> {
    match selected {
        Some(s) => if 0 <= s < vis.len() && vis[s as int] { Some(s as int) } else { first_visible_from(vis, 0) },
        None => None,
    }
}

/// The contents of a history's entries.
pub open spec fn entry_contents(entries: Seq<ClipboardEntry>) -> Seq<ContentView> {
    entries.map_values(|e: ClipboardEntry| e.content@)
}

/// An optional row index as an integer.
pub open spec fn opt_int(o: Option<usize>) -> Option<int> {
    match o {
        Some(i) => Some(i as int),
        None => None,
    }
}

/// Which rows pass `filter`.
fn compute_visibility(rows: &Vec<ClipboardContent>, filter: &String) -> (r: Vec<bool>)
    ensures
        r@ == visibility(contents(rows@), filter@),
{
    let lower = lowered_chars(filter.as_str());
    let mut out: Vec<bool> = Vec::new();
    let mut i: usize = 0;
    while i < rows.len()
        invariant
            i <= rows@.len(),
            lower@ == crate::text::lower_of(filter@),
            out@.len() == i,
            forall|k: int| 0 <= k < i ==> out@[k] == row_visible(#[trigger] rows@[k]@, filter@),
        decreases rows@.len() - i,
    {
        out.push(row_passes(&rows[i], filter.as_str(), &lower));
        i = i + 1;
    }
    proof {
        assert(out@ =~= visibility(contents(rows@), filter@));
    }
    out
}

/// The row marked for the copied text `current`.
fn compute_highlight(rows: &Vec<ClipboardContent>, current: &Option<String>) -> (r: Option<usize>)
    ensures
        opt_int(r) == highlight_for(contents(rows@), crate::entry::opt_text(*current)),
        r matches Some(h) ==> h < rows@.len(),
{
    let ghost views = contents(rows@);
    match current {
        None => None,
        Some(t) => {
            let mut i: usize = 0;
            while i < rows.len()
                invariant
                    i <= rows@.len(),
                    views == contents(rows@),
                    crate::entry::opt_text(*current) == Some(t@),
                    first_match_from(views, t@, i as int) == first_match_from(views, t@, 0),
                decreases rows@.len() - i,
            {
                match &rows[i] {
                    ClipboardContent::Text(x) => {
                        if *x == *t {
                            assert(views[i as int] == ContentView::Text(t@));
                            return Some(i);
                        }
                    },
                    ClipboardContent::Image => {},
                }
                i = i + 1;
            }
            None
        },
    }
}

impl NavigationModel {
    /// An empty list: no rows, no search text, nothing selected or marked.
    pub fn new() -> (r: NavigationModel)
        ensures
            r.wf(),
            r.rows_spec() == Seq::<ContentView>::empty(),
            r.filter_spec() == Seq::<char>::empty(),
            r.selection() is None,
            r.current_spec() is None,
            r.highlight_spec() is None,
    {
        let r = NavigationModel {
            rows: Vec::new(),
            search_text: String::new(),
            visible: Vec::new(),
            selected: None,
            current_clipboard: None,
            highlighted: None,
        };
        proof {
            assert(r.rows_spec() =~= Seq::<ContentView>::empty());
            assert(r.visible@ =~= r.vis());
        }
        r
    }

    /// The first visible row at or after `i`.
    fn first_visible(&self, i: usize) -> (r: Option<usize>)
        requires
            self.wf(),
        ensures
            opt_int(r) == first_visible_from(self.vis(), i as int),
            r matches Some(j) ==> j < self.rows_spec().len() && self.vis()[j as int],
    {
        let mut j = i;
        while j < self.visible.len()
            invariant
                self.wf(),
                i <= j,
                first_visible_from(self.vis(), j as int) == first_visible_from(self.vis(), i as int),
            decreases self.visible@.len() - j,
        {
            if self.visible[j] {
                assert(self.vis()[j as int]);
                return Some(j);
            }
            j = j + 1;
        }
        None
    }

    /// The last visible row before `end`.
    fn last_visible_before(&self, end: usize) -> (r: Option<usize>)
        requires
            self.wf(),
            end <= self.rows_spec().len(),
        ensures
            opt_int(r) == last_visible_upto(self.vis(), end - 1),
            r matches Some(j) ==> j < self.rows_spec().len() && self.vis()[j as int],
    {
        let mut j = end;
        assert(self.visible@.len() == self.vis().len());
        while j > 0
            invariant
                self.wf(),
                j <= end,
                end <= self.visible@.len(),
                last_visible_upto(self.vis(), j - 1) == last_visible_upto(self.vis(), end - 1),
            decreases j,
        {
            if self.visible[j - 1] {
                assert(self.vis()[j - 1]);
                return Some(j - 1);
            }
            j = j - 1;
        }
        None
    }

    /// Makes the rows the history's entries, after the history changed; the
    /// search text and the copied text stay. Selects the first visible row,
    /// if any.
    pub fn refresh_list(&mut self, history: &ClipboardHistory)
        requires
            old(self).wf(),
        ensures
            final(self).wf(),
            final(self).rows_spec() == entry_contents(history@),
            final(self).filter_spec() == old(self).filter_spec(),
            final(self).current_spec() == old(self).current_spec(),
            opt_int(final(self).selection()) == first_visible_from(final(self).vis(), 0),
    {
        let entries = history.entries();
        let mut rows: Vec<ClipboardContent> = Vec::new();
        let mut i: usize = 0;
        while i < entries.len()
            invariant
                i <= entries@.len(),
                entries@ == history@,
                rows@.len() == i,
                forall|k: int| 0 <= k < i ==> (#[trigger] rows@[k])@ == entries@[k].content@,
            decreases entries@.len() - i,
        {
            rows.push(entries[i].content.duplicate());
            i = i + 1;
        }
        proof {
            assert(contents(rows@) =~= entry_contents(history@));
        }
        self.visible = compute_visibility(&rows, &self.search_text);
        self.highlighted = compute_highlight(&rows, &self.current_clipboard);
        self.rows = rows;
        self.selected = None;
        self.selected = self.first_visible(0);
    }

    /// Sets the search text and recomputes which rows are visible; a selected
    /// row that is no longer visible gives way to the first visible row, or
    /// to no selection.
    pub fn set_filter(&mut self, text: String)
        requires
            old(self).wf(),
        ensures
            final(self).wf(),
            final(self).filter_spec() == text@,
            final(self).rows_spec() == old(self).rows_spec(),
            final(self).current_spec() == old(self).current_spec(),
            final(self).highlight_spec() == old(self).highlight_spec(),
            opt_int(final(self).selection()) == repaired(final(self).vis(), old(self).selection()),
    {
        self.visible = compute_visibility(&self.rows, &text);
        self.search_text = text;
        match self.selected {
            Some(s) => {
                if !self.visible[s] {
                    self.selected = None;
                    self.selected = self.first_visible(0);
                }
            },
            None => {},
        }
    }

    /// Moves the selection one visible row in `direction`. Returns false, and
    /// changes nothing, when the list shows only the placeholder or no
    /// visible row lies that way.
    pub fn move_selection(&mut self, direction: NavigationDirection) -> (moved: bool)
        requires
            old(self).wf(),
        ensures
            final(self).wf(),
            final(self).same_list(old(self)),
            moved == (!old(self).is_placeholder() && move_target(old(self).vis(), old(self).selection(), direction) is Some),
            moved ==> opt_int(final(self).selection()) == move_target(old(self).vis(), old(self).selection(), direction),
            !moved ==> final(self).selection() == old(self).selection(),
    {
        if self.rows.len() == 0 {
            return false;
        }
        let target = match (direction, self.selected) {
            (NavigationDirection::Down, Some(s)) => self.first_visible(s + 1),
            (NavigationDirection::Up, Some(s)) => self.last_visible_before(s),
            (NavigationDirection::Down, None) => self.first_visible(0),
            (NavigationDirection::Up, None) => self.last_visible_before(self.rows.len()),
        };
        match target {
            Some(t) => {
                self.selected = Some(t);
                true
            },
            None => false,
        }
    }

    /// Selects the first visible row. Returns false, and changes nothing,
    /// when the list shows only the placeholder or no row is visible.
    pub fn select_first_row(&mut self) -> (selected: bool)
        requires
            old(self).wf(),
        ensures
            final(self).wf(),
            final(self).same_list(old(self)),
            selected == (!old(self).is_placeholder() && first_visible_from(old(self).vis(), 0) is Some),
            selected ==> opt_int(final(self).selection()) == first_visible_from(old(self).vis(), 0),
            !selected ==> final(self).selection() == old(self).selection(),
    {
        if self.rows.len() == 0 {
            return false;
        }
        match self.first_visible(0) {
            Some(t) => {
                self.selected = Some(t);
                true
            },
            None => false,
        }
    }

    /// Selects row `i` (a position in the history) when it is visible;
    /// returns whether it did. Otherwise nothing changes.
    pub fn select_row(&mut self, i: usize) -> (selected: bool)
        requires
            old(self).wf(),
        ensures
            final(self).wf(),
            final(self).same_list(old(self)),
            selected == (i < old(self).rows_spec().len() && old(self).vis()[i as int]),
            selected ==> final(self).selection() == Some(i),
            !selected ==> final(self).selection() == old(self).selection(),
    {
        if i < self.visible.len() && self.visible[i] {
            self.selected = Some(i);
            true
        } else {
            false
        }
    }

    /// When the list takes the focus with nothing selected, its first visible
    /// row becomes selected (none with only the placeholder).
    pub fn focus_list(&mut self)
        requires
            old(self).wf(),
        ensures
            final(self).wf(),
            final(self).same_list(old(self)),
            (old(self).selection() is None && !old(self).is_placeholder()) ==> opt_int(final(self).selection())
                == first_visible_from(old(self).vis(), 0),
            !(old(self).selection() is None && !old(self).is_placeholder()) ==> final(self).selection()
                == old(self).selection(),
    {
        if self.selected.is_none() && self.rows.len() > 0 {
            self.selected = self.first_visible(0);
        }
    }

    /// Records `text` as the text last written to the system clipboard and
    /// marks the first row holding it.
    pub fn set_current_clipboard(&mut self, text: String)
        requires
            old(self).wf(),
        ensures
            final(self).wf(),
            final(self).current_spec() == Some(text@),
            final(self).rows_spec() == old(self).rows_spec(),
            final(self).filter_spec() == old(self).filter_spec(),
            final(self).selection() == old(self).selection(),
    {
        self.current_clipboard = Some(text);
        self.highlighted = compute_highlight(&self.rows, &self.current_clipboard);
    }

    /// Activates the row at history position `index`: for a text entry the
    /// text becomes the copied text, its first row is marked, and the text is
    /// returned for writing to the system clipboard. An image entry, or a
    /// position past the rows, changes nothing and returns nothing.
    pub fn activate(&mut self, index: usize) -> (r: Option<String>)
        requires
            old(self).wf(),
        ensures
            final(self).wf(),
            final(self).rows_spec() == old(self).rows_spec(),
            final(self).filter_spec() == old(self).filter_spec(),
            final(self).selection() == old(self).selection(),
            match r {
                Some(t) => index < old(self).rows_spec().len()
                    && old(self).rows_spec()[index as int] == ContentView::Text(t@)
                    && final(self).current_spec() == Some(t@),
                None => (index >= old(self).rows_spec().len()
                    || old(self).rows_spec()[index as int] == ContentView::Image)
                    && final(self).same_list(old(self)),
            },
    {
        if index >= self.rows.len() {
            return None;
        }
        let text = match &self.rows[index] {
            ClipboardContent::Text(t) => t.clone(),
            ClipboardContent::Image => {
                return None;
            },
        };
        self.set_current_clipboard(text.clone());
        Some(text)
    }

    /// Whether `select_first_row` would select a row.
    pub open spec fn can_select_first(&self) -> bool {
        !self.is_placeholder() && first_visible_from(self.vis(), 0) is Some
    }

    /// Whether `move_selection(dir)` would move.
    pub open spec fn can_move(&self, dir: NavigationDirection) -> bool {
        !self.is_placeholder() && move_target(self.vis(), self.selection(), dir) is Some
    }

    /// Handles a key press: with Control, Alt or Super held nothing happens;
    /// Escape closes the search; Down selects the first row when the list
    /// lacks the focus, else moves down; Up moves up; a printable character
    /// opens the search. Arrow keys are consumed only when the selection
    /// changed.
    pub fn handle_key(
        &mut self,
        key: KeyPress,
        modifier_held: bool,
        list_has_focus: bool,
        search_active: bool,
    ) -> (r: KeyOutcome)
        requires
            old(self).wf(),
        ensures
            final(self).wf(),
            final(self).same_list(old(self)),
            (modifier_held || key == KeyPress::Escape || key == KeyPress::Printable || key == KeyPress::Other)
                ==> final(self).selection() == old(self).selection() && !r.handled,
            r.search_active == (if modifier_held {
                search_active
            } else {
                match key {
                    KeyPress::Escape => false,
                    KeyPress::Printable => true,
                    _ => search_active,
                }
            }),
            !modifier_held && key == KeyPress::Up ==> {
                &&& r.handled == old(self).can_move(NavigationDirection::Up)
                &&& r.handled ==> opt_int(final(self).selection()) == move_target(
                    old(self).vis(),
                    old(self).selection(),
                    NavigationDirection::Up,
                )
                &&& !r.handled ==> final(self).selection() == old(self).selection()
            },
            !modifier_held && key == KeyPress::Down && !list_has_focus && old(self).can_select_first() ==> {
                &&& r.handled
                &&& opt_int(final(self).selection()) == first_visible_from(old(self).vis(), 0)
            },
            !modifier_held && key == KeyPress::Down && !(!list_has_focus && old(self).can_select_first()) ==> {
                &&& r.handled == old(self).can_move(NavigationDirection::Down)
                &&& r.handled ==> opt_int(final(self).selection()) == move_target(
                    old(self).vis(),
                    old(self).selection(),
                    NavigationDirection::Down,
                )
                &&& !r.handled ==> final(self).selection() == old(self).selection()
            },
    {
        if modifier_held {
            return KeyOutcome { handled: false, search_active };
        }
        match key {
            KeyPress::Escape => KeyOutcome { handled: false, search_active: false },
            KeyPress::Down => {
                if !list_has_focus && self.select_first_row() {
                    return KeyOutcome { handled: true, search_active };
                }
                let moved = self.move_selection(NavigationDirection::Down);
                KeyOutcome { handled: moved, search_active }
            },
            KeyPress::Up => {
                let moved = self.move_selection(NavigationDirection::Up);
                KeyOutcome { handled: moved, search_active }
            },
            KeyPress::Printable => KeyOutcome { handled: false, search_active: true },
            KeyPress::Other => KeyOutcome { handled: false, search_active },
        }
    }

    /// The number of rows (entries), not counting the placeholder.
    pub fn row_count(&self) -> (r: usize)
        ensures
            r == self.rows_spec().len(),
    {
        self.rows.len()
    }

    /// Whether the list shows only the placeholder row.
    pub fn shows_placeholder(&self) -> (r: bool)
        ensures
            r == self.is_placeholder(),
    {
        self.rows.len() == 0
    }

    /// The selected row, by its position in the history.
    pub fn selected_row(&self) -> (r: Option<usize>)
        ensures
            r == self.selection(),
    {
        self.selected
    }

    /// Whether row `i` passes the search text.
    pub fn is_visible(&self, i: usize) -> (r: bool)
        requires
            self.wf(),
        ensures
            r == (i < self.rows_spec().len() && self.vis()[i as int]),
    {
        i < self.visible.len() && self.visible[i]
    }

    /// Whether row `i` is marked as holding the copied text.
    pub fn is_highlighted(&self, i: usize) -> (r: bool)
        ensures
            r == (self.highlight_spec() == Some(i)),
    {
        match self.highlighted {
            Some(h) => h == i,
            None => false,
        }
    }

    /// The row marked as holding the copied text, if any.
    pub fn highlighted_row(&self) -> (r: Option<usize>)
        ensures
            r == self.highlight_spec(),
    {
        self.highlighted
    }

    pub fn search_text(&self) -> (r: &String)
        ensures
            r@ == self.filter_spec(),
    {
        &self.search_text
    }

    /// The text last written to the system clipboard by this list.
    pub fn current_clipboard(&self) -> (r: Option<String>)
        ensures
            crate::entry::opt_text(r) == self.current_spec(),
    {
        crate::entry::copy_opt_text(&self.current_clipboard)
    }
}

} // verus!
