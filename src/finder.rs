//! The finder state: the full item list, the query being edited with its
//! cursor, the filtered view, the selection within it and the first visible
//! row. Every operation keeps the view derived from the items and the query,
//! the selection inside the view and the scroll window around the selection.

use vstd::prelude::*;
use crate::matcher::{filter_items, filter_view, fuzzy_match, texts};

verus! {

/// The number of item rows a new finder shows at once.
pub const DEFAULT_PAGE_SIZE: usize = 10;

/// The abstract state of a finder.
pub struct FinderModel {
    pub items: Seq<Seq<char>>,
    pub filtered: Seq<Seq<char>>,
    pub query: Seq<char>,
    pub cursor: nat,
    pub selected: nat,
    pub scroll: nat,
    pub page: nat,
    pub status: Option<Seq<char>>,
    pub error: Option<Seq<char>>,
}

/// The text of an optional string.
pub open spec fn opt_text(o: Option<String>) -> Option<Seq<char>> {
    match o {
        Some(s) => Some(s@),
        None => None,
    }
}

/// The selection after the view shrank to `len` items: kept when still in
/// range, else the last item, or 0 when the view is empty.
pub open spec fn clamp_selection(sel: nat, len: nat) -> nat {
    if sel >= len {
        if len == 0 {
            0
        } else {
            (len - 1) as nat
        }
    } else {
        sel
    }
}

/// The first visible row moved by the least amount that brings `sel` into
/// a window of `page` rows.
pub open spec fn clamp_scroll(scroll: nat, sel: nat, page: nat) -> nat {
    if sel < scroll {
        sel
    } else if sel >= scroll + page {
        (sel - page + 1) as nat
    } else {
        scroll
    }
}

/// The state invariant.
pub open spec fn inv(m: FinderModel) -> bool {
    &&& m.filtered == filter_view(m.items, m.query)
    &&& m.cursor <= m.query.len()
    &&& m.page >= 1
    &&& m.filtered.len() > 0 ==> m.selected < m.filtered.len() && m.scroll <= m.selected
        && m.selected < m.scroll + m.page
    &&& m.filtered.len() == 0 ==> m.selected == 0 && m.scroll == 0
}

/// The state after the items or the query changed: the view recomputed,
/// then the selection and the scroll window clamped.
pub open spec fn refreshed(m: FinderModel, items: Seq<Seq<char>>, query: Seq<char>) -> FinderModel {
    let filtered = filter_view(items, query);
    let sel = clamp_selection(m.selected, filtered.len());
    FinderModel {
        items,
        query,
        filtered,
        selected: sel,
        scroll: clamp_scroll(m.scroll, sel, m.page),
        ..m
    }
}

/// A character inserted at the cursor, the cursor moved past it.
pub open spec fn inserted(m: FinderModel, c: char) -> FinderModel {
    refreshed(
        FinderModel { cursor: m.cursor + 1, ..m },
        m.items,
        m.query.insert(m.cursor as int, c),
    )
}

/// The character before the cursor removed, if there is one.
pub open spec fn deleted_before(m: FinderModel) -> FinderModel {
    if m.cursor > 0 {
        refreshed(
            FinderModel { cursor: (m.cursor - 1) as nat, ..m },
            m.items,
            m.query.remove(m.cursor - 1),
        )
    } else {
        m
    }
}

/// The character at the cursor removed, if there is one.
pub open spec fn deleted_at(m: FinderModel) -> FinderModel {
    if m.cursor < m.query.len() {
        refreshed(m, m.items, m.query.remove(m.cursor as int))
    } else {
        m
    }
}

/// The cursor moved one place left, stopping at the start.
pub open spec fn cursor_left(m: FinderModel) -> FinderModel {
    if m.cursor > 0 {
        FinderModel { cursor: (m.cursor - 1) as nat, ..m }
    } else {
        m
    }
}

/// The cursor moved one place right, stopping at the end.
pub open spec fn cursor_right(m: FinderModel) -> FinderModel {
    if m.cursor < m.query.len() {
        FinderModel { cursor: m.cursor + 1, ..m }
    } else {
        m
    }
}

/// The selection moved one item up, scrolling up if it left the window.
pub open spec fn selection_up(m: FinderModel) -> FinderModel {
    if m.filtered.len() > 0 && m.selected > 0 {
        let sel = (m.selected - 1) as nat;
        FinderModel { selected: sel, scroll: if sel < m.scroll { sel } else { m.scroll }, ..m }
    } else {
        m
    }
}

/// The selection moved one item down, scrolling down if it left the window.
pub open spec fn selection_down(m: FinderModel) -> FinderModel {
    if m.filtered.len() > 0 && m.selected + 1 < m.filtered.len() {
        let sel = m.selected + 1;
        FinderModel {
            selected: sel,
            scroll: if sel >= m.scroll + m.page { (sel - m.page + 1) as nat } else { m.scroll },
            ..m
        }
    } else {
        m
    }
}

/// A key event, as the session loop hands it to the finder.
#[derive(Debug, Clone, Copy, PartialEq, Eq, Structural)]
pub enum KeyInput {
    Char(char),
    Enter,
    Backspace,
    Up,
    Down,
    Left,
    Right,
    Delete,
    Home,
    End,
    Cancel,
    Other,
}

/// What the session does after a key: go on, end with the selected line,
/// or end without a result.
#[derive(Debug, PartialEq, Eq)]
pub enum KeyOutcome {
    Continue,
    Selected(String),
    Cancelled,
}

/// The state after a key other than confirm and cancel.
pub open spec fn key_step(m: FinderModel, key: KeyInput) -> FinderModel {
    match key {
        KeyInput::Char(c) => inserted(m, c),
        KeyInput::Backspace => deleted_before(m),
        KeyInput::Delete => deleted_at(m),
        KeyInput::Up => selection_up(m),
        KeyInput::Down => selection_down(m),
        KeyInput::Left => cursor_left(m),
        KeyInput::Right => cursor_right(m),
        KeyInput::Home => FinderModel { cursor: 0, ..m },
        KeyInput::End => FinderModel { cursor: m.query.len(), ..m },
        _ => m,
    }
}

/// Recomputing the view and clamping establish the invariant for any item
/// list and query, whatever the selection and the scroll window were.
pub proof fn lemma_refreshed_inv(m: FinderModel, items: Seq<Seq<char>>, query: Seq<char>)
    requires
        m.page >= 1,
        m.cursor <= query.len(),
    ensures
        inv(refreshed(m, items, query)),
{
}

/// Every key keeps the invariant: when the view is non-empty the selection
/// lies inside it and inside the scroll window, and the cursor stays within
/// the query.
pub proof fn lemma_key_step_inv(m: FinderModel, key: KeyInput)
    requires
        inv(m),
    ensures
        inv(key_step(m, key)),
{
    match key {
        KeyInput::Char(c) => lemma_refreshed_inv(
            FinderModel { cursor: m.cursor + 1, ..m },
            m.items,
            m.query.insert(m.cursor as int, c),
        ),
        KeyInput::Backspace => {
            if m.cursor > 0 {
                lemma_refreshed_inv(
                    FinderModel { cursor: (m.cursor - 1) as nat, ..m },
                    m.items,
                    m.query.remove(m.cursor - 1),
                );
            }
        },
        KeyInput::Delete => {
            if m.cursor < m.query.len() {
                lemma_refreshed_inv(m, m.items, m.query.remove(m.cursor as int));
            }
        },
        _ => {},
    }
}

/// Replacing the items keeps the invariant.
pub proof fn lemma_update_items_inv(m: FinderModel, items: Seq<Seq<char>>)
    requires
        inv(m),
    ensures
        inv(refreshed(m, items, m.query)),
{
    lemma_refreshed_inv(m, items, m.query);
}

/// Setting the same items again, with the query unchanged, leaves the state
/// as it was.
pub proof fn lemma_update_items_same(m: FinderModel)
    requires
        inv(m),
    ensures
        refreshed(m, m.items, m.query) == m,
{
}

/// After new items, a selection still inside the new view is kept, and one
/// past its end moves to the last item, or to 0 when the view is empty.
pub proof fn lemma_update_items_selection(m: FinderModel, items: Seq<Seq<char>>)
    requires
        inv(m),
    ensures
        ({
            let n = filter_view(items, m.query).len();
            let r = refreshed(m, items, m.query);
            &&& m.selected < n ==> r.selected == m.selected
            &&& m.selected >= n && n > 0 ==> r.selected == n - 1
            &&& n == 0 ==> r.selected == 0
            &&& m.selected < n && m.scroll <= m.selected < m.scroll + m.page ==> r.scroll == m.scroll
        }),
{
}

/// `idx` picks, in increasing positions of `items`, the elements of `sub`.
pub open spec fn picks(idx: Seq<int>, sub: Seq<Seq<char>>, items: Seq<Seq<char>>) -> bool {
    &&& idx.len() == sub.len()
    &&& forall|i: int| 0 <= i < idx.len() ==> 0 <= #[trigger] idx[i] < items.len() && sub[i] == items[idx[i]]
    &&& forall|i: int, j: int| 0 <= i < j < idx.len() ==> #[trigger] idx[i] < #[trigger] idx[j]
}

/// The filtered view holds items of the list, in the list's order: it is
/// the list with some items left out.
pub proof fn lemma_filter_subsequence(items: Seq<Seq<char>>, q: Seq<char>)
    ensures
        exists|idx: Seq<int>| #[trigger] picks(idx, filter_view(items, q), items),
    decreases items.len(),
{
    if items.len() == 0 {
        let idx: Seq<int> = Seq::empty();
        assert(picks(idx, filter_view(items, q), items));
    } else {
        let rest = items.drop_last();
        lemma_filter_subsequence(rest, q);
        let idx0: Seq<int> = choose|idx: Seq<int>| #[trigger] picks(idx, filter_view(rest, q), rest);
        if fuzzy_match(q, items.last()) {
            let idx = idx0.push(items.len() - 1);
            assert(forall|i: int| 0 <= i < idx0.len() ==> idx[i] == idx0[i]);
            assert(picks(idx, filter_view(items, q), items));
        } else {
            assert(picks(idx0, filter_view(items, q), items));
        }
    }
}

/// The interactive finder over a list of display lines.
pub struct FuzzyFinder {
    items: Vec<String>,
    filtered_items: Vec<String>,
    query: Vec<char>,
    cursor_pos: usize,
    selected_index: usize,
    max_display: usize,
    scroll_offset: usize,
    status_message: Option<String>,
    error_message: Option<String>,
}

impl View for FuzzyFinder {
    type V = FinderModel;

    closed spec fn view(&self) -> FinderModel {
        FinderModel {
            items: texts(self.items@),
            filtered: texts(self.filtered_items@),
            query: self.query@,
            cursor: self.cursor_pos as nat,
            selected: self.selected_index as nat,
            scroll: self.scroll_offset as nat,
            page: self.max_display as nat,
            status: opt_text(self.status_message),
            error: opt_text(self.error_message),
        }
    }
}

proof fn lemma_empty_query_keeps_all(items: Seq<Seq<char>>)
    ensures
        filter_view(items, Seq::empty()) == items,
    decreases items.len(),
{
    if items.len() > 0 {
        lemma_empty_query_keeps_all(items.drop_last());
        assert(fuzzy_match(Seq::empty(), items.last()));
        assert(items.drop_last().push(items.last()) =~= items);
    }
}

impl FuzzyFinder {
    /// The state invariant holds.
    pub open spec fn wf(&self) -> bool {
        inv(self@)
    }

    /// A finder over `items` with an empty query: every item is shown, the
    /// first one selected.
    pub fn new(items: Vec<String>) -> (r: Self)
        ensures
            r.wf(),
            r@ == (FinderModel {
                items: texts(items@),
                filtered: texts(items@),
                query: Seq::empty(),
                cursor: 0,
                selected: 0,
                scroll: 0,
                page: DEFAULT_PAGE_SIZE as nat,
                status: None,
                error: None,
            }),
    {
        let mut r = FuzzyFinder {
            items,
            filtered_items: Vec::new(),
            query: Vec::new(),
            cursor_pos: 0,
            selected_index: 0,
            max_display: DEFAULT_PAGE_SIZE,
            scroll_offset: 0,
            status_message: None,
            error_message: None,
        };
        proof {
            lemma_empty_query_keeps_all(texts(r.items@));
        }
        r.update_filter();
        r
    }

    /// Recomputes the view from the items and the query, then clamps the
    /// selection and the scroll window. Whatever the selection and the
    /// scroll window were, the view is fresh afterwards and the selection
    /// lies inside it and inside the window.
    pub fn update_filter(&mut self)
        requires
            old(self)@.page >= 1,
            old(self)@.cursor <= old(self)@.query.len(),
        ensures
            final(self)@ == refreshed(old(self)@, old(self)@.items, old(self)@.query),
            final(self).wf(),
            final(self)@.filtered == filter_view(old(self)@.items, old(self)@.query),
            final(self)@.items == old(self)@.items,
            final(self)@.query == old(self)@.query,
            final(self)@.cursor == old(self)@.cursor,
            final(self)@.filtered.len() > 0 ==> final(self)@.selected < final(self)@.filtered.len()
                && final(self)@.scroll <= final(self)@.selected
                && final(self)@.selected < final(self)@.scroll + final(self)@.page,
            final(self)@.filtered.len() == 0 ==> final(self)@.selected == 0,
    {
        self.filtered_items = filter_items(&self.items, &self.query);
        if self.selected_index >= self.filtered_items.len() {
            self.selected_index = if self.filtered_items.len() == 0 {
                0
            } else {
                self.filtered_items.len() - 1
            };
        }
        if self.selected_index < self.scroll_offset {
            self.scroll_offset = self.selected_index;
        } else if self.selected_index - self.scroll_offset >= self.max_display {
            self.scroll_offset = self.selected_index - self.max_display + 1;
        }
    }

    /// Replaces the item list and refreshes the view against the current query.
    pub fn update_items(&mut self, new_items: Vec<String>)
        requires
            old(self).wf(),
        ensures
            final(self).wf(),
            final(self)@ == refreshed(old(self)@, texts(new_items@), old(self)@.query),
    {
        self.items = new_items;
        self.update_filter();
    }

    /// Sets or clears the status message.
    pub fn set_status_message(&mut self, message: Option<String>)
        requires
            old(self).wf(),
        ensures
            final(self).wf(),
            final(self)@ == (FinderModel { status: opt_text(message), ..old(self)@ }),
    {
        self.status_message = message;
    }

    /// Sets or clears the error message.
    pub fn set_error_message(&mut self, message: Option<String>)
        requires
            old(self).wf(),
        ensures
            final(self).wf(),
            final(self)@ == (FinderModel { error: opt_text(message), ..old(self)@ }),
    {
        self.error_message = message;
    }

    /// Moves the selection one item up.
    pub fn move_cursor_up(&mut self)
        requires
            old(self).wf(),
        ensures
            final(self).wf(),
            final(self)@ == selection_up(old(self)@),
    {
        if self.filtered_items.len() > 0 && self.selected_index > 0 {
            self.selected_index = self.selected_index - 1;
            if self.selected_index < self.scroll_offset {
                self.scroll_offset = self.selected_index;
            }
        }
    }

    /// Moves the selection one item down.
    pub fn move_cursor_down(&mut self)
        requires
            old(self).wf(),
        ensures
            final(self).wf(),
            final(self)@ == selection_down(old(self)@),
    {
        if self.filtered_items.len() > 0 && self.selected_index < self.filtered_items.len() - 1 {
            self.selected_index = self.selected_index + 1;
            if self.selected_index - self.scroll_offset >= self.max_display {
                self.scroll_offset = self.selected_index - self.max_display + 1;
            }
        }
    }
    /// Sets the number of rows the scroll window holds (at least one), then
    /// moves the window by the least amount that keeps the selection in it.
    pub fn set_page_size(&mut self, page: usize)
        requires
            old(self).wf(),
        ensures
            final(self).wf(),
            final(self)@ == ({
                let p = if page == 0 { 1 } else { page as nat };
                FinderModel {
                    page: p,
                    scroll: clamp_scroll(old(self)@.scroll, old(self)@.selected, p),
                    ..old(self)@
                }
            }),
    {
        self.max_display = if page == 0 { 1 } else { page };
        if self.selected_index < self.scroll_offset {
            self.scroll_offset = self.selected_index;
        } else if self.selected_index - self.scroll_offset >= self.max_display {
            self.scroll_offset = self.selected_index - self.max_display + 1;
        }
    }

    /// Inserts a character at the cursor and moves the cursor past it.
    pub fn insert_char(&mut self, c: char)
        requires
            old(self).wf(),
            old(self)@.query.len() < usize::MAX,
        ensures
            final(self).wf(),
            final(self)@ == inserted(old(self)@, c),
    {
        self.query.insert(self.cursor_pos, c);
        self.cursor_pos = self.cursor_pos + 1;
        self.update_filter();
    }

    /// Removes the character before the cursor, if any, and moves the cursor back.
    pub fn delete_before_cursor(&mut self)
        requires
            old(self).wf(),
        ensures
            final(self).wf(),
            final(self)@ == deleted_before(old(self)@),
    {
        if self.query.len() > 0 && self.cursor_pos > 0 {
            self.query.remove(self.cursor_pos - 1);
            self.cursor_pos = self.cursor_pos - 1;
            self.update_filter();
        }
    }

    /// Removes the character at the cursor, if any; the cursor stays.
    pub fn delete_at_cursor(&mut self)
        requires
            old(self).wf(),
        ensures
            final(self).wf(),
            final(self)@ == deleted_at(old(self)@),
    {
        if self.query.len() > 0 && self.cursor_pos < self.query.len() {
            self.query.remove(self.cursor_pos);
            self.update_filter();
        }
    }

    /// Moves the query cursor one place left.
    pub fn move_cursor_left(&mut self)
        requires
            old(self).wf(),
        ensures
            final(self).wf(),
            final(self)@ == cursor_left(old(self)@),
    {
        if self.cursor_pos > 0 {
            self.cursor_pos = self.cursor_pos - 1;
        }
    }

    /// Moves the query cursor one place right.
    pub fn move_cursor_right(&mut self)
        requires
            old(self).wf(),
        ensures
            final(self).wf(),
            final(self)@ == cursor_right(old(self)@),
    {
        if self.cursor_pos < self.query.len() {
            self.cursor_pos = self.cursor_pos + 1;
        }
    }

    /// Moves the query cursor to the start.
    pub fn move_cursor_home(&mut self)
        requires
            old(self).wf(),
        ensures
            final(self).wf(),
            final(self)@ == (FinderModel { cursor: 0, ..old(self)@ }),
    {
        self.cursor_pos = 0;
    }

    /// Moves the query cursor to the end.
    pub fn move_cursor_end(&mut self)
        requires
            old(self).wf(),
        ensures
            final(self).wf(),
            final(self)@ == (FinderModel { cursor: old(self)@.query.len(), ..old(self)@ }),
    {
        self.cursor_pos = self.query.len();
    }

    /// The selected line, or `None` when the view is empty.
    pub fn current_selection(&self) -> (r: Option<String>)
        requires
            self.wf(),
        ensures
            self@.filtered.len() == 0 ==> r is None,
            self@.filtered.len() > 0 ==> r is Some && r->0@ == self@.filtered[self@.selected as int],
    {
        if self.filtered_items.len() == 0 {
            None
        } else {
            Some(self.filtered_items[self.selected_index].clone())
        }
    }

    /// Applies one key: confirm yields the selected line when there is one
    /// and is ignored otherwise, cancel ends the session, every other key
    /// edits the query or moves the cursor or the selection.
    pub fn handle_key(&mut self, key: KeyInput) -> (r: KeyOutcome)
        requires
            old(self).wf(),
            key is Char ==> old(self)@.query.len() < usize::MAX,
        ensures
            final(self).wf(),
            key == KeyInput::Enter ==> final(self)@ == old(self)@ && (if old(self)@.filtered.len() > 0 {
                r matches KeyOutcome::Selected(s) && s@ == old(self)@.filtered[old(self)@.selected as int]
            } else {
                r is Continue
            }),
            key == KeyInput::Cancel ==> final(self)@ == old(self)@ && r is Cancelled,
            key != KeyInput::Enter && key != KeyInput::Cancel ==> final(self)@ == key_step(old(self)@, key)
                && r is Continue,
    {
        match key {
            KeyInput::Enter => {
                match self.current_selection() {
                    Some(s) => KeyOutcome::Selected(s),
                    None => KeyOutcome::Continue,
                }
            },
            KeyInput::Cancel => KeyOutcome::Cancelled,
            KeyInput::Char(c) => {
                self.insert_char(c);
                KeyOutcome::Continue
            },
            KeyInput::Backspace => {
                self.delete_before_cursor();
                KeyOutcome::Continue
            },
            KeyInput::Delete => {
                self.delete_at_cursor();
                KeyOutcome::Continue
            },
            KeyInput::Up => {
                self.move_cursor_up();
                KeyOutcome::Continue
            },
            KeyInput::Down => {
                self.move_cursor_down();
                KeyOutcome::Continue
            },
            KeyInput::Left => {
                self.move_cursor_left();
                KeyOutcome::Continue
            },
            KeyInput::Right => {
                self.move_cursor_right();
                KeyOutcome::Continue
            },
            KeyInput::Home => {
                self.move_cursor_home();
                KeyOutcome::Continue
            },
            KeyInput::End => {
                self.move_cursor_end();
                KeyOutcome::Continue
            },
            KeyInput::Other => KeyOutcome::Continue,
        }
    }

    /// The full item list.
    pub fn items(&self) -> (r: &Vec<String>)
        ensures
            texts(r@) == self@.items,
    {
        &self.items
    }

    /// The items that match the current query, in list order.
    pub fn filtered_items(&self) -> (r: &Vec<String>)
        ensures
            texts(r@) == self@.filtered,
    {
        &self.filtered_items
    }

    /// The query text.
    pub fn query(&self) -> (r: &Vec<char>)
        ensures
            r@ == self@.query,
    {
        &self.query
    }

    /// The cursor position within the query.
    pub fn cursor_pos(&self) -> (r: usize)
        ensures
            r == self@.cursor,
    {
        self.cursor_pos
    }

    /// The index of the selected line within the filtered view.
    pub fn selected_index(&self) -> (r: usize)
        ensures
            r == self@.selected,
    {
        self.selected_index
    }

    /// The index of the first visible line of the filtered view.
    pub fn scroll_offset(&self) -> (r: usize)
        ensures
            r == self@.scroll,
    {
        self.scroll_offset
    }

    /// The number of lines the scroll window holds.
    pub fn page_size(&self) -> (r: usize)
        ensures
            r == self@.page,
    {
        self.max_display
    }

    /// The status message, if one is set.
    pub fn status_message(&self) -> (r: &Option<String>)
        ensures
            opt_text(*r) == self@.status,
    {
        &self.status_message
    }

    /// The error message, if one is set.
    pub fn error_message(&self) -> (r: &Option<String>)
        ensures
            opt_text(*r) == self@.error,
    {
        &self.error_message
    }
}

} // verus!
