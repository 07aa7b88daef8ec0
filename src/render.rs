//! The frame projection: what one frame shows for a finder state and a
//! terminal size. Item rows fill the top of the screen, two rows above the
//! bottom three hold the status or error message, then come the count line
//! and the query prompt. Nothing here changes the state.

use vstd::prelude::*;
use crate::finder::{FinderModel, FuzzyFinder};
use crate::matcher::texts;

verus! {

/// Rows kept off the item area: the status area and the bottom rows.
pub const RESERVED_ROWS: usize = 5;

/// Columns an item row loses to its marker and a safety margin.
pub const ROW_MARGIN: usize = 7;

/// Columns the prompt glyph and its space take.
pub const PROMPT_WIDTH: usize = 2;

/// The number of item rows that fit on a screen `h` rows high.
pub open spec fn page_rows(h: nat) -> nat {
    if h > RESERVED_ROWS { (h - RESERVED_ROWS) as nat } else { 0 }
}

/// The columns left for the text of an item on a screen `w` columns wide.
pub open spec fn item_width(w: nat) -> nat {
    if w > ROW_MARGIN { (w - ROW_MARGIN) as nat } else { 0 }
}

/// The columns left for the query after the prompt.
pub open spec fn query_width(w: nat) -> nat {
    if w > PROMPT_WIDTH { (w - PROMPT_WIDTH) as nat } else { 0 }
}

/// The end of the visible part of the view.
pub open spec fn visible_end(scroll: nat, len: nat, page: nat) -> nat {
    if scroll + page < len { scroll + page } else { len }
}

/// An item's text as shown in a row `avail` characters wide: unchanged when
/// it fits, else its first `avail - 1` characters and an ellipsis.
pub open spec fn truncated(t: Seq<char>, avail: nat) -> Seq<char> {
    if t.len() <= avail {
        t
    } else if avail == 0 {
        Seq::empty()
    } else {
        t.take(avail - 1).push('…')
    }
}

/// The query as shown in `avail` columns: unchanged when it fits, else an
/// ellipsis and the last `avail - 1` characters.
pub open spec fn query_shown(q: Seq<char>, avail: nat) -> Seq<char> {
    if q.len() <= avail {
        q
    } else if avail == 0 {
        Seq::empty()
    } else {
        seq!['…'] + q.skip(q.len() - avail + 1)
    }
}

/// A text longer than the row is shown in exactly the row's width: its
/// first `avail - 1` characters, which are a prefix of it, then an ellipsis.
pub proof fn lemma_truncation_round_trip(t: Seq<char>, avail: nat)
    requires
        t.len() > avail,
        avail >= 1,
    ensures
        truncated(t, avail).len() == avail,
        truncated(t, avail).drop_last() == t.subrange(0, avail - 1),
        truncated(t, avail).last() == '…',
{
    assert(truncated(t, avail).drop_last() =~= t.subrange(0, avail - 1));
}

/// The decimal digit of `d`.
pub open spec fn digit(d: nat) -> char {
    "0123456789"@[d as int]
}

/// The decimal numeral of `n`.
pub open spec fn decimal(n: nat) -> Seq<char>
    decreases n,
{
    if n < 10 {
        seq![digit(n)]
    } else {
        decimal(n / 10).push(digit(n % 10))
    }
}

/// Relies on `usize::to_string`: the decimal numeral of the number.
#[verifier::external_body]
fn decimal_string(n: usize) -> (r: String)
    ensures
        r@ == decimal(n as nat),
{
    n.to_string()
}

/// Relies on `String::from_iter` over chars: the characters in order.
#[verifier::external_body]
fn string_of(chars: &Vec<char>) -> (r: String)
    ensures
        r@ == chars@,
{
    chars.iter().collect()
}

/// Truncates an item's text to `avail` characters, the last of them an
/// ellipsis, when it is longer than that; counts characters, not bytes.
pub fn truncate_item(item: &str, avail: usize) -> (r: String)
    ensures
        r@ == truncated(item@, avail as nat),
        item@.len() > avail ==> r@.len() == avail,
        item@.len() > avail && avail > 0 ==> r@.drop_last() == item@.take(avail - 1) && r@.last() == '…',
{
    let n = item.unicode_len();
    if n <= avail {
        String::from_str(item)
    } else if avail == 0 {
        String::new()
    } else {
        let mut r = String::from_str(item.substring_char(0, avail - 1));
        r.append("…");
        proof {
            reveal_strlit("…");
            assert(r@ =~= item@.take(avail - 1).push('…'));
            assert(r@.drop_last() =~= item@.take(avail - 1));
        }
        r
    }
}

/// The query as the prompt line shows it in `avail` columns.
pub fn display_query(query: &Vec<char>, avail: usize) -> (r: String)
    ensures
        r@ == query_shown(query@, avail as nat),
{
    if query.len() <= avail {
        string_of(query)
    } else if avail == 0 {
        String::new()
    } else {
        let mut v: Vec<char> = Vec::new();
        v.push('…');
        let start = query.len() - avail + 1;
        let mut k: usize = start;
        while k < query.len()
            invariant
                start <= k <= query@.len(),
                v@ == seq!['…'] + query@.subrange(start as int, k as int),
            decreases query.len() - k,
        {
            v.push(query[k]);
            assert(query@.subrange(start as int, k + 1) =~= query@.subrange(start as int, k as int).push(query@[k as int]));
            assert(v@ =~= seq!['…'] + query@.subrange(start as int, k + 1));
            k = k + 1;
        }
        assert(query@.subrange(start as int, query@.len() as int) =~= query@.skip(start as int));
        string_of(&v)
    }
}

/// One row of the item area.
pub struct FrameRow {
    pub text: String,
    pub selected: bool,
}

/// The message shown in the status area: an error before a status.
pub enum Notice {
    Error(String),
    Status(String),
}

/// Everything one frame shows, top to bottom.
pub struct Frame {
    /// The visible items, from the first visible one down.
    pub rows: Vec<FrameRow>,
    /// Item rows left empty below the items.
    pub blank_rows: usize,
    /// The screen row (from 1) where the status area begins.
    pub status_row: usize,
    pub notice: Option<Notice>,
    /// `<shown>/<total>`.
    pub count_text: String,
    /// How many fill characters follow the count and its space.
    pub fill: usize,
    pub query_text: String,
    /// The screen row (from 1) of the prompt.
    pub prompt_row: usize,
    /// The screen column (from 1) where the cursor is drawn.
    pub cursor_col: usize,
}

/// Whether `rows` are the visible items of `m` on a page of `page` rows, truncated
/// to `avail` characters, with the selected one marked.
pub open spec fn rows_of(rows: Seq<FrameRow>, m: FinderModel, page: nat, avail: nat) -> bool {
    &&& rows.len() == visible_end(m.scroll, m.filtered.len(), page) - m.scroll
    &&& forall|i: int| 0 <= i < rows.len() ==> {
        &&& (#[trigger] rows[i]).text@ == truncated(m.filtered[m.scroll + i], avail)
        &&& rows[i].selected == (m.scroll + i == m.selected)
    }
}

/// The message of `m` that the status area shows.
pub open spec fn notice_of(n: Option<Notice>, m: FinderModel) -> bool {
    match m.error {
        Some(e) => n matches Some(Notice::Error(t)) && t@ == e,
        None => match m.status {
            Some(s) => n matches Some(Notice::Status(t)) && t@ == s,
            None => n is None,
        },
    }
}

/// The count line's text: the shown and the total numbers of items.
pub open spec fn count_of(m: FinderModel) -> Seq<char> {
    decimal(m.filtered.len()) + seq!['/'] + decimal(m.items.len())
}

impl FuzzyFinder {
    /// The notice the status area shows.
    pub fn notice(&self) -> (r: Option<Notice>)
        ensures
            notice_of(r, self@),
    {
        match self.error_message() {
            Some(e) => Some(Notice::Error(e.clone())),
            None => match self.status_message() {
                Some(s) => Some(Notice::Status(s.clone())),
                None => None,
            },
        }
    }

    /// The text of the count line.
    pub fn count_text(&self) -> (r: String)
        ensures
            r@ == count_of(self@),
    {
        let mut r = decimal_string(self.filtered_items().len());
        r.append("/");
        let total = decimal_string(self.items().len());
        r.append(total.as_str());
        proof {
            reveal_strlit("/");
        }
        r
    }

    /// The frame for a terminal `width` columns wide and `height` rows high.
    /// When the screen has room for items, the finder's scroll window must
    /// be as tall as the item area; then the selected line is always listed,
    /// and it is the only row marked.
    pub fn render_frame(&self, width: u16, height: u16) -> (r: Frame)
        requires
            self.wf(),
            page_rows(height as nat) >= 1 ==> self@.page == page_rows(height as nat),
        ensures
            rows_of(r.rows@, self@, page_rows(height as nat), item_width(width as nat)),
            self@.filtered.len() > 0 && page_rows(height as nat) >= 1 ==> {
                &&& self@.selected - self@.scroll < r.rows@.len()
                &&& r.rows@[self@.selected - self@.scroll].selected
            },
            forall|i: int| 0 <= i < r.rows@.len() && (#[trigger] r.rows@[i]).selected ==> i == self@.selected
                - self@.scroll,
            r.blank_rows == page_rows(height as nat) - r.rows@.len(),
            r.status_row == (if height > 5 { height - 4 } else { 1 }),
            notice_of(r.notice, self@),
            r.count_text@ == count_of(self@),
            r.fill == (if width as nat > r.count_text@.len() + 1 { width - r.count_text@.len() - 1 } else { 0 }),
            r.query_text@ == query_shown(self@.query, query_width(width as nat)),
            r.prompt_row == height,
            r.cursor_col == (if self@.query.len() > query_width(width as nat) {
                width as int
            } else {
                self@.cursor + PROMPT_WIDTH + 1
            }),
    {
        let w = width as usize;
        let h = height as usize;
        let page: usize = if h > RESERVED_ROWS { h - RESERVED_ROWS } else { 0 };
        let avail: usize = if w > ROW_MARGIN { w - ROW_MARGIN } else { 0 };
        let filtered = self.filtered_items();
        let scroll = self.scroll_offset();
        let selected = self.selected_index();
        let len = filtered.len();
        let end: usize = if page < len - scroll { scroll + page } else { len };
        let mut rows: Vec<FrameRow> = Vec::new();
        let mut i: usize = scroll;
        while i < end
            invariant
                self.wf(),
                texts(filtered@) == self@.filtered,
                scroll == self@.scroll,
                selected == self@.selected,
                len == filtered@.len(),
                scroll <= i <= end <= len,
                avail == item_width(width as nat),
                rows@.len() == i - scroll,
                forall|k: int| 0 <= k < rows@.len() ==> {
                    &&& (#[trigger] rows@[k]).text@ == truncated(self@.filtered[scroll + k], avail as nat)
                    &&& rows@[k].selected == (scroll + k == selected)
                },
            decreases end - i,
        {
            let text = truncate_item(filtered[i].as_str(), avail);
            assert(filtered@[i as int]@ == self@.filtered[i as int]);
            rows.push(FrameRow { text, selected: i == selected });
            i = i + 1;
        }
        proof {
            if self@.filtered.len() > 0 && page >= 1 {
                let k = self@.selected - self@.scroll;
                assert(0 <= k < rows@.len());
                assert(rows@[k].selected);
            }
        }
        let count_text = self.count_text();
        let count_len = count_text.unicode_len();
        let fill: usize = if count_len < w && w - count_len > 1 { w - count_len - 1 } else { 0 };
        let qavail: usize = if w > PROMPT_WIDTH { w - PROMPT_WIDTH } else { 0 };
        let query = self.query();
        let query_text = display_query(query, qavail);
        let cursor_col: usize = if query.len() > qavail { w } else { self.cursor_pos() + PROMPT_WIDTH + 1 };
        Frame {
            blank_rows: page - rows.len(),
            rows,
            status_row: if h > 5 { h - 4 } else { 1 },
            notice: self.notice(),
            count_text,
            fill,
            query_text,
            prompt_row: h,
            cursor_col,
        }
    }
}

} // verus!
