//! Ordered sequences with an attached cursor, the backing store of every view.

use vstd::prelude::*;
use vstd::arithmetic::div_mod::{lemma_add_mod_noop, lemma_add_mod_noop_right, lemma_mod_bound, lemma_small_mod};

verus! {

/// How a rendered row is to be painted.
#[derive(Clone, Copy, Debug, PartialEq, Eq, Structural)]
pub enum StyleHint {
    Normal,
    Emphasized,
}

/// One already-rendered row: its text and its style hint.
pub struct Thing {
    pub text: String,
    pub style: StyleHint,
}

/// An entity that can render itself as one row of a list view.
pub trait Styled {
    /// The characters `render_text` returns.
    spec fn text_spec(&self) -> Seq<char>;

    /// The style `style_hint` returns.
    spec fn style_spec(&self) -> StyleHint;

    fn render_text(&self) -> (r: String)
        ensures
            r@ == self.text_spec(),
    ;

    fn style_hint(&self) -> (r: StyleHint)
        ensures
            r == self.style_spec(),
    ;

    fn get_thing(&self) -> (t: Thing)
        ensures
            t.text@ == self.text_spec(),
            t.style == self.style_spec(),
    {
        Thing { text: self.render_text(), style: self.style_hint() }
    }
}

impl Styled for Thing {
    open spec fn text_spec(&self) -> Seq<char> {
        self.text@
    }

    open spec fn style_spec(&self) -> StyleHint {
        self.style
    }

    fn render_text(&self) -> (r: String) {
        self.text.clone()
    }

    fn style_hint(&self) -> (r: StyleHint) {
        self.style
    }
}

impl Styled for String {
    open spec fn text_spec(&self) -> Seq<char> {
        self@
    }

    open spec fn style_spec(&self) -> StyleHint {
        StyleHint::Normal
    }

    fn render_text(&self) -> (r: String) {
        self.clone()
    }

    fn style_hint(&self) -> (r: StyleHint) {
        StyleHint::Normal
    }
}

/// Whether `rows` is the rendered projection of `items`: the same length,
/// each row showing its item's text and style.
pub open spec fn projects<T: Styled>(rows: Seq<Thing>, items: Seq<T>) -> bool {
    &&& rows.len() == items.len()
    &&& forall|i: int| #![trigger rows[i], items[i]] 0 <= i < items.len()
        ==> rows[i].text@ == items[i].text_spec() && rows[i].style == items[i].style_spec()
}

/// Render every item of a list, in order.
pub fn get_things<T: Styled>(items: &Vec<T>) -> (r: Vec<Thing>)
    ensures
        projects(r@, items@),
        r@.len() == items@.len(),
        forall|i: int| 0 <= i < items@.len() ==> #[trigger] r@[i].text@ == items@[i].text_spec(),
        forall|i: int| 0 <= i < items@.len() ==> #[trigger] r@[i].style == items@[i].style_spec(),
{
    let mut r: Vec<Thing> = Vec::new();
    let mut i: usize = 0;
    while i < items.len()
        invariant
            i <= items@.len(),
            r@.len() == i,
            forall|j: int| 0 <= j < i ==> #[trigger] r@[j].text@ == items@[j].text_spec(),
            forall|j: int| 0 <= j < i ==> #[trigger] r@[j].style == items@[j].style_spec(),
        decreases items@.len() - i,
    {
        r.push(items[i].get_thing());
        i = i + 1;
    }
    r
}

/// The text of the status line.
pub struct Status(pub String);

/// An ordered sequence of items plus a cursor into it.
///
/// The cursor is `0` when the list is empty and otherwise always a valid
/// index; offset moves wrap around cyclically.
#[derive(Clone, Debug)]
pub struct ThingList<T> {
    pub things: Vec<T>,
    pub selected_index: usize,
}

impl<T> ThingList<T> {
    /// The cursor invariant: in range when the list is non-empty, zero otherwise.
    pub open spec fn cursor_ok(&self) -> bool {
        if self.things@.len() == 0 {
            self.selected_index == 0
        } else {
            self.selected_index < self.things@.len()
        }
    }

    /// The item under the cursor.
    pub fn current(&self) -> (r: &T)
        requires
            self.things@.len() > 0,
            self.cursor_ok(),
        ensures
            *r == self.things@[self.selected_index as int],
    {
        &self.things[self.selected_index]
    }

    /// Move the cursor by `offset`, wrapping cyclically around the list length.
    pub fn shift_index(&mut self, offset: i32)
        requires
            old(self).things@.len() > 0,
            old(self).cursor_ok(),
        ensures
            final(self).things@ == old(self).things@,
            final(self).selected_index as int
                == (old(self).selected_index + offset) % (old(self).things@.len() as int),
            final(self).cursor_ok(),
    {
        let len: i128 = self.things.len() as i128;
        let shifted: i128 = self.selected_index as i128 + offset as i128;
        let r: i128 = shifted.checked_rem_euclid(len).unwrap();
        self.selected_index = r as usize;
    }
}

impl<T> Default for ThingList<T> {
    /// An empty list with the cursor at zero.
    fn default() -> (r: ThingList<T>)
        ensures
            r.things@.len() == 0,
            r.selected_index == 0,
            r.cursor_ok(),
    {
        ThingList { things: Vec::new(), selected_index: 0 }
    }
}

/// Where the cursor lands after a whole sequence of cyclic offset moves,
/// applied one at a time by the rule of [`ThingList::shift_index`].
pub open spec fn cursor_after_moves(start: int, moves: Seq<int>, len: int) -> int
    decreases moves.len(),
{
    if moves.len() == 0 {
        start
    } else {
        (cursor_after_moves(start, moves.drop_last(), len) + moves.last()) % len
    }
}

/// The sum of a sequence of offsets.
pub open spec fn sum_of_moves(moves: Seq<int>) -> int
    decreases moves.len(),
{
    if moves.len() == 0 {
        0
    } else {
        sum_of_moves(moves.drop_last()) + moves.last()
    }
}

/// For any non-empty list length and any sequence of offset moves, the cursor
/// after the moves equals the starting cursor plus the cumulative offset,
/// modulo the length, and lies in `[0, len)`. Every intermediate cursor is
/// itself `cursor_after_moves` of a prefix, so the claim holds after each move.
pub proof fn lemma_cursor_cumulative(start: int, moves: Seq<int>, len: int)
    requires
        len > 0,
        0 <= start < len,
    ensures
        cursor_after_moves(start, moves, len) == (start + sum_of_moves(moves)) % len,
        0 <= cursor_after_moves(start, moves, len) < len,
    decreases moves.len(),
{
    if moves.len() == 0 {
        lemma_small_mod(start as nat, len as nat);
    } else {
        let prefix = moves.drop_last();
        let m = moves.last();
        lemma_cursor_cumulative(start, prefix, len);
        let before = cursor_after_moves(start, prefix, len);
        lemma_mod_bound(before + m, len);
        assert(before == (start + sum_of_moves(prefix)) % len);
        assert(((start + sum_of_moves(prefix)) % len + m) % len == (start + sum_of_moves(prefix) + m) % len) by {
            lemma_add_mod_noop(start + sum_of_moves(prefix), m, len);
            lemma_mod_bound(m, len);
            lemma_add_mod_noop_right(before, m, len);
        }
    }
}

} // verus!

verus! {

/// The window of rows to paint: scrolled so the cursor stays visible, at most
/// one screen of rows, never past the end of the list. Returns the start
/// (inclusive) and end (exclusive) of the window.
pub fn visible_range(len: usize, selected: usize, height: usize) -> (r: (usize, usize))
    requires
        len == 0 || selected < len,
        height >= 2,
        len < usize::MAX - 1,
    ensures
        r.0 <= r.1 <= len,
        len == 0 ==> r.0 == 0 && r.1 == 0,
        len > 0 ==> r.0 == (if selected + 2 > height { selected + 2 - height } else { 0 }),
        len > 0 ==> r.1 == (if len - r.0 > height - 1 { r.0 + (height - 1) } else { len as int }),
        len > 0 ==> r.0 <= selected < r.1,
{
    if len == 0 {
        return (0, 0);
    }
    let start: usize = if selected + 2 > height { selected + 2 - height } else { 0 };
    let end: usize = if len - start > height - 1 { start + (height - 1) } else { len };
    (start, end)
}

} // verus!
