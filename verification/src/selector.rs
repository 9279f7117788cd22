//! Selectors shown in the key bar: an execute-selector picks one action, a toggle-selector
//! switches several choices on and off. Neither touches the rest of the program: they return
//! what happened.

use vstd::prelude::*;
use vstd::string::*;

use crate::action::{is_copy_of, AppAction, SelectorDef, SelectorItem};
use crate::text::chars_of;

verus! {

/// A key press, as the selectors and the pages read it.
#[derive(Debug, Clone, Copy, PartialEq, Eq, Structural)]
pub enum Key {
    Left,
    Right,
    Up,
    Down,
    Enter,
    Esc,
    Char(char),
    /// Any other key.
    Other,
}

/// Cursor after moving one step left: one less, but not below 0.
pub open spec fn cursor_left(cursor: usize) -> usize {
    if cursor == 0 {
        0
    } else {
        (cursor - 1) as usize
    }
}

/// Cursor after moving one step right among `len` items: one more, but not past the last.
pub open spec fn cursor_right(cursor: usize, len: nat) -> usize {
    if len == 0 {
        cursor
    } else if cursor + 1 < len {
        (cursor + 1) as usize
    } else {
        (len - 1) as usize
    }
}

/// The key that picks an item is the one-character string `shortcut`.
pub open spec fn shortcut_is(item: SelectorItem, c: char) -> bool {
    item.shortcut@ == seq![c]
}

/// Index of the first item whose shortcut is `c`, or -1.
pub open spec fn first_shortcut(items: Seq<SelectorItem>, c: char) -> int
    decreases items.len(),
{
    if items.len() == 0 {
        -1
    } else if shortcut_is(items[0], c) {
        0
    } else {
        let r = first_shortcut(items.drop_first(), c);
        if r < 0 {
            -1
        } else {
            r + 1
        }
    }
}

/// A "pick one and run it" selector. Enter or Space picks the item under the cursor, its
/// shortcut picks it directly.
pub struct ExecuteSelector {
    pub items: Vec<SelectorItem>,
    pub cursor: usize,
}

/// What an execute-selector made of a key.
#[derive(Debug)]
pub enum SelectorResult {
    /// The cursor moved, or nothing happened; nothing is chosen yet.
    Continue,
    /// This action was chosen.
    Selected(AppAction),
    /// Esc: nothing chosen.
    Cancelled,
}

/// What an execute-selector does with a key: h/Left and l/Right move, Enter/Space pick the
/// item under the cursor, Esc cancels, another character picks the first item with that
/// shortcut; the items stay as they are.
pub open spec fn execute_key_ok(
    before: ExecuteSelector,
    key: Key,
    after: ExecuteSelector,
    r: SelectorResult,
) -> bool {
    &&& after.items@ == before.items@
    &&& match key {
        Key::Left | Key::Char('h') => r is Continue && after.cursor == cursor_left(
            before.cursor,
        ),
        Key::Right | Key::Char('l') => r is Continue && after.cursor == cursor_right(
            before.cursor,
            before.items@.len(),
        ),
        Key::Enter | Key::Char(' ') => after.cursor == before.cursor && match r {
            SelectorResult::Selected(a) => is_copy_of(
                a,
                before.items@[before.cursor as int].action,
            ),
            _ => false,
        },
        Key::Esc => r is Cancelled && after.cursor == before.cursor,
        Key::Char(c) => after.cursor == before.cursor && {
            let k = first_shortcut(before.items@, c);
            if k < 0 {
                r is Continue
            } else {
                match r {
                    SelectorResult::Selected(a) => is_copy_of(
                        a,
                        before.items@[k].action,
                    ),
                    _ => false,
                }
            }
        },
        _ => r is Continue && after.cursor == before.cursor,
    }
}

impl ExecuteSelector {
    /// The cursor is on an item (or 0 when there are none).
    pub open spec fn wf(&self) -> bool {
        if self.items@.len() == 0 {
            self.cursor == 0
        } else {
            self.cursor < self.items@.len()
        }
    }

    /// A selector from its definition; the initial cursor is clamped to the last item.
    pub fn from_def(def: SelectorDef) -> (r: ExecuteSelector)
        ensures
            r.wf(),
            r.items@ == def.items@,
            r.cursor == (if def.initial_cursor + 1 <= def.items@.len() {
                def.initial_cursor
            } else if def.items@.len() == 0 {
                0
            } else {
                (def.items@.len() - 1) as usize
            }),
    {
        let last = if def.items.len() == 0 {
            0
        } else {
            def.items.len() - 1
        };
        let cursor = if def.initial_cursor < last {
            def.initial_cursor
        } else {
            last
        };
        ExecuteSelector { items: def.items, cursor }
    }

    /// Moves the cursor one item left.
    pub fn move_left(&mut self)
        ensures
            final(self).cursor == cursor_left(old(self).cursor),
            final(self).items@ == old(self).items@,
    {
        if self.cursor > 0 {
            self.cursor = self.cursor - 1;
        }
    }

    /// Moves the cursor one item right.
    pub fn move_right(&mut self)
        ensures
            old(self).wf() ==> final(self).wf(),
            final(self).cursor == cursor_right(old(self).cursor, old(self).items@.len()),
            final(self).items@ == old(self).items@,
    {
        if self.items.len() > 0 {
            if self.cursor < self.items.len() - 1 {
                self.cursor = self.cursor + 1;
            } else {
                self.cursor = self.items.len() - 1;
            }
        }
    }

    /// Handles one key: h/Left and l/Right move, Enter/Space pick the item under the cursor,
    /// Esc cancels, another character picks the first item with that shortcut.
    pub fn handle_key(&mut self, key: Key) -> (r: SelectorResult)
        requires
            (key == Key::Enter || key == Key::Char(' ')) ==> old(self).cursor < old(self).items@.len(),
        ensures
            old(self).wf() ==> final(self).wf(),
            final(self).items@ == old(self).items@,
            execute_key_ok(*old(self), key, *final(self), r),
    {
        match key {
            Key::Left | Key::Char('h') => {
                self.move_left();
                SelectorResult::Continue
            },
            Key::Right | Key::Char('l') => {
                self.move_right();
                SelectorResult::Continue
            },
            Key::Enter | Key::Char(' ') => SelectorResult::Selected(
                self.items[self.cursor].action.clone(),
            ),
            Key::Esc => SelectorResult::Cancelled,
            Key::Char(c) => {
                match find_shortcut(&self.items, c) {
                    Some(i) => SelectorResult::Selected(self.items[i].action.clone()),
                    None => SelectorResult::Continue,
                }
            },
            _ => SelectorResult::Continue,
        }
    }
}

proof fn lemma_first_shortcut(items: Seq<SelectorItem>, c: char)
    ensures
        -1 <= first_shortcut(items, c) < items.len(),
        first_shortcut(items, c) >= 0 ==> shortcut_is(items[first_shortcut(items, c)], c),
        forall|k: int|
            0 <= k < items.len() && (first_shortcut(items, c) < 0 || k < first_shortcut(items, c))
                ==> !shortcut_is(#[trigger] items[k], c),
    decreases items.len(),
{
    if items.len() > 0 && !shortcut_is(items[0], c) {
        lemma_first_shortcut(items.drop_first(), c);
        assert forall|k: int|
            0 <= k < items.len() && (first_shortcut(items, c) < 0 || k < first_shortcut(items, c))
                implies !shortcut_is(#[trigger] items[k], c) by {
            if k > 0 {
                assert(items[k] == items.drop_first()[k - 1]);
            }
        }
    }
}

/// Whether the string `s` is the one character `c`.
fn is_single_char(s: &String, c: char) -> (b: bool)
    ensures
        b == (s@ == seq![c]),
{
    let v = chars_of(s.as_str());
    if v.len() == 1 && v[0] == c {
        assert(s@ =~= seq![c]);
        true
    } else {
        false
    }
}

/// Index of the first item whose shortcut is `c`.
fn find_shortcut(items: &Vec<SelectorItem>, c: char) -> (r: Option<usize>)
    ensures
        match r {
            Some(i) => i == first_shortcut(items@, c) && i < items@.len(),
            None => first_shortcut(items@, c) < 0,
        },
{
    proof {
        lemma_first_shortcut(items@, c);
    }
    let mut i: usize = 0;
    while i < items.len()
        invariant
            i <= items@.len(),
            forall|k: int| 0 <= k < i ==> !shortcut_is(#[trigger] items@[k], c),
            -1 <= first_shortcut(items@, c) < items@.len(),
            first_shortcut(items@, c) >= 0 ==> shortcut_is(items@[first_shortcut(items@, c)], c),
            forall|k: int|
                0 <= k < items@.len() && (first_shortcut(items@, c) < 0 || k < first_shortcut(
                    items@,
                    c,
                )) ==> !shortcut_is(#[trigger] items@[k], c),
        decreases items@.len() - i,
    {
        if is_single_char(&items[i].shortcut, c) {
            return Some(i);
        }
        i = i + 1;
    }
    None
}

/// Which filter a toggle-selector edits.
#[derive(Debug, Clone, Copy, PartialEq, Eq, Structural)]
pub enum ToggleTarget {
    FilterStatus,
    FilterLabel,
}

/// A "switch several on and off" selector: Enter/Space toggles the item under the cursor, Esc
/// leaves it.
pub struct ToggleSelector {
    pub target: ToggleTarget,
    pub items: Vec<(String, bool)>,
    pub cursor: usize,
}

/// What a toggle-selector made of a key.
#[derive(Debug)]
pub enum ToggleResult {
    Continue,
    Toggled,
    Done,
}

/// The items after flipping the one at `cursor` (none when the cursor is past the end).
pub open spec fn toggled(items: Seq<(String, bool)>, cursor: int) -> Seq<(String, bool)> {
    if 0 <= cursor < items.len() {
        items.update(cursor, (items[cursor].0, !items[cursor].1))
    } else {
        items
    }
}

/// The labels of the items that are switched on, in their order.
pub open spec fn selected_spec(items: Seq<(String, bool)>) -> Seq<Seq<char>>
    decreases items.len(),
{
    if items.len() == 0 {
        Seq::empty()
    } else {
        let rest = selected_spec(items.drop_last());
        if items.last().1 {
            rest.push(items.last().0@)
        } else {
            rest
        }
    }
}

/// The views of a sequence of string slices.
pub open spec fn str_views(v: Seq<&str>) -> Seq<Seq<char>> {
    v.map_values(|x: &str| x@)
}

/// What a toggle-selector does with a key: h/Left and l/Right move, Enter/Space flip the
/// item under the cursor, Esc finishes; the target stays as it is.
pub open spec fn toggle_key_ok(before: ToggleSelector, key: Key, after: ToggleSelector, r: ToggleResult) -> bool {
    &&& after.target == before.target
    &&& match key {
        Key::Left | Key::Char('h') => {
            &&& r is Continue
            &&& after.cursor == cursor_left(before.cursor)
            &&& after.items@ == before.items@
        },
        Key::Right | Key::Char('l') => {
            &&& r is Continue
            &&& after.cursor == cursor_right(before.cursor, before.items@.len())
            &&& after.items@ == before.items@
        },
        Key::Enter | Key::Char(' ') => {
            &&& r is Toggled
            &&& after.cursor == before.cursor
            &&& after.items@ == toggled(before.items@, before.cursor as int)
        },
        Key::Esc => {
            &&& r is Done
            &&& after.cursor == before.cursor
            &&& after.items@ == before.items@
        },
        _ => {
            &&& r is Continue
            &&& after.cursor == before.cursor
            &&& after.items@ == before.items@
        },
    }
}

impl ToggleSelector {
    /// The cursor is on an item (or 0 when there are none).
    pub open spec fn wf(&self) -> bool {
        if self.items@.len() == 0 {
            self.cursor == 0
        } else {
            self.cursor < self.items@.len()
        }
    }

    /// A toggle-selector with the cursor on the first item.
    pub fn new(target: ToggleTarget, items: Vec<(String, bool)>) -> (r: ToggleSelector)
        ensures
            r.wf(),
            r.target == target,
            r.items@ == items@,
            r.cursor == 0,
    {
        ToggleSelector { target, items, cursor: 0 }
    }

    /// Moves the cursor one item left.
    pub fn move_left(&mut self)
        ensures
            final(self).cursor == cursor_left(old(self).cursor),
            final(self).items@ == old(self).items@,
            final(self).target == old(self).target,
    {
        if self.cursor > 0 {
            self.cursor = self.cursor - 1;
        }
    }

    /// Moves the cursor one item right.
    pub fn move_right(&mut self)
        ensures
            old(self).wf() ==> final(self).wf(),
            final(self).cursor == cursor_right(old(self).cursor, old(self).items@.len()),
            final(self).items@ == old(self).items@,
            final(self).target == old(self).target,
    {
        if self.items.len() > 0 {
            if self.cursor < self.items.len() - 1 {
                self.cursor = self.cursor + 1;
            } else {
                self.cursor = self.items.len() - 1;
            }
        }
    }

    /// Flips the item under the cursor.
    pub fn toggle_at_cursor(&mut self)
        ensures
            final(self).items@ == toggled(old(self).items@, old(self).cursor as int),
            final(self).cursor == old(self).cursor,
            final(self).target == old(self).target,
    {
        if self.cursor < self.items.len() {
            let (label, on) = self.items.remove(self.cursor);
            self.items.insert(self.cursor, (label, !on));
            assert(self.items@ =~= toggled(old(self).items@, old(self).cursor as int));
        }
    }

    /// The labels of the items that are switched on.
    pub fn selected_labels(&self) -> (r: Vec<&str>)
        ensures
            str_views(r@) == selected_spec(self.items@),
    {
        let mut r: Vec<&str> = Vec::new();
        let mut i: usize = 0;
        while i < self.items.len()
            invariant
                i <= self.items@.len(),
                str_views(r@) == selected_spec(self.items@.take(i as int)),
            decreases self.items@.len() - i,
        {
            assert(self.items@.take(i + 1).drop_last() =~= self.items@.take(i as int));
            if self.items[i].1 {
                let l = self.items[i].0.as_str();
                r.push(l);
                assert(str_views(r@) =~= str_views(r@.drop_last()).push(l@));
            }
            i = i + 1;
        }
        assert(self.items@.take(self.items@.len() as int) =~= self.items@);
        r
    }

    /// Handles one key: h/Left and l/Right move, Enter/Space toggle, Esc finishes.
    pub fn handle_key(&mut self, key: Key) -> (r: ToggleResult)
        ensures
            old(self).wf() ==> final(self).wf(),
            final(self).target == old(self).target,
            toggle_key_ok(*old(self), key, *final(self), r),
    {
        match key {
            Key::Left | Key::Char('h') => {
                self.move_left();
                ToggleResult::Continue
            },
            Key::Right | Key::Char('l') => {
                self.move_right();
                ToggleResult::Continue
            },
            Key::Enter | Key::Char(' ') => {
                self.toggle_at_cursor();
                ToggleResult::Toggled
            },
            Key::Esc => ToggleResult::Done,
            _ => ToggleResult::Continue,
        }
    }
}

/// Toggling the same item twice gives back the items one started with.
pub proof fn law_toggle_twice(items: Seq<(String, bool)>, cursor: int)
    ensures
        toggled(toggled(items, cursor), cursor) == items,
{
    assert(toggled(toggled(items, cursor), cursor) =~= items);
}

/// Moving right then left from a cursor that is not on the last item returns to it.
pub proof fn law_right_then_left(cursor: usize, len: nat)
    requires
        cursor + 1 < len <= usize::MAX,
    ensures
        cursor_left(cursor_right(cursor, len)) == cursor,
{
}

/// Every move keeps the cursor on an item.
pub proof fn law_moves_stay_in_bounds(cursor: usize, len: nat)
    requires
        cursor < len,
    ensures
        cursor_left(cursor) < len,
        cursor_right(cursor, len) < len,
{
}

} // verus!
