//! A single highlighted index over a list of known length.
//!
//! The index never leaves the list: every request that would move it past
//! either end is clamped, and on an empty list every request is a no-op.

use vstd::math::{max, min};
use vstd::prelude::*;

verus! {

/// A navigation request for one pane.
#[derive(Clone, Copy, Debug, PartialEq, Eq)]
pub enum Command {
    /// One step toward index 0.
    Up,
    /// One step toward the last index.
    Down,
    /// A jump of the given size toward index 0.
    PageUp(usize),
    /// A jump of the given size toward the last index.
    PageDown(usize),
}

/// The mathematical state of a cursor: an index into a list of `length` items.
pub struct CursorModel {
    pub index: nat,
    pub length: nat,
}

impl CursorModel {
    /// The index lies inside the list, or is 0 where the list is empty.
    pub open spec fn wf(self) -> bool {
        if self.length == 0 {
            self.index == 0
        } else {
            self.index < self.length
        }
    }

    /// The cursor of a freshly listed pane: index 0.
    pub open spec fn start(length: nat) -> CursorModel {
        CursorModel { index: 0, length }
    }

    /// The highlighted position, or `None` where there is nothing to highlight.
    pub open spec fn selection(self) -> Option<nat> {
        if self.length == 0 {
            None
        } else {
            Some(self.index)
        }
    }

    /// One step toward index 0; at index 0 nothing changes.
    pub open spec fn up(self) -> CursorModel {
        if self.index > 0 {
            CursorModel { index: (self.index - 1) as nat, length: self.length }
        } else {
            self
        }
    }

    /// One step toward the last index; at the last index, and on an empty
    /// list, nothing changes.
    pub open spec fn down(self) -> CursorModel {
        if self.index < self.length - 1 {
            CursorModel { index: self.index + 1, length: self.length }
        } else {
            self
        }
    }

    /// `step` positions toward index 0, stopping at 0.
    pub open spec fn page_up(self, step: nat) -> CursorModel {
        if self.index > step {
            CursorModel { index: (self.index - step) as nat, length: self.length }
        } else if self.index > 0 {
            CursorModel { index: 0, length: self.length }
        } else {
            self
        }
    }

    /// `step` positions toward the last index, stopping there; on an empty
    /// list nothing changes.
    pub open spec fn page_down(self, step: nat) -> CursorModel {
        if self.index < self.length - 1 - step {
            CursorModel { index: self.index + step, length: self.length }
        } else if self.index < self.length - 1 {
            CursorModel { index: (self.length - 1) as nat, length: self.length }
        } else {
            self
        }
    }

    /// Back to index 0 over the same list.
    pub open spec fn reset(self) -> CursorModel {
        CursorModel { index: 0, length: self.length }
    }

    /// The same cursor over a list of `new_length` items: an index that no
    /// longer fits moves to the new last position, and to 0 on an empty list.
    pub open spec fn resize(self, new_length: nat) -> CursorModel {
        if new_length == 0 {
            CursorModel { index: 0, length: 0 }
        } else if self.index >= new_length {
            CursorModel { index: (new_length - 1) as nat, length: new_length }
        } else {
            CursorModel { index: self.index, length: new_length }
        }
    }

    /// The cursor after one command.
    pub open spec fn apply(self, command: Command) -> CursorModel {
        match command {
            Command::Up => self.up(),
            Command::Down => self.down(),
            Command::PageUp(step) => self.page_up(step as nat),
            Command::PageDown(step) => self.page_down(step as nat),
        }
    }

    /// The cursor after a sequence of commands, applied first to last.
    pub open spec fn run(self, commands: Seq<Command>) -> CursorModel
        decreases commands.len(),
    {
        if commands.len() == 0 {
            self
        } else {
            self.run(commands.drop_last()).apply(commands.last())
        }
    }
}

/// No command moves the index out of the list or changes the list's length.
pub proof fn lemma_apply_keeps_cursor_valid(cursor: CursorModel, command: Command)
    requires
        cursor.wf(),
    ensures
        cursor.apply(command).wf(),
        cursor.apply(command).length == cursor.length,
{
}

/// Whatever commands arrive, and however many, a valid cursor stays valid:
/// the index is below the length of a non-empty list and 0 on an empty one.
pub proof fn lemma_run_keeps_cursor_valid(cursor: CursorModel, commands: Seq<Command>)
    requires
        cursor.wf(),
    ensures
        cursor.run(commands).wf(),
        cursor.run(commands).length == cursor.length,
    decreases commands.len(),
{
    if commands.len() > 0 {
        lemma_run_keeps_cursor_valid(cursor, commands.drop_last());
        lemma_apply_keeps_cursor_valid(cursor.run(commands.drop_last()), commands.last());
    }
}

/// Resetting a valid cursor, or resizing any cursor, gives a valid cursor.
pub proof fn lemma_reset_and_resize_are_valid(cursor: CursorModel, new_length: nat)
    ensures
        cursor.wf() ==> cursor.reset().wf(),
        cursor.resize(new_length).wf(),
        cursor.resize(new_length).length == new_length,
{
}

/// `up` does not wrap: from index 0, any number of `Up` commands leaves the
/// cursor at index 0.
pub proof fn lemma_up_stays_at_first(cursor: CursorModel, commands: Seq<Command>)
    requires
        cursor.index == 0,
        forall|i: int| 0 <= i < commands.len() ==> commands[i] == Command::Up,
    ensures
        cursor.run(commands) == cursor,
    decreases commands.len(),
{
    if commands.len() > 0 {
        lemma_up_stays_at_first(cursor, commands.drop_last());
    }
}

/// `down` does not wrap: from the last index of a non-empty list, any number
/// of `Down` commands leaves the cursor at the last index.
pub proof fn lemma_down_stays_at_last(cursor: CursorModel, commands: Seq<Command>)
    requires
        cursor.length >= 1,
        cursor.index == cursor.length - 1,
        forall|i: int| 0 <= i < commands.len() ==> commands[i] == Command::Down,
    ensures
        cursor.run(commands) == cursor,
    decreases commands.len(),
{
    if commands.len() > 0 {
        lemma_down_stays_at_last(cursor, commands.drop_last());
    }
}

/// A page up from index `i` lands on `max(i - step, 0)`.
pub proof fn lemma_page_up_clamps(cursor: CursorModel, step: nat)
    ensures
        cursor.page_up(step).length == cursor.length,
        cursor.page_up(step).index == max(cursor.index - step, 0),
{
}

/// A page down from index `i` in a list of `n >= 1` items lands on
/// `min(i + step, n - 1)`.
pub proof fn lemma_page_down_clamps(cursor: CursorModel, step: nat)
    requires
        cursor.wf(),
        cursor.length >= 1,
    ensures
        cursor.page_down(step).length == cursor.length,
        cursor.page_down(step).index == min((cursor.index + step) as int, cursor.length - 1),
{
}

/// On an empty list every sequence of commands leaves the cursor where it
/// was, at index 0.
pub proof fn lemma_empty_list_stays_at_zero(cursor: CursorModel, commands: Seq<Command>)
    requires
        cursor.wf(),
        cursor.length == 0,
    ensures
        cursor.run(commands) == cursor,
        cursor.run(commands).index == 0,
    decreases commands.len(),
{
    if commands.len() > 0 {
        lemma_empty_list_stays_at_zero(cursor, commands.drop_last());
    }
}

/// The highlighted index of one pane together with the length of its list.
#[derive(Clone, Copy, Debug)]
pub struct ListCursor {
    selected_index: usize,
    length: usize,
}

impl View for ListCursor {
    type V = CursorModel;

    closed spec fn view(&self) -> CursorModel {
        CursorModel { index: self.selected_index as nat, length: self.length as nat }
    }
}

impl ListCursor {
    #[verifier::type_invariant]
    spec fn inv(self) -> bool {
        self@.wf()
    }

    /// A cursor at index 0 over a list of `length` items.
    pub fn new(length: usize) -> (cursor: ListCursor)
        ensures
            cursor@ == CursorModel::start(length as nat),
            cursor@.wf(),
    {
        ListCursor { selected_index: 0, length }
    }

    /// The highlighted index; 0 where the list is empty.
    pub fn selected_index(&self) -> (index: usize)
        ensures
            index == self@.index,
            self@.wf(),
    {
        proof {
            use_type_invariant(self);
        }
        self.selected_index
    }

    /// The length of the list under the cursor.
    pub fn length(&self) -> (length: usize)
        ensures
            length == self@.length,
            self@.wf(),
    {
        proof {
            use_type_invariant(self);
        }
        self.length
    }

    /// The highlighted index, or `None` where the list is empty and there is
    /// nothing to highlight.
    pub fn selection(&self) -> (selection: Option<usize>)
        ensures
            self@.wf(),
            match selection {
                Some(index) => self@.selection() == Some(index as nat),
                None => self@.selection().is_none(),
            },
    {
        proof {
            use_type_invariant(self);
        }
        if self.length == 0 {
            None
        } else {
            Some(self.selected_index)
        }
    }

    /// Moves one step toward index 0 and stays at 0.
    pub fn up(&mut self)
        ensures
            final(self)@ == old(self)@.up(),
            final(self)@.wf(),
        no_unwind
    {
        proof {
            use_type_invariant(&*self);
        }
        if self.selected_index > 0 {
            self.selected_index = self.selected_index - 1;
        }
    }

    /// Moves one step toward the last index and stays there; does nothing on
    /// an empty list.
    pub fn down(&mut self)
        ensures
            final(self)@ == old(self)@.down(),
            final(self)@.wf(),
        no_unwind
    {
        proof {
            use_type_invariant(&*self);
        }
        if self.length > 0 && self.selected_index < self.length - 1 {
            self.selected_index = self.selected_index + 1;
        }
    }

    /// Moves `step` positions toward index 0 and stops at 0: from index `i`
    /// the cursor lands on `max(i - step, 0)`.
    pub fn page_up(&mut self, step: usize)
        ensures
            final(self)@ == old(self)@.page_up(step as nat),
            final(self)@.wf(),
            final(self)@.index == max(old(self)@.index - step, 0),
        no_unwind
    {
        proof {
            use_type_invariant(&*self);
        }
        if self.selected_index > step {
            self.selected_index = self.selected_index - step;
        } else if self.selected_index > 0 {
            self.selected_index = 0;
        }
    }

    /// Moves `step` positions toward the last index and stops there: from
    /// index `i` in a list of `n >= 1` items the cursor lands on
    /// `min(i + step, n - 1)`. Does nothing on an empty list.
    pub fn page_down(&mut self, step: usize)
        ensures
            final(self)@ == old(self)@.page_down(step as nat),
            final(self)@.wf(),
            old(self)@.length >= 1 ==> final(self)@.index == min(
                (old(self)@.index + step) as int,
                old(self)@.length - 1,
            ),
        no_unwind
    {
        proof {
            use_type_invariant(&*self);
        }
        if self.length == 0 {
            return ;
        }
        let last: usize = self.length - 1;
        if step < last - self.selected_index {
            self.selected_index = self.selected_index + step;
        } else if self.selected_index < last {
            self.selected_index = last;
        }
    }

    /// Returns to index 0.
    pub fn reset(&mut self)
        ensures
            final(self)@ == old(self)@.reset(),
            final(self)@.wf(),
        no_unwind
    {
        proof {
            use_type_invariant(&*self);
        }
        self.selected_index = 0;
    }

    /// Adopts the length of a replaced list. An index that no longer fits
    /// moves to the new last position, or to 0 where the new list is empty.
    pub fn resize(&mut self, new_length: usize)
        ensures
            final(self)@ == old(self)@.resize(new_length as nat),
            final(self)@.wf(),
        no_unwind
    {
        let index: usize = if new_length == 0 {
            0
        } else if self.selected_index >= new_length {
            new_length - 1
        } else {
            self.selected_index
        };
        *self = ListCursor { selected_index: index, length: new_length };
    }

    /// Carries out one command.
    pub fn apply(&mut self, command: Command)
        ensures
            final(self)@ == old(self)@.apply(command),
            final(self)@.wf(),
        no_unwind
    {
        match command {
            Command::Up => self.up(),
            Command::Down => self.down(),
            Command::PageUp(step) => self.page_up(step),
            Command::PageDown(step) => self.page_down(step),
        }
    }
}

} // verus!
