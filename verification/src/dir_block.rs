//! The directory pane: the subdirectories of a root path.

use vstd::prelude::*;
use crate::cursor::{Command, ListCursor};
use crate::listing::{children, list_immediate_children, EntryKind, Walked};
use crate::pane::{PaneModel, WidgetData};
use crate::style::{block_style, selected_dir_style, title_span};

verus! {

/// The title of the directory pane.
pub const DIR_TITLE: &'static str = "Dir";

/// The mark before the highlighted entry of the directory pane.
pub const DIR_HIGHLIGHT_SYMBOL: &'static str = "##";

/// The pane that lists the directories directly under a root path. The root
/// is fixed when the pane is built; afterwards only the cursor moves.
#[derive(Debug)]
pub struct DirBlock {
    root: String,
    dirs: Vec<String>,
    cursor: ListCursor,
    is_active: bool,
}

impl View for DirBlock {
    type V = PaneModel;

    closed spec fn view(&self) -> PaneModel {
        PaneModel {
            source: self.root@,
            entries: self.dirs.deep_view(),
            cursor: self.cursor@,
            is_active: self.is_active,
        }
    }
}

impl DirBlock {
    #[verifier::type_invariant]
    spec fn inv(self) -> bool {
        self@.wf()
    }

    /// The directories directly under the root of a walk, in walk order;
    /// none if the walk failed.
    pub fn dirs(walk: &Vec<Walked>) -> (dirs: Vec<String>)
        ensures
            dirs.deep_view() == children(walk@, EntryKind::Directory),
    {
        list_immediate_children(walk, EntryKind::Directory)
    }

    /// Builds the pane for `path` from a walk of that path, with the cursor
    /// on the first directory.
    pub fn new(path: String, walk: &Vec<Walked>) -> (block: DirBlock)
        ensures
            block@ == PaneModel::listed(path@, children(walk@, EntryKind::Directory)),
            block@.wf(),
    {
        let dirs = Self::dirs(walk);
        let cursor = ListCursor::new(dirs.len());
        DirBlock { root: path, dirs, cursor, is_active: false }
    }

    /// The root path that the pane lists.
    pub fn root_path(&self) -> (root: &String)
        ensures
            root@ == self@.source,
    {
        &self.root
    }

    /// The listed directories, in listing order.
    pub fn entries(&self) -> (entries: &Vec<String>)
        ensures
            entries.deep_view() == self@.entries,
            self@.wf(),
    {
        proof {
            use_type_invariant(self);
        }
        &self.dirs
    }

    /// The highlighted index; 0 where the pane is empty.
    pub fn selected_index(&self) -> (index: usize)
        ensures
            index == self@.cursor.index,
            self@.wf(),
    {
        proof {
            use_type_invariant(self);
        }
        self.cursor.selected_index()
    }

    /// Whether the pane is drawn as the one that has the focus.
    pub fn is_active(&self) -> (is_active: bool)
        ensures
            is_active == self@.is_active,
    {
        self.is_active
    }

    /// The selection to hand to the renderer: the highlighted index, or
    /// `None` where the pane is empty, so that nothing indexes an empty list.
    pub fn current_state(&self) -> (selected: Option<usize>)
        ensures
            self@.wf(),
            match selected {
                Some(index) => self@.cursor.selection() == Some(index as nat),
                None => self@.cursor.selection().is_none(),
            },
    {
        proof {
            use_type_invariant(self);
        }
        self.cursor.selection()
    }

    /// The highlighted directory, or `None` where the pane is empty.
    pub fn current_selection(&self) -> (selection: Option<&String>)
        ensures
            self@.wf(),
            match selection {
                Some(path) => self@.selection() == Some(path@),
                None => self@.selection().is_none(),
            },
    {
        proof {
            use_type_invariant(self);
        }
        match self.cursor.selection() {
            Some(index) => Some(&self.dirs[index]),
            None => None,
        }
    }

    /// The directory whose files are to be shown: the highlighted one, or
    /// the root itself where it has no subdirectory.
    pub fn selected_path(&self) -> (path: &String)
        ensures
            path@ == self@.selected_path(),
    {
        match self.current_selection() {
            Some(path) => path,
            None => &self.root,
        }
    }

    /// What the renderer needs to draw the pane.
    pub fn widget(&self) -> (data: WidgetData<'_>)
        ensures
            data.shows(self@, DIR_TITLE@, DIR_HIGHLIGHT_SYMBOL@),
            self@.wf(),
    {
        proof {
            use_type_invariant(self);
        }
        WidgetData {
            title: title_span(DIR_TITLE),
            border_style: block_style(self.is_active),
            highlight_symbol: DIR_HIGHLIGHT_SYMBOL,
            highlight_style: selected_dir_style(),
            entries: &self.dirs,
            selected_index: self.cursor.selected_index(),
            is_active: self.is_active,
        }
    }

    /// Marks the pane as having the focus, or not.
    pub fn set_active(&mut self, is_active: bool)
        ensures
            final(self)@ == old(self)@.activated(is_active),
            final(self)@.wf(),
        no_unwind
    {
        proof {
            use_type_invariant(&*self);
        }
        self.is_active = is_active;
    }

    /// Moves the cursor by `size` toward the first directory.
    pub fn page_up(&mut self, size: usize)
        ensures
            final(self)@ == old(self)@.apply(Command::PageUp(size)),
            final(self)@.wf(),
        no_unwind
    {
        proof {
            use_type_invariant(&*self);
        }
        self.cursor.page_up(size);
    }

    /// Moves the cursor by `size` toward the last directory.
    pub fn page_down(&mut self, size: usize)
        ensures
            final(self)@ == old(self)@.apply(Command::PageDown(size)),
            final(self)@.wf(),
        no_unwind
    {
        proof {
            use_type_invariant(&*self);
        }
        self.cursor.page_down(size);
    }

    /// Moves the cursor one directory toward the first.
    pub fn up(&mut self)
        ensures
            final(self)@ == old(self)@.apply(Command::Up),
            final(self)@.wf(),
        no_unwind
    {
        proof {
            use_type_invariant(&*self);
        }
        self.cursor.up();
    }

    /// Moves the cursor one directory toward the last.
    pub fn down(&mut self)
        ensures
            final(self)@ == old(self)@.apply(Command::Down),
            final(self)@.wf(),
        no_unwind
    {
        proof {
            use_type_invariant(&*self);
        }
        self.cursor.down();
    }

    /// Carries out one navigation command on the cursor.
    pub fn navigate(&mut self, command: Command)
        ensures
            final(self)@ == old(self)@.apply(command),
            final(self)@.wf(),
        no_unwind
    {
        proof {
            use_type_invariant(&*self);
        }
        self.cursor.apply(command);
    }
}

} // verus!
