//! The file pane: the files of the directory that the directory pane
//! designates.

use vstd::prelude::*;
use crate::cursor::{Command, ListCursor};
use crate::listing::{children, list_immediate_children, EntryKind, Walked};
use crate::pane::{PaneModel, WidgetData};
use crate::style::{block_style, selected_dir_style, title_span};

verus! {

/// The title of the file pane.
pub const FILES_TITLE: &'static str = "Files";

/// The mark before the highlighted entry of the file pane.
pub const FILES_HIGHLIGHT_SYMBOL: &'static str = ">>";

/// The pane that lists the files directly under one directory. It is rebuilt
/// from a new listing whenever another directory is chosen; its cursor is
/// never carried over from one directory to the next.
#[derive(Debug)]
pub struct FilesBlock {
    source: String,
    files: Vec<String>,
    cursor: ListCursor,
    is_active: bool,
}

impl View for FilesBlock {
    type V = PaneModel;

    closed spec fn view(&self) -> PaneModel {
        PaneModel {
            source: self.source@,
            entries: self.files.deep_view(),
            cursor: self.cursor@,
            is_active: self.is_active,
        }
    }
}

impl FilesBlock {
    #[verifier::type_invariant]
    spec fn inv(self) -> bool {
        self@.wf()
    }

    /// The files directly under the root of a walk, in walk order; none if
    /// the walk failed.
    pub fn files(walk: &Vec<Walked>) -> (files: Vec<String>)
        ensures
            files.deep_view() == children(walk@, EntryKind::File),
    {
        list_immediate_children(walk, EntryKind::File)
    }

    /// Builds the pane for `selected_dir` from a walk of that directory,
    /// with the cursor on the first file.
    pub fn new(selected_dir: String, walk: &Vec<Walked>) -> (block: FilesBlock)
        ensures
            block@ == PaneModel::listed(selected_dir@, children(walk@, EntryKind::File)),
            block@.wf(),
    {
        let files = Self::files(walk);
        let cursor = ListCursor::new(files.len());
        FilesBlock { source: selected_dir, files, cursor, is_active: false }
    }

    /// Replaces the list by the files that a walk of `new_source_path`
    /// found. The cursor takes the new length and returns to index 0,
    /// wherever it stood; the focus flag is kept.
    pub fn refresh(&mut self, new_source_path: String, walk: &Vec<Walked>)
        ensures
            final(self)@ == old(self)@.refreshed(
                new_source_path@,
                children(walk@, EntryKind::File),
            ),
            final(self)@.wf(),
            final(self)@.cursor.index == 0,
    {
        let files = Self::files(walk);
        let mut cursor = self.cursor;
        cursor.resize(files.len());
        cursor.reset();
        *self = FilesBlock { source: new_source_path, files, cursor, is_active: self.is_active };
    }

    /// The directory whose files the pane lists.
    pub fn source_path(&self) -> (source: &String)
        ensures
            source@ == self@.source,
    {
        &self.source
    }

    /// The listed files, in listing order.
    pub fn entries(&self) -> (entries: &Vec<String>)
        ensures
            entries.deep_view() == self@.entries,
            self@.wf(),
    {
        proof {
            use_type_invariant(self);
        }
        &self.files
    }

    /// The highlighted index; 0 where the pane is empty.
    pub fn selected_index(&self) -> (index: usize)
        ensures
            index == self@.cursor.index,
            self@.wf(),
    {
        proof {
            use_type_invariant(self);
        }
        self.cursor.selected_index()
    }

    /// Whether the pane is drawn as the one that has the focus.
    pub fn is_active(&self) -> (is_active: bool)
        ensures
            is_active == self@.is_active,
    {
        self.is_active
    }

    /// The selection to hand to the renderer: the highlighted index, or
    /// `None` where the pane is empty, so that nothing indexes an empty list.
    pub fn current_state(&self) -> (selected: Option<usize>)
        ensures
            self@.wf(),
            match selected {
                Some(index) => self@.cursor.selection() == Some(index as nat),
                None => self@.cursor.selection().is_none(),
            },
    {
        proof {
            use_type_invariant(self);
        }
        self.cursor.selection()
    }

    /// The highlighted file, or `None` where the pane is empty.
    pub fn current_selection(&self) -> (selection: Option<&String>)
        ensures
            self@.wf(),
            match selection {
                Some(path) => self@.selection() == Some(path@),
                None => self@.selection().is_none(),
            },
    {
        proof {
            use_type_invariant(self);
        }
        match self.cursor.selection() {
            Some(index) => Some(&self.files[index]),
            None => None,
        }
    }

    /// What the renderer needs to draw the pane.
    pub fn widget(&self) -> (data: WidgetData<'_>)
        ensures
            data.shows(self@, FILES_TITLE@, FILES_HIGHLIGHT_SYMBOL@),
            self@.wf(),
    {
        proof {
            use_type_invariant(self);
        }
        WidgetData {
            title: title_span(FILES_TITLE),
            border_style: block_style(self.is_active),
            highlight_symbol: FILES_HIGHLIGHT_SYMBOL,
            highlight_style: selected_dir_style(),
            entries: &self.files,
            selected_index: self.cursor.selected_index(),
            is_active: self.is_active,
        }
    }

    /// Marks the pane as having the focus, or not.
    pub fn set_active(&mut self, is_active: bool)
        ensures
            final(self)@ == old(self)@.activated(is_active),
            final(self)@.wf(),
        no_unwind
    {
        proof {
            use_type_invariant(&*self);
        }
        self.is_active = is_active;
    }

    /// Moves the cursor by `size` toward the first file.
    pub fn page_up(&mut self, size: usize)
        ensures
            final(self)@ == old(self)@.apply(Command::PageUp(size)),
            final(self)@.wf(),
        no_unwind
    {
        proof {
            use_type_invariant(&*self);
        }
        self.cursor.page_up(size);
    }

    /// Moves the cursor by `size` toward the last file.
    pub fn page_down(&mut self, size: usize)
        ensures
            final(self)@ == old(self)@.apply(Command::PageDown(size)),
            final(self)@.wf(),
        no_unwind
    {
        proof {
            use_type_invariant(&*self);
        }
        self.cursor.page_down(size);
    }

    /// Moves the cursor one file toward the first.
    pub fn up(&mut self)
        ensures
            final(self)@ == old(self)@.apply(Command::Up),
            final(self)@.wf(),
        no_unwind
    {
        proof {
            use_type_invariant(&*self);
        }
        self.cursor.up();
    }

    /// Moves the cursor one file toward the last.
    pub fn down(&mut self)
        ensures
            final(self)@ == old(self)@.apply(Command::Down),
            final(self)@.wf(),
        no_unwind
    {
        proof {
            use_type_invariant(&*self);
        }
        self.cursor.down();
    }

    /// Carries out one navigation command on the cursor.
    pub fn navigate(&mut self, command: Command)
        ensures
            final(self)@ == old(self)@.apply(command),
            final(self)@.wf(),
        no_unwind
    {
        proof {
            use_type_invariant(&*self);
        }
        self.cursor.apply(command);
    }
}

} // verus!
