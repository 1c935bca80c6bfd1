//! The state that both panes share, and what a renderer reads of a pane.

use vstd::prelude::*;
use crate::cursor::{Command, CursorModel};
use crate::style::{Span, Style};

verus! {

/// A pane as its renderer sees it: the path that was listed, the entries
/// found there in listing order, the cursor over them, and whether the pane
/// has the input focus.
pub struct PaneModel {
    pub source: Seq<char>,
    pub entries: Seq<Seq<char>>,
    pub cursor: CursorModel,
    pub is_active: bool,
}

impl PaneModel {
    /// The cursor is valid and spans exactly the entries.
    pub open spec fn wf(self) -> bool {
        &&& self.cursor.wf()
        &&& self.cursor.length == self.entries.len()
    }

    /// A pane that was just listed: the cursor is at index 0 and the pane
    /// does not have the focus.
    pub open spec fn listed(source: Seq<char>, entries: Seq<Seq<char>>) -> PaneModel {
        PaneModel { source, entries, cursor: CursorModel::start(entries.len()), is_active: false }
    }

    /// The highlighted entry, or `None` where the pane is empty.
    pub open spec fn selection(self) -> Option<Seq<char>> {
        if self.entries.len() == 0 {
            None
        } else {
            Some(self.entries[self.cursor.index as int])
        }
    }

    /// The path that the pane designates: the highlighted entry, or the
    /// listed path itself where there is no entry to highlight.
    pub open spec fn selected_path(self) -> Seq<char> {
        match self.selection() {
            Some(path) => path,
            None => self.source,
        }
    }

    /// The pane after a navigation command: only the cursor moves.
    pub open spec fn apply(self, command: Command) -> PaneModel {
        PaneModel { cursor: self.cursor.apply(command), ..self }
    }

    /// The pane with its focus flag set.
    pub open spec fn activated(self, is_active: bool) -> PaneModel {
        PaneModel { is_active, ..self }
    }

    /// The pane after its list was replaced by a new listing: the cursor
    /// takes the new length and returns to index 0; the focus flag stays.
    pub open spec fn refreshed(self, source: Seq<char>, entries: Seq<Seq<char>>) -> PaneModel {
        PaneModel {
            source,
            entries,
            cursor: self.cursor.resize(entries.len()).reset(),
            is_active: self.is_active,
        }
    }
}

/// What a renderer reads of one pane: how to draw its frame and its
/// highlight, the entries in listing order, the highlighted index (0, and to
/// be ignored, where there are no entries) and whether the pane has the
/// focus.
#[derive(Debug)]
pub struct WidgetData<'a> {
    pub title: Span,
    pub border_style: Style,
    pub highlight_symbol: &'static str,
    pub highlight_style: Style,
    pub entries: &'a Vec<String>,
    pub selected_index: usize,
    pub is_active: bool,
}

impl<'a> WidgetData<'a> {
    /// The data show the given pane, under the given title and with the
    /// given mark before the highlighted entry: the title is in the title
    /// style, the border is in the active style exactly where the pane has
    /// the focus, and the highlighted entry is in the style of selections.
    pub open spec fn shows(self, pane: PaneModel, title: Seq<char>, symbol: Seq<char>) -> bool {
        &&& self.title.content@ == title
        &&& self.title.style == Style::title()
        &&& self.border_style == Style::block(pane.is_active)
        &&& self.highlight_symbol@ == symbol
        &&& self.highlight_style == Style::selected_dir()
        &&& self.entries.deep_view() == pane.entries
        &&& self.selected_index == pane.cursor.index
        &&& self.is_active == pane.is_active
    }
}

/// A navigation command keeps a pane well formed and leaves its entries, its
/// source and its focus flag alone.
pub proof fn lemma_apply_keeps_pane_valid(pane: PaneModel, command: Command)
    requires
        pane.wf(),
    ensures
        pane.apply(command).wf(),
        pane.apply(command).entries == pane.entries,
        pane.apply(command).source == pane.source,
        pane.apply(command).is_active == pane.is_active,
{
}

/// However a pane looked before, after a refresh it shows exactly the new
/// listing with the cursor at index 0.
pub proof fn lemma_refresh_replaces_listing(
    pane: PaneModel,
    source: Seq<char>,
    entries: Seq<Seq<char>>,
)
    ensures
        pane.refreshed(source, entries).wf(),
        pane.refreshed(source, entries).entries == entries,
        pane.refreshed(source, entries).source == source,
        pane.refreshed(source, entries).cursor.index == 0,
        pane.refreshed(source, entries) == PaneModel::listed(source, entries).activated(
            pane.is_active,
        ),
{
}

} // verus!
