//! The session: both panes, the focus, and the rule that keeps the file pane
//! in step with the directory pane.
//!
//! The session never reads the disk. When a command moves the directory
//! pane to another directory, the session empties the file pane and answers
//! with `Action::Relist`; the host walks that directory and hands the walk to
//! `on_dir_change`, which fills the file pane.

use vstd::prelude::*;
use crate::cursor::Command;
use crate::dir_block::{DirBlock, DIR_HIGHLIGHT_SYMBOL, DIR_TITLE};
use crate::file_block::{FilesBlock, FILES_HIGHLIGHT_SYMBOL, FILES_TITLE};
use crate::input::{binding, input_for_key, Input, Key, PAGE_SIZE};
use crate::listing::{children, EntryKind, Walked};
use crate::pane::{PaneModel, WidgetData};

verus! {

/// The pane that receives navigation commands.
#[derive(Clone, Copy, Debug, PartialEq, Eq, Structural)]
pub enum ActiveBlock {
    Dir,
    Files,
}

/// What the host has to do after an input was handled.
#[derive(Debug, PartialEq, Eq)]
pub enum Action {
    /// Nothing: draw the panes as they are.
    Idle,
    /// Walk the given directory and hand the walk back to the session, so
    /// that the file pane shows its files.
    Relist(String),
    /// Leave the event loop.
    Quit,
}

/// An `Action` with its path as a sequence of characters.
pub enum ActionModel {
    Idle,
    Relist(Seq<char>),
    Quit,
}

impl View for Action {
    type V = ActionModel;

    open spec fn view(&self) -> ActionModel {
        match self {
            Action::Idle => ActionModel::Idle,
            Action::Relist(path) => ActionModel::Relist(path@),
            Action::Quit => ActionModel::Quit,
        }
    }
}

/// What can happen to a session: a navigation command, a change of focus,
/// or the host handing in the walk of the designated directory.
pub enum Event {
    Navigate(Command),
    SwitchFocus,
    Listed(Seq<Walked>),
}

/// The mathematical state of a session.
pub struct SessionModel {
    pub dirs: PaneModel,
    pub files: PaneModel,
    pub focus: ActiveBlock,
}

impl SessionModel {
    /// Both panes are well formed, and exactly the focused one is marked
    /// active.
    pub open spec fn wf(self) -> bool {
        &&& self.dirs.wf()
        &&& self.files.wf()
        &&& self.dirs.is_active == (self.focus == ActiveBlock::Dir)
        &&& self.files.is_active == (self.focus == ActiveBlock::Files)
    }

    /// The file pane belongs to the directory that the directory pane
    /// designates.
    pub open spec fn in_sync(self) -> bool {
        self.files.source == self.dirs.selected_path()
    }

    /// A new session over two panes: the focus is on the directory pane.
    pub open spec fn start(dirs: PaneModel, files: PaneModel) -> SessionModel {
        SessionModel { dirs, files, focus: ActiveBlock::Dir }.focused(ActiveBlock::Dir)
    }

    /// The session with the focus on the given pane: exactly that pane is
    /// marked active.
    pub open spec fn focused(self, focus: ActiveBlock) -> SessionModel {
        SessionModel {
            dirs: self.dirs.activated(focus == ActiveBlock::Dir),
            files: self.files.activated(focus == ActiveBlock::Files),
            focus,
        }
    }

    /// The session with the focus on the other pane.
    pub open spec fn switched(self) -> SessionModel {
        match self.focus {
            ActiveBlock::Dir => self.focused(ActiveBlock::Files),
            ActiveBlock::Files => self.focused(ActiveBlock::Dir),
        }
    }

    /// Whether a command makes the directory pane designate another path.
    pub open spec fn selection_changes(self, command: Command) -> bool {
        &&& self.focus == ActiveBlock::Dir
        &&& self.dirs.apply(command).selected_path() != self.dirs.selected_path()
    }

    /// The session after a navigation command. The command goes to the
    /// focused pane. Where it makes the directory pane designate another
    /// path, the file pane is emptied for that path; else the other pane is
    /// left as it is.
    pub open spec fn navigated(self, command: Command) -> SessionModel {
        match self.focus {
            ActiveBlock::Files => SessionModel { files: self.files.apply(command), ..self },
            ActiveBlock::Dir => {
                let dirs = self.dirs.apply(command);
                if self.selection_changes(command) {
                    SessionModel {
                        dirs,
                        files: self.files.refreshed(dirs.selected_path(), Seq::empty()),
                        focus: self.focus,
                    }
                } else {
                    SessionModel { dirs, ..self }
                }
            },
        }
    }

    /// What the host is asked to do after a navigation command: to list the
    /// newly designated directory if the command changed it, else nothing.
    pub open spec fn request(self, command: Command) -> ActionModel {
        if self.selection_changes(command) {
            ActionModel::Relist(self.dirs.apply(command).selected_path())
        } else {
            ActionModel::Idle
        }
    }

    /// The session after the host handed in a walk of the designated
    /// directory: the file pane shows the files of that walk, from index 0.
    pub open spec fn relisted(self, walk: Seq<Walked>) -> SessionModel {
        SessionModel {
            files: self.files.refreshed(
                self.dirs.selected_path(),
                children(walk, EntryKind::File),
            ),
            ..self
        }
    }

    /// The session after an input: the four movement inputs navigate, with
    /// `PAGE_SIZE` as the size of a page, `SwitchFocus` switches, and `Quit`
    /// leaves the session as it is.
    pub open spec fn handled(self, input: Input) -> SessionModel {
        match input {
            Input::MoveUp => self.navigated(Command::Up),
            Input::MoveDown => self.navigated(Command::Down),
            Input::PageUp => self.navigated(Command::PageUp(PAGE_SIZE)),
            Input::PageDown => self.navigated(Command::PageDown(PAGE_SIZE)),
            Input::SwitchFocus => self.switched(),
            Input::Quit => self,
        }
    }

    /// The session after one event.
    pub open spec fn step(self, event: Event) -> SessionModel {
        match event {
            Event::Navigate(command) => self.navigated(command),
            Event::SwitchFocus => self.switched(),
            Event::Listed(walk) => self.relisted(walk),
        }
    }

    /// The session after a sequence of events, first to last.
    pub open spec fn run(self, events: Seq<Event>) -> SessionModel
        decreases events.len(),
    {
        if events.len() == 0 {
            self
        } else {
            self.run(events.drop_last()).step(events.last())
        }
    }

    /// What the host is asked to do after an input.
    pub open spec fn response(self, input: Input) -> ActionModel {
        match input {
            Input::MoveUp => self.request(Command::Up),
            Input::MoveDown => self.request(Command::Down),
            Input::PageUp => self.request(Command::PageUp(PAGE_SIZE)),
            Input::PageDown => self.request(Command::PageDown(PAGE_SIZE)),
            Input::SwitchFocus => ActionModel::Idle,
            Input::Quit => ActionModel::Quit,
        }
    }
}

/// A session that starts over well-formed panes is well formed.
pub proof fn lemma_start_is_valid(dirs: PaneModel, files: PaneModel)
    requires
        dirs.wf(),
        files.wf(),
    ensures
        SessionModel::start(dirs, files).wf(),
        SessionModel::start(dirs, files).focus == ActiveBlock::Dir,
{
}

/// Every event keeps a session well formed: in each pane the index stays
/// below the length of a non-empty list and at 0 on an empty one, and
/// exactly the focused pane is marked active.
pub proof fn lemma_step_keeps_session_valid(session: SessionModel, event: Event)
    requires
        session.wf(),
    ensures
        session.step(event).wf(),
{
}

/// Every input keeps a session well formed.
pub proof fn lemma_input_keeps_session_valid(session: SessionModel, input: Input)
    requires
        session.wf(),
    ensures
        session.handled(input).wf(),
{
}

/// Every state that a session can reach is well formed: whatever events
/// arrive, in each pane the index is below the length of a non-empty list
/// and 0 on an empty one.
pub proof fn lemma_reachable_sessions_are_valid(
    dirs: PaneModel,
    files: PaneModel,
    events: Seq<Event>,
)
    requires
        dirs.wf(),
        files.wf(),
    ensures
        SessionModel::start(dirs, files).run(events).wf(),
        SessionModel::start(dirs, files).run(events).dirs.cursor.wf(),
        SessionModel::start(dirs, files).run(events).files.cursor.wf(),
    decreases events.len(),
{
    let start = SessionModel::start(dirs, files);
    if events.len() > 0 {
        lemma_reachable_sessions_are_valid(dirs, files, events.drop_last());
        lemma_step_keeps_session_valid(start.run(events.drop_last()), events.last());
    }
}

/// The file pane never belongs to another directory than the one that the
/// directory pane designates: a relisting makes it so, and every event keeps
/// it so.
pub proof fn lemma_step_keeps_sync(session: SessionModel, event: Event)
    ensures
        event is Listed ==> session.step(event).in_sync(),
        session.in_sync() ==> session.step(event).in_sync(),
{
}

/// Every input keeps the file pane with the designated directory.
pub proof fn lemma_input_keeps_sync(session: SessionModel, input: Input)
    requires
        session.in_sync(),
    ensures
        session.handled(input).in_sync(),
{
}

/// A session whose file pane belongs to the designated directory keeps it
/// so through every sequence of events.
pub proof fn lemma_reachable_sessions_are_in_sync(session: SessionModel, events: Seq<Event>)
    requires
        session.in_sync(),
    ensures
        session.run(events).in_sync(),
    decreases events.len(),
{
    if events.len() > 0 {
        lemma_reachable_sessions_are_in_sync(session, events.drop_last());
        lemma_step_keeps_sync(session.run(events.drop_last()), events.last());
    }
}

/// Giving the focus to a pane keeps a session well formed and moves no
/// cursor and no entry; switching twice gives the session back.
pub proof fn lemma_focus_changes_only_the_focus(session: SessionModel, focus: ActiveBlock)
    requires
        session.wf(),
    ensures
        session.focused(focus).wf(),
        session.focused(focus).focus == focus,
        session.focused(focus).dirs == session.dirs.activated(focus == ActiveBlock::Dir),
        session.focused(focus).files == session.files.activated(focus == ActiveBlock::Files),
        session.focused(session.focus) == session,
        session.switched().focus != session.focus,
        session.switched().switched() == session,
{
}

/// A relisting replaces the file pane's entries by the files of the walk
/// and puts its cursor at index 0, wherever the cursor stood before. The
/// directory pane and the focus are left alone.
pub proof fn lemma_relisting_replaces_files(session: SessionModel, walk: Seq<Walked>)
    ensures
        session.relisted(walk).files.entries == children(walk, EntryKind::File),
        session.relisted(walk).files.cursor.index == 0,
        session.relisted(walk).files.cursor.length == children(walk, EntryKind::File).len(),
        session.relisted(walk).files.source == session.dirs.selected_path(),
        session.relisted(walk).dirs == session.dirs,
        session.relisted(walk).focus == session.focus,
{
}

/// A command that leaves the directory pane on the same path asks for no
/// listing and leaves the file pane exactly as it was.
pub proof fn lemma_unchanged_selection_requests_nothing(session: SessionModel, command: Command)
    requires
        session.focus == ActiveBlock::Dir,
        session.dirs.apply(command).selected_path() == session.dirs.selected_path(),
    ensures
        session.request(command) == ActionModel::Idle,
        session.navigated(command).files == session.files,
{
}

/// At the first directory `Up` asks for no listing, and neither does `Down`
/// at the last one: the clamped cursor has not moved.
pub proof fn lemma_clamped_move_requests_nothing(session: SessionModel)
    requires
        session.wf(),
        session.focus == ActiveBlock::Dir,
    ensures
        session.dirs.cursor.index == 0 ==> {
            &&& session.request(Command::Up) == ActionModel::Idle
            &&& session.navigated(Command::Up) == session
        },
        session.dirs.cursor.index + 1 >= session.dirs.cursor.length ==> {
            &&& session.request(Command::Down) == ActionModel::Idle
            &&& session.navigated(Command::Down) == session
        },
{
}

/// With the focus on the file pane, navigation moves only that pane's
/// cursor and asks for no listing.
pub proof fn lemma_file_navigation_is_local(session: SessionModel, command: Command)
    requires
        session.focus == ActiveBlock::Files,
    ensures
        session.request(command) == ActionModel::Idle,
        session.navigated(command).dirs == session.dirs,
        session.navigated(command).files == session.files.apply(command),
        session.navigated(command).focus == session.focus,
{
}

/// The session of one run of the browser.
#[derive(Debug)]
pub struct AppState {
    dir_block: DirBlock,
    files_block: FilesBlock,
    active_block: ActiveBlock,
}

impl View for AppState {
    type V = SessionModel;

    closed spec fn view(&self) -> SessionModel {
        SessionModel {
            dirs: self.dir_block@,
            files: self.files_block@,
            focus: self.active_block,
        }
    }
}

impl AppState {
    #[verifier::type_invariant]
    spec fn inv(self) -> bool {
        self@.wf()
    }

    /// Starts a session over the two panes, with the focus on the directory
    /// pane.
    pub fn new(dir_block: DirBlock, files_block: FilesBlock) -> (state: AppState)
        ensures
            state@ == SessionModel::start(dir_block@, files_block@),
            state@.wf(),
    {
        let mut dir_block = dir_block;
        let mut files_block = files_block;
        dir_block.set_active(true);
        files_block.set_active(false);
        AppState { dir_block, files_block, active_block: ActiveBlock::Dir }
    }

    /// The directory pane.
    pub fn dir_block(&self) -> (block: &DirBlock)
        ensures
            block@ == self@.dirs,
            self@.wf(),
    {
        proof {
            use_type_invariant(self);
        }
        &self.dir_block
    }

    /// The file pane.
    pub fn files_block(&self) -> (block: &FilesBlock)
        ensures
            block@ == self@.files,
            self@.wf(),
    {
        proof {
            use_type_invariant(self);
        }
        &self.files_block
    }

    /// The pane that has the focus.
    pub fn active_block(&self) -> (focus: ActiveBlock)
        ensures
            focus == self@.focus,
    {
        self.active_block
    }

    /// The directory whose files the file pane is to show.
    pub fn selected_dir(&self) -> (path: &String)
        ensures
            path@ == self@.dirs.selected_path(),
    {
        self.dir_block.selected_path()
    }

    /// The highlighted file, or `None` where the file pane is empty.
    pub fn selected_file(&self) -> (selection: Option<&String>)
        ensures
            match selection {
                Some(path) => self@.files.selection() == Some(path@),
                None => self@.files.selection().is_none(),
            },
    {
        self.files_block.current_selection()
    }

    /// Moves the focus to the other pane.
    pub fn switch_block(&mut self)
        ensures
            final(self)@ == old(self)@.switched(),
            final(self)@.wf(),
    {
        match self.active_block {
            ActiveBlock::Files => self.activate_block(ActiveBlock::Dir),
            ActiveBlock::Dir => self.activate_block(ActiveBlock::Files),
        }
    }

    /// Gives the focus to a pane and marks exactly that pane as active.
    /// Entries and cursors stay as they are.
    pub fn activate_block(&mut self, focus: ActiveBlock)
        ensures
            final(self)@ == old(self)@.focused(focus),
            final(self)@.wf(),
    {
        let AppState { dir_block, files_block, active_block: _ } = self.take();
        let mut dir_block = dir_block;
        let mut files_block = files_block;
        match focus {
            ActiveBlock::Dir => {
                files_block.set_active(false);
                dir_block.set_active(true);
            },
            ActiveBlock::Files => {
                files_block.set_active(true);
                dir_block.set_active(false);
            },
        }
        *self = AppState { dir_block, files_block, active_block: focus };
    }

    /// Carries out a navigation command on the focused pane. Where the
    /// command makes the directory pane designate another directory, the
    /// file pane is emptied and the answer is `Action::Relist` with that
    /// directory; in every other case the answer is `Action::Idle` and the
    /// pane without the focus is left untouched.
    pub fn navigate(&mut self, command: Command) -> (action: Action)
        ensures
            final(self)@ == old(self)@.navigated(command),
            action@ == old(self)@.request(command),
            final(self)@.wf(),
    {
        proof {
            use_type_invariant(&*self);
        }
        match self.active_block {
            ActiveBlock::Files => {
                self.files_block.navigate(command);
                Action::Idle
            },
            ActiveBlock::Dir => {
                let before: usize = self.dir_block.selected_index();
                self.dir_block.navigate(command);
                let after: usize = self.dir_block.selected_index();
                if before == after {
                    return Action::Idle;
                }
                let dirs = self.dir_block.entries();
                if dirs[before] == dirs[after] {
                    return Action::Idle;
                }
                let path = dirs[after].clone();
                let nothing: Vec<Walked> = Vec::new();
                proof {
                    assert(children(nothing@, EntryKind::File) =~= Seq::empty());
                }
                self.on_dir_change(&nothing);
                Action::Relist(path)
            },
        }
    }

    /// Moves the focused pane's cursor one step toward index 0.
    pub fn up(&mut self) -> (action: Action)
        ensures
            final(self)@ == old(self)@.navigated(Command::Up),
            action@ == old(self)@.request(Command::Up),
            final(self)@.wf(),
    {
        self.navigate(Command::Up)
    }

    /// Moves the focused pane's cursor one step toward the last index.
    pub fn down(&mut self) -> (action: Action)
        ensures
            final(self)@ == old(self)@.navigated(Command::Down),
            action@ == old(self)@.request(Command::Down),
            final(self)@.wf(),
    {
        self.navigate(Command::Down)
    }

    /// Moves the focused pane's cursor by `size` toward index 0.
    pub fn page_up(&mut self, size: usize) -> (action: Action)
        ensures
            final(self)@ == old(self)@.navigated(Command::PageUp(size)),
            action@ == old(self)@.request(Command::PageUp(size)),
            final(self)@.wf(),
    {
        self.navigate(Command::PageUp(size))
    }

    /// Moves the focused pane's cursor by `size` toward the last index.
    pub fn page_down(&mut self, size: usize) -> (action: Action)
        ensures
            final(self)@ == old(self)@.navigated(Command::PageDown(size)),
            action@ == old(self)@.request(Command::PageDown(size)),
            final(self)@.wf(),
    {
        self.navigate(Command::PageDown(size))
    }

    /// Handles one input and says what the host has to do next.
    pub fn handle(&mut self, input: Input) -> (action: Action)
        ensures
            final(self)@ == old(self)@.handled(input),
            action@ == old(self)@.response(input),
            final(self)@.wf(),
    {
        proof {
            use_type_invariant(&*self);
        }
        match input {
            Input::MoveUp => self.up(),
            Input::MoveDown => self.down(),
            Input::PageUp => self.page_up(PAGE_SIZE),
            Input::PageDown => self.page_down(PAGE_SIZE),
            Input::SwitchFocus => {
                self.switch_block();
                Action::Idle
            },
            Input::Quit => Action::Quit,
        }
    }

    /// Handles a key press: the input that the key is bound to, or nothing
    /// where it is bound to none.
    pub fn on_key(&mut self, key: Key) -> (action: Action)
        ensures
            match binding(key) {
                Some(input) => {
                    &&& final(self)@ == old(self)@.handled(input)
                    &&& action@ == old(self)@.response(input)
                },
                None => {
                    &&& final(self)@ == old(self)@
                    &&& action@ == ActionModel::Idle
                },
            },
            final(self)@.wf(),
    {
        proof {
            use_type_invariant(&*self);
        }
        match input_for_key(key) {
            Some(input) => self.handle(input),
            None => Action::Idle,
        }
    }

    /// What the renderer needs to draw the directory pane. Its border is in
    /// the active style exactly where the focus is on this pane.
    pub fn get_dir_widget(&self) -> (data: WidgetData<'_>)
        ensures
            data.shows(self@.dirs, DIR_TITLE@, DIR_HIGHLIGHT_SYMBOL@),
            data.is_active == (self@.focus == ActiveBlock::Dir),
            self@.wf(),
    {
        proof {
            use_type_invariant(self);
        }
        self.dir_block.widget()
    }

    /// What the renderer needs to draw the file pane. Its border is in the
    /// active style exactly where the focus is on this pane.
    pub fn get_files_widget(&self) -> (data: WidgetData<'_>)
        ensures
            data.shows(self@.files, FILES_TITLE@, FILES_HIGHLIGHT_SYMBOL@),
            data.is_active == (self@.focus == ActiveBlock::Files),
            self@.wf(),
    {
        proof {
            use_type_invariant(self);
        }
        self.files_block.widget()
    }

    /// Rebuilds the file pane from a walk of the directory that the
    /// directory pane designates: the pane then lists the files of that
    /// walk, with the cursor at index 0 wherever it stood before.
    pub fn on_dir_change(&mut self, walk: &Vec<Walked>)
        ensures
            final(self)@ == old(self)@.relisted(walk@),
            final(self)@.wf(),
            final(self)@.in_sync(),
    {
        let AppState { dir_block, files_block, active_block } = self.take();
        let mut files_block = files_block;
        files_block.refresh(dir_block.selected_path().clone(), walk);
        *self = AppState { dir_block, files_block, active_block };
    }

    /// Moves the session out and leaves an empty one in its place.
    fn take(&mut self) -> (state: AppState)
        ensures
            state@ == old(self)@,
            state@.wf(),
    {
        proof {
            use_type_invariant(&*self);
        }
        let mut state = AppState::new(
            DirBlock::new(String::new(), &Vec::new()),
            FilesBlock::new(String::new(), &Vec::new()),
        );
        std::mem::swap(&mut state, self);
        state
    }
}

} // verus!
