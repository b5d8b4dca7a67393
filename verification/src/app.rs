//! Command dispatch over the tab collection, and the published state.
//!
//! The runtime around this crate owns the task machinery: it spawns one
//! unit of work at a time against the active tab and can abort it.  The
//! decisions — which operation a command starts, whether that operation
//! may later be cancelled, and how the tab cursor moves — live here and
//! are verified.  Navigation is cancellable and superseded by newer
//! commands; a user mutation, once started, always runs to completion.

use vstd::prelude::*;
use crate::selectable_list::SelectableList;
use crate::tab;

verus! {

/// A discrete command from the presentation layer.
#[derive(Clone, Copy, Debug, PartialEq, Eq, Structural)]
pub enum Command {
    NextTab,
    PrevDate,
    NextDate,
    PrevSelection,
    NextSelection,
    AddRecord,
    DeleteSelectedRecord,
    Undo,
    Redo,
    Quit,
}

/// The operation a dispatched command runs against the active tab.
#[derive(Clone, Copy, Debug, PartialEq, Eq, Structural)]
pub enum TabTask {
    ResolveAll,
    PrevDate,
    NextDate,
    PrevSelection,
    NextSelection,
    AddRecord,
    DeleteSelectedRecord,
    Undo,
    Redo,
}

/// What the runtime must do after a command was dispatched.
///
/// Every variant that starts a task first aborts whatever task is in
/// flight.  A `cancellable` task is pure navigation: a later command may
/// abort it in turn.  A non-cancellable task is a user mutation: once
/// started it runs to completion.  `SwitchTab` carries the index the tab
/// cursor moved to; the runtime re-subscribes to that tab's snapshots
/// and starts a cancellable full resolution for it.
#[derive(Clone, Copy, Debug, PartialEq, Eq, Structural)]
pub enum Effect {
    Run { task: TabTask, cancellable: bool },
    SwitchTab { index: usize },
    Quit,
}

/// The effect each command dispatches to; `switched_to` is the tab index
/// the cursor lands on when the command is a tab switch.
pub open spec fn spec_dispatch(cmd: Command, switched_to: usize) -> Effect {
    match cmd {
        Command::NextTab => Effect::SwitchTab { index: switched_to },
        Command::PrevDate => Effect::Run { task: TabTask::PrevDate, cancellable: true },
        Command::NextDate => Effect::Run { task: TabTask::NextDate, cancellable: true },
        Command::PrevSelection => Effect::Run { task: TabTask::PrevSelection, cancellable: true },
        Command::NextSelection => Effect::Run { task: TabTask::NextSelection, cancellable: true },
        Command::AddRecord => Effect::Run { task: TabTask::AddRecord, cancellable: false },
        Command::DeleteSelectedRecord => Effect::Run {
            task: TabTask::DeleteSelectedRecord,
            cancellable: false,
        },
        Command::Undo => Effect::Run { task: TabTask::Undo, cancellable: false },
        Command::Redo => Effect::Run { task: TabTask::Redo, cancellable: false },
        Command::Quit => Effect::Quit,
    }
}

/// The externally published snapshot: the tab titles with the active-tab
/// cursor, plus the active tab's own derived state.
#[derive(Clone, Debug)]
pub struct State {
    pub tabs: SelectableList<String>,
    pub inner: tab::State,
}

impl State {
    /// A fresh snapshot listing the tabs, with the first tab active and
    /// a placeholder inner state until the first tab snapshot arrives.
    pub fn new(titles: Vec<String>) -> (s: State)
        ensures
            s.tabs.items == titles,
            s.tabs.cursor == 0,
            !s.tabs.reversed,
            s.inner.spec_fresh(0),
            s.inner.wf(),
    {
        State { tabs: SelectableList::from_items(titles), inner: tab::State::new(0) }
    }

    /// Mirrors the active tab's latest snapshot into the published state.
    pub fn set_inner(&mut self, inner: tab::State)
        ensures
            final(self).tabs == old(self).tabs,
            final(self).inner == inner,
    {
        self.inner = inner;
    }

    /// Mirrors a tab-cursor change into the published state.
    pub fn select_tab(&mut self, i: usize)
        ensures
            final(self).inner == old(self).inner,
            final(self).tabs.items == old(self).tabs.items,
            final(self).tabs.reversed == old(self).tabs.reversed,
            final(self).tabs.cursor == if i <= old(self).tabs.spec_last_index() {
                i as int
            } else {
                old(self).tabs.spec_last_index()
            },
    {
        self.tabs.select(i);
    }
}

/// The dispatch core: the ordered tab titles with the active-tab cursor,
/// and the quit flag.
#[derive(Debug)]
pub struct App {
    pub tabs: SelectableList<String>,
    pub should_quit: bool,
}

impl App {
    /// There is always at least one tab, so the active tab exists.
    pub open spec fn wf(self) -> bool {
        self.tabs.items@.len() > 0
    }

    pub fn new(titles: Vec<String>) -> (a: App)
        requires
            titles@.len() > 0,
        ensures
            a.wf(),
            a.tabs.items == titles,
            a.tabs.cursor == 0,
            !a.tabs.reversed,
            !a.should_quit,
    {
        App { tabs: SelectableList::from_items(titles), should_quit: false }
    }

    /// The index of the active tab.
    pub fn selected_tab(&self) -> (i: usize)
        ensures
            i == self.tabs.spec_selected(),
            self.wf() ==> i < self.tabs.items@.len(),
    {
        self.tabs.selected()
    }

    pub fn should_quit(&self) -> (b: bool)
        ensures
            b == self.should_quit,
    {
        self.should_quit
    }

    /// Dispatches one command: moves the tab cursor or sets the quit
    /// flag where the command asks for it, and returns the effect the
    /// runtime must carry out (see [`spec_dispatch`] for the mapping).
    pub fn handle_cmd(&mut self, cmd: Command) -> (e: Effect)
        requires
            old(self).wf(),
        ensures
            final(self).wf(),
            final(self).tabs.items == old(self).tabs.items,
            final(self).tabs.reversed == old(self).tabs.reversed,
            final(self).should_quit == (old(self).should_quit || cmd is Quit),
            cmd is NextTab ==> final(self).tabs.cursor == (if old(self).tabs.cursor
                == usize::MAX {
                0int
            } else {
                old(self).tabs.cursor + 1
            }) % (old(self).tabs.items@.len() as int),
            !(cmd is NextTab) ==> final(self).tabs.cursor == old(self).tabs.cursor,
            e == spec_dispatch(cmd, final(self).tabs.spec_selected() as usize),
    {
        match cmd {
            Command::NextTab => {
                self.tabs.wrapping_select_next();
                let index: usize = self.tabs.selected();
                Effect::SwitchTab { index }
            },
            Command::PrevDate => Effect::Run { task: TabTask::PrevDate, cancellable: true },
            Command::NextDate => Effect::Run { task: TabTask::NextDate, cancellable: true },
            Command::PrevSelection => Effect::Run {
                task: TabTask::PrevSelection,
                cancellable: true,
            },
            Command::NextSelection => Effect::Run {
                task: TabTask::NextSelection,
                cancellable: true,
            },
            Command::AddRecord => Effect::Run { task: TabTask::AddRecord, cancellable: false },
            Command::DeleteSelectedRecord => Effect::Run {
                task: TabTask::DeleteSelectedRecord,
                cancellable: false,
            },
            Command::Undo => Effect::Run { task: TabTask::Undo, cancellable: false },
            Command::Redo => Effect::Run { task: TabTask::Redo, cancellable: false },
            Command::Quit => {
                self.should_quit = true;
                Effect::Quit
            },
        }
    }
}

/// A user mutation is never dispatched as cancellable, and navigation
/// always is: once a mutation starts, later commands cannot abort it,
/// while in-flight navigation is superseded by any newer command.
pub proof fn lemma_mutations_run_to_completion(cmd: Command, switched_to: usize)
    ensures
        (cmd is AddRecord || cmd is DeleteSelectedRecord || cmd is Undo || cmd is Redo)
            ==> (spec_dispatch(cmd, switched_to) matches Effect::Run { cancellable, .. }
            && !cancellable),
        (cmd is PrevDate || cmd is NextDate || cmd is PrevSelection || cmd is NextSelection)
            ==> (spec_dispatch(cmd, switched_to) matches Effect::Run { cancellable, .. }
            && cancellable),
{
}

} // verus!
