//! The state of the dashboard and what happens to it: keys, commands,
//! snapshots and changes of the screen's size.

use vstd::prelude::*;
use crate::command::{parse_view, CmdError, CmdErrorView, Command};
use crate::console::{Console, ConsoleView};
use crate::dashboard::{compose, dashboard_of, Dashboard};
use crate::layout::{screen_rect, Rect};
use crate::parser::{parse, parsed};
use crate::sorting::{SortBy, SortDirection};
use crate::system::{Snapshot, SnapshotView};

verus! {

/// What the dashboard is showing. There is one mode so far.
#[derive(Clone, Copy, Debug, PartialEq, Eq, Structural)]
pub enum Mode {
    Main,
}

/// A key, as the terminal reports it.
#[derive(Clone, Copy, Debug, PartialEq, Eq, Structural)]
pub enum Key {
    /// A character typed while Control is held.
    Ctrl(char),
    /// A character; the Enter key is the line feed.
    Char(char),
    Backspace,
    /// Any other key.
    Other,
}

/// Whether the program goes on after a key.
#[derive(Clone, Copy, Debug, PartialEq, Eq, Structural)]
pub enum Flow {
    Continue,
    Quit,
}

/// How a submitted line ended.
#[derive(Clone, Copy, Debug, PartialEq, Eq, Structural)]
pub enum Outcome {
    /// The line was a command, and the command was carried out.
    Applied,
    /// The line was no command; the log says why.
    Rejected,
}

/// The state of the dashboard.
#[derive(Debug, PartialEq, Eq)]
pub struct App {
    pub mode: Mode,
    pub processes_sort_by: SortBy,
    pub processes_sort_direction: SortDirection,
    pub size: Rect,
    pub console: Console,
    /// The figures of the last tick, or nothing before the first.
    pub latest_snapshot: Option<Snapshot>,
}

pub struct AppView {
    pub mode: Mode,
    pub processes_sort_by: SortBy,
    pub processes_sort_direction: SortDirection,
    pub size: Rect,
    pub console: ConsoleView,
    pub latest_snapshot: Option<SnapshotView>,
}

/// A snapshot that may be missing, as its view.
pub open spec fn snapshot_view(snapshot: Option<Snapshot>) -> Option<SnapshotView> {
    match snapshot {
        Some(figures) => Some(figures@),
        None => None,
    }
}

impl View for App {
    type V = AppView;

    open spec fn view(&self) -> AppView {
        AppView {
            mode: self.mode,
            processes_sort_by: self.processes_sort_by,
            processes_sort_direction: self.processes_sort_direction,
            size: self.size,
            console: self.console@,
            latest_snapshot: snapshot_view(self.latest_snapshot),
        }
    }
}

impl AppView {
    /// The state at the start: processes by processor load, heaviest first,
    /// no screen yet, an empty console, no figures.
    pub open spec fn initial() -> AppView {
        AppView {
            mode: Mode::Main,
            processes_sort_by: SortBy::CPU,
            processes_sort_direction: SortDirection::DESC,
            size: Rect { x: 0, y: 0, width: 0, height: 0 },
            console: ConsoleView { input: Seq::empty(), log: Seq::empty(), visible: false },
            latest_snapshot: None,
        }
    }

    /// The state with the sort direction turned round.
    pub open spec fn toggled(self) -> AppView {
        AppView { processes_sort_direction: self.processes_sort_direction.flipped(), ..self }
    }

    /// The state after `times` turns of the sort direction.
    pub open spec fn toggled_times(self, times: nat) -> AppView
        decreases times,
    {
        if times == 0 {
            self
        } else {
            self.toggled_times((times - 1) as nat).toggled()
        }
    }

    /// The state with one more line in the log.
    pub open spec fn logged(self, line: Seq<char>) -> AppView {
        AppView { console: ConsoleView { log: self.console.log.push(line), ..self.console }, ..self }
    }

    /// The state after the outcome of parsing was acted on. A command sets
    /// the sort preference and is noted in the log; an error is noted in the
    /// log and changes nothing else.
    pub open spec fn executed(self, outcome: Result<Command, CmdErrorView>) -> AppView {
        match outcome {
            Ok(command) => match command {
                Command::Sort { field, direction } => AppView {
                    processes_sort_by: field,
                    processes_sort_direction: direction,
                    ..self
                }.logged(command.description()),
            },
            Err(error) => self.logged(error.message()),
        }
    }

    /// The state after the input line was submitted: the line is taken out
    /// of the console, read as a command, and acted on.
    pub open spec fn submitted(self) -> AppView {
        AppView { console: ConsoleView { input: Seq::empty(), ..self.console }, ..self }.executed(
            parsed(self.console.input),
        )
    }

    /// The state with `figures` as the latest snapshot.
    pub open spec fn with_snapshot(self, figures: SnapshotView) -> AppView {
        AppView { latest_snapshot: Some(figures), ..self }
    }

    /// The state after one look at the channel from the sampler.
    pub open spec fn received(self, pending: Option<SnapshotView>) -> AppView {
        match pending {
            Some(figures) => self.with_snapshot(figures),
            None => self,
        }
    }

    /// The state on a screen of `width` columns and `height` rows.
    pub open spec fn resized(self, width: u16, height: u16) -> AppView {
        AppView { size: Rect { x: 0, y: 0, width, height }, ..self }
    }

    /// The state after a key. Control-C and keys without a meaning change
    /// nothing; a slash shows or hides the log; Enter submits the input
    /// line; Backspace deletes its last character; any other character is
    /// typed into it.
    pub open spec fn after_key(self, key: Key) -> AppView {
        match key {
            Key::Char(c) => if c == '/' {
                AppView {
                    console: ConsoleView { visible: !self.console.visible, ..self.console },
                    ..self
                }
            } else if c == '\n' {
                self.submitted()
            } else {
                AppView {
                    console: ConsoleView { input: self.console.input.push(c), ..self.console },
                    ..self
                }
            },
            Key::Backspace => AppView {
                console: ConsoleView {
                    input: if self.console.input.len() > 0 {
                        self.console.input.drop_last()
                    } else {
                        self.console.input
                    },
                    ..self.console
                },
                ..self
            },
            _ => self,
        }
    }

    /// The number of cores that the latest snapshot reports; none before the
    /// first snapshot.
    pub open spec fn core_count(self) -> nat {
        match self.latest_snapshot {
            Some(figures) => figures.cpu_core_usages.len(),
            None => 0,
        }
    }
}

/// Whether a key ends the program: Control-C does, nothing else.
pub open spec fn flow_after(key: Key) -> Flow {
    if key == Key::Ctrl('c') {
        Flow::Quit
    } else {
        Flow::Continue
    }
}

impl App {
    pub fn new() -> (app: App)
        ensures
            app@ == AppView::initial(),
            app.size.in_bounds(),
    {
        App {
            mode: Mode::Main,
            processes_sort_by: SortBy::CPU,
            processes_sort_direction: SortDirection::DESC,
            size: screen_rect(0, 0, 0, 0),
            console: Console::new(),
            latest_snapshot: None,
        }
    }

    /// Turns the sort direction of the process list round, and touches
    /// nothing else.
    pub fn toggle_sort_direction(&mut self)
        ensures
            final(self)@ == old(self)@.toggled(),
    {
        match self.processes_sort_direction {
            SortDirection::ASC => {
                self.processes_sort_direction = SortDirection::DESC;
            },
            SortDirection::DESC => {
                self.processes_sort_direction = SortDirection::ASC;
            },
        }
    }

    /// Acts on what parsing a line gave. A command is carried out and its
    /// description appended to the log; for an error its message is
    /// appended.
    pub fn execute(&mut self, outcome: Result<Command, CmdError>) -> (result: Outcome)
        ensures
            final(self)@ == old(self)@.executed(parse_view(outcome)),
            result == if outcome is Ok {
                Outcome::Applied
            } else {
                Outcome::Rejected
            },
    {
        match outcome {
            Ok(command) => {
                match command {
                    Command::Sort { field, direction } => {
                        self.processes_sort_by = field;
                        self.processes_sort_direction = direction;
                    },
                }
                self.console.write(command.describe());
                Outcome::Applied
            },
            Err(error) => {
                self.console.write(error.display());
                Outcome::Rejected
            },
        }
    }

    /// Submits the input line of the console as a command. The line is
    /// taken and cleared in one step, then parsed, and the outcome is acted
    /// on as `execute` does. An empty line is parsed like any other, so it
    /// leaves an error in the log.
    pub fn process_command(&mut self)
        ensures
            final(self)@ == old(self)@.submitted(),
    {
        let input = self.console.clear_input();
        let outcome = parse(input.as_str());
        let _ = self.execute(outcome);
    }

    /// Replaces the latest snapshot as a whole.
    pub fn apply_snapshot(&mut self, snapshot: Snapshot)
        ensures
            final(self)@ == old(self)@.with_snapshot(snapshot@),
    {
        self.latest_snapshot = Some(snapshot);
    }

    /// Takes in what one look at the channel from the sampler gave, without
    /// waiting: a pending snapshot replaces the latest one, and with none
    /// pending the display goes on with what it has.
    pub fn receive(&mut self, pending: Option<Snapshot>)
        ensures
            final(self)@ == old(self)@.received(snapshot_view(pending)),
    {
        match pending {
            Some(snapshot) => {
                self.apply_snapshot(snapshot);
            },
            None => {},
        }
    }

    /// Notes the size of the terminal. The histories of the sampler keep the
    /// length they got at the start.
    pub fn resize(&mut self, width: u16, height: u16)
        ensures
            final(self)@ == old(self)@.resized(width, height),
            final(self).size.in_bounds(),
    {
        self.size = Rect { x: 0, y: 0, width, height };
    }

    /// Reacts to a key and says whether the program goes on.
    pub fn handle_key(&mut self, key: Key) -> (flow: Flow)
        ensures
            final(self)@ == old(self)@.after_key(key),
            flow == flow_after(key),
    {
        match key {
            Key::Ctrl(c) => {
                if c == 'c' {
                    Flow::Quit
                } else {
                    Flow::Continue
                }
            },
            Key::Char(c) => {
                if c == '/' {
                    self.console.toggle_visibility();
                } else if c == '\n' {
                    self.process_command();
                } else {
                    self.console.append_input(c);
                }
                Flow::Continue
            },
            Key::Backspace => {
                self.console.backspace();
                Flow::Continue
            },
            Key::Other => Flow::Continue,
        }
    }

    pub fn core_count(&self) -> (cores: usize)
        ensures
            cores == self@.core_count(),
    {
        match &self.latest_snapshot {
            Some(snapshot) => snapshot.cpu_core_usages.len(),
            None => 0,
        }
    }

    /// The panels for the screen as it is now.
    pub fn layout(&self) -> (dashboard: Dashboard)
        requires
            self.size.in_bounds(),
        ensures
            dashboard@ == dashboard_of(self@.size, self@.core_count(), self@.console.visible),
    {
        compose(self.size, self.core_count(), self.console.visible)
    }
}

/// After an even number of turns the sort direction, and with it the whole
/// state, is what it was; after an odd number the state is that after one
/// turn.
pub proof fn lemma_toggles_by_parity(app: AppView, pairs: nat)
    ensures
        app.toggled_times(2 * pairs) == app,
        app.toggled_times(2 * pairs + 1) == app.toggled(),
    decreases pairs,
{
    if pairs > 0 {
        lemma_toggles_by_parity(app, (pairs - 1) as nat);
    }
}

/// Acting on a line touches the sort preference and the log, and nothing
/// else: the log grows by exactly one line and keeps the lines it had; the
/// latest snapshot, the size, the mode, the input line and the visibility
/// of the log stay. After an error the sort preference stays too.
pub proof fn lemma_execute_is_isolated(app: AppView, outcome: Result<Command, CmdErrorView>)
    ensures
        app.executed(outcome).latest_snapshot == app.latest_snapshot,
        app.executed(outcome).size == app.size,
        app.executed(outcome).mode == app.mode,
        app.executed(outcome).console.input == app.console.input,
        app.executed(outcome).console.visible == app.console.visible,
        app.executed(outcome).console.log.len() == app.console.log.len() + 1,
        app.executed(outcome).console.log.drop_last() == app.console.log,
        outcome is Err ==> app.executed(outcome).processes_sort_by == app.processes_sort_by
            && app.executed(outcome).processes_sort_direction == app.processes_sort_direction,
        outcome matches Ok(Command::Sort { field, direction }) ==> app.executed(
            outcome,
        ).processes_sort_by == field && app.executed(outcome).processes_sort_direction
            == direction,
{
}

/// Submitting the input line leaves it empty and adds exactly one line to
/// the log, whatever was typed.
pub proof fn lemma_submit_drains_input(app: AppView)
    ensures
        app.submitted().console.input == Seq::<char>::empty(),
        app.submitted().console.log.len() == app.console.log.len() + 1,
        app.submitted().latest_snapshot == app.latest_snapshot,
{
    let drained = AppView {
        console: ConsoleView { input: Seq::empty(), ..app.console },
        ..app
    };
    lemma_execute_is_isolated(drained, parsed(app.console.input));
}

/// Applying the same snapshot twice is the same as applying it once, and of
/// several snapshots the last one stays.
pub proof fn lemma_latest_snapshot_wins(app: AppView, earlier: SnapshotView, later: SnapshotView)
    ensures
        app.with_snapshot(later).with_snapshot(later) == app.with_snapshot(later),
        app.with_snapshot(earlier).with_snapshot(later) == app.with_snapshot(later),
        app.with_snapshot(later).received(None) == app.with_snapshot(later),
{
}

} // verus!
