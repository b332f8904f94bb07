//! The console: a line of input, a log, and whether the log is shown.

use vstd::prelude::*;
use crate::text::lines;

verus! {

/// The console of the dashboard. The input line is edited at its end only;
/// the log only grows.
#[derive(Debug, PartialEq, Eq)]
pub struct Console {
    pub input: String,
    pub log: Vec<String>,
    pub visible: bool,
}

pub struct ConsoleView {
    pub input: Seq<char>,
    pub log: Seq<Seq<char>>,
    pub visible: bool,
}

impl View for Console {
    type V = ConsoleView;

    open spec fn view(&self) -> ConsoleView {
        ConsoleView { input: self.input@, log: lines(self.log@), visible: self.visible }
    }
}

impl Console {
    /// An empty console, with its log hidden.
    pub fn new() -> (console: Console)
        ensures
            console@ == (ConsoleView { input: Seq::empty(), log: Seq::empty(), visible: false }),
    {
        let console = Console { input: String::new(), log: Vec::new(), visible: false };
        assert(lines(console.log@) =~= Seq::<Seq<char>>::empty());
        console
    }

    /// Types one character at the end of the input line.
    pub fn append_input(&mut self, c: char)
        ensures
            final(self)@ == (ConsoleView { input: old(self)@.input.push(c), ..old(self)@ }),
    {
        self.input.push(c);
    }

    /// Deletes the last character of the input line. An empty line stays
    /// empty.
    pub fn backspace(&mut self)
        ensures
            final(self)@ == (ConsoleView {
                input: if old(self)@.input.len() > 0 {
                    old(self)@.input.drop_last()
                } else {
                    old(self)@.input
                },
                ..old(self)@
            }),
    {
        let _ = self.input.pop();
    }

    /// Takes the input line: returns what was typed and leaves the line
    /// empty, in one step.
    pub fn clear_input(&mut self) -> (line: String)
        ensures
            line@ == old(self)@.input,
            final(self)@ == (ConsoleView { input: Seq::empty(), ..old(self)@ }),
    {
        let mut line = String::new();
        std::mem::swap(&mut self.input, &mut line);
        line
    }

    /// Appends one line to the log.
    pub fn write(&mut self, line: String)
        ensures
            final(self)@ == (ConsoleView { log: old(self)@.log.push(line@), ..old(self)@ }),
    {
        self.log.push(line);
        assert(lines(self.log@) =~= lines(old(self).log@).push(line@));
    }

    /// Where a panel of `rows` rows starts to show the log, so that the
    /// newest lines are in view: at the first line while all fit, else so
    /// many lines before the end.
    pub fn scrollback_start(&self, rows: usize) -> (first: usize)
        ensures
            first == if self@.log.len() > rows {
                self@.log.len() - rows
            } else {
                0
            },
    {
        let len = self.log.len();
        if len > rows {
            len - rows
        } else {
            0
        }
    }

    /// Shows the log if it is hidden, hides it if it is shown.
    pub fn toggle_visibility(&mut self)
        ensures
            final(self)@ == (ConsoleView { visible: !old(self)@.visible, ..old(self)@ }),
    {
        self.visible = !self.visible;
    }
}

} // verus!
