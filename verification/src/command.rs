//! Commands of the console, the errors of a line that is none, and how
//! both are shown in the log.

use vstd::prelude::*;
use crate::sorting::{SortBy, SortDirection};

verus! {

/// An instruction typed into the console.
#[derive(Clone, Copy, Debug, PartialEq, Eq, Structural)]
pub enum Command {
    /// Order the process list by `field`, in `direction`.
    Sort { field: SortBy, direction: SortDirection },
}

/// Why a line is no command. Each variant but the last carries the word
/// that was not understood.
#[derive(Debug, PartialEq, Eq)]
pub enum CmdError {
    /// The first word names no command.
    UnknownVerb(String),
    /// The word after `sort` names no column.
    UnknownField(String),
    /// The word after the column names no direction.
    UnknownDirection(String),
    /// The line ends too early or goes on too long.
    MalformedSyntax,
}

pub enum CmdErrorView {
    UnknownVerb(Seq<char>),
    UnknownField(Seq<char>),
    UnknownDirection(Seq<char>),
    MalformedSyntax,
}

impl View for CmdError {
    type V = CmdErrorView;

    open spec fn view(&self) -> CmdErrorView {
        match self {
            CmdError::UnknownVerb(word) => CmdErrorView::UnknownVerb(word@),
            CmdError::UnknownField(word) => CmdErrorView::UnknownField(word@),
            CmdError::UnknownDirection(word) => CmdErrorView::UnknownDirection(word@),
            CmdError::MalformedSyntax => CmdErrorView::MalformedSyntax,
        }
    }
}

/// What parsing a line gives, with the error as its view.
pub open spec fn parse_view(outcome: Result<Command, CmdError>) -> Result<Command, CmdErrorView> {
    match outcome {
        Ok(command) => Ok(command),
        Err(error) => Err(error@),
    }
}

impl Command {
    /// The line that the log shows for a command that was applied. It reads
    /// as the command is written in code.
    pub open spec fn description(self) -> Seq<char> {
        match self {
            Command::Sort { field, direction } => "Sort { field: "@ + field.name()
                + ", direction: "@ + direction.name() + " }"@,
        }
    }

    pub fn describe(&self) -> (text: String)
        ensures
            text@ == self.description(),
    {
        match self {
            Command::Sort { field, direction } => {
                let mut text = String::from_str("Sort { field: ");
                text.append(field.label());
                text.append(", direction: ");
                text.append(direction.label());
                text.append(" }");
                text
            },
        }
    }
}

impl CmdErrorView {
    /// The line that the log shows for a line that is no command.
    pub open spec fn message(self) -> Seq<char> {
        match self {
            CmdErrorView::UnknownVerb(word) => "unknown command: "@ + word,
            CmdErrorView::UnknownField(word) => "unknown sort field: "@ + word,
            CmdErrorView::UnknownDirection(word) => "unknown sort direction: "@ + word,
            CmdErrorView::MalformedSyntax => "malformed command, expected: sort <cpu|mem> [asc|desc]"@,
        }
    }
}

impl CmdError {
    pub fn display(&self) -> (text: String)
        ensures
            text@ == self@.message(),
    {
        match self {
            CmdError::UnknownVerb(word) => String::from_str("unknown command: ").concat(
                word.as_str(),
            ),
            CmdError::UnknownField(word) => String::from_str("unknown sort field: ").concat(
                word.as_str(),
            ),
            CmdError::UnknownDirection(word) => String::from_str(
                "unknown sort direction: ",
            ).concat(word.as_str()),
            CmdError::MalformedSyntax => String::from_str(
                "malformed command, expected: sort <cpu|mem> [asc|desc]",
            ),
        }
    }
}

} // verus!
