//! The command language of the console.
//!
//! A line is cut into words at blanks, and the words are read as
//!
//! ```text
//! command   := "sort" field [direction]
//! field     := "cpu" | "mem"
//! direction := "asc" | "desc"
//! ```
//!
//! Blanks are spaces and tabs. Any number of them may stand between two
//! words, before the first and after the last. Words are matched as they are
//! written, in lower case. Without a direction the list is sorted downwards.

use vstd::prelude::*;
use crate::command::{parse_view, CmdError, CmdErrorView, Command};
use crate::sorting::{SortBy, SortDirection};
use crate::text::{chars_of, lines, same_text, string_of};

verus! {

/// Whether a character separates words.
pub open spec fn is_blank(c: char) -> bool {
    c == ' ' || c == '\t'
}

/// The number of characters before the first blank, or before the end.
pub open spec fn word_len(text: Seq<char>) -> nat
    decreases text.len(),
{
    if text.len() == 0 || is_blank(text[0]) {
        0
    } else {
        1 + word_len(text.drop_first())
    }
}

/// The words of a line: its longest runs of characters that are not blank,
/// from left to right.
pub open spec fn words_of(line: Seq<char>) -> Seq<Seq<char>>
    decreases line.len(),
    via words_of_terminates
{
    if line.len() == 0 {
        Seq::empty()
    } else if is_blank(line[0]) {
        words_of(line.drop_first())
    } else {
        seq![line.take(word_len(line) as int)] + words_of(line.skip(word_len(line) as int))
    }
}

#[via_fn]
proof fn words_of_terminates(line: Seq<char>) {
    lemma_word_len_bounds(line);
}

/// A word is no longer than the text it starts, and not empty where the
/// text starts with a character that is not blank.
pub proof fn lemma_word_len_bounds(text: Seq<char>)
    ensures
        word_len(text) <= text.len(),
        text.len() > 0 && !is_blank(text[0]) ==> word_len(text) >= 1,
    decreases text.len(),
{
    if text.len() > 0 && !is_blank(text[0]) {
        lemma_word_len_bounds(text.drop_first());
    }
}

/// A run of `len` characters that are not blank, followed by a blank or by
/// the end, is a word.
pub proof fn lemma_word_len_is(text: Seq<char>, len: nat)
    requires
        len <= text.len(),
        forall|k: int| 0 <= k < len ==> !is_blank(#[trigger] text[k]),
        len == text.len() || is_blank(text[len as int]),
    ensures
        word_len(text) == len,
    decreases len,
{
    if len > 0 {
        let rest = text.drop_first();
        assert forall|k: int| 0 <= k < len - 1 implies !is_blank(#[trigger] rest[k]) by {
            assert(rest[k] == text[k + 1]);
        }
        lemma_word_len_is(rest, (len - 1) as nat);
    }
}

/// Every word of a line has at least one character, and none that is
/// blank.
pub proof fn lemma_words_hold_no_blank(line: Seq<char>, i: int)
    requires
        0 <= i < words_of(line).len(),
    ensures
        words_of(line)[i].len() > 0,
        forall|k: int| 0 <= k < words_of(line)[i].len() ==> !is_blank(#[trigger] words_of(line)[i][k]),
    decreases line.len(),
{
    if line.len() > 0 {
        if is_blank(line[0]) {
            lemma_words_hold_no_blank(line.drop_first(), i);
        } else {
            lemma_word_len_bounds(line);
            if i == 0 {
                lemma_word_holds_no_blank(line);
            } else {
                lemma_words_hold_no_blank(line.skip(word_len(line) as int), i - 1);
            }
        }
    }
}

proof fn lemma_word_holds_no_blank(text: Seq<char>)
    ensures
        word_len(text) <= text.len(),
        forall|k: int| 0 <= k < word_len(text) ==> !is_blank(#[trigger] text[k]),
    decreases text.len(),
{
    lemma_word_len_bounds(text);
    if text.len() > 0 && !is_blank(text[0]) {
        let rest = text.drop_first();
        lemma_word_holds_no_blank(rest);
        assert forall|k: int| 0 <= k < word_len(text) implies !is_blank(#[trigger] text[k]) by {
            if k > 0 {
                assert(text[k] == rest[k - 1]);
            }
        }
    }
}

/// The column that a word names.
pub open spec fn field_named(word: Seq<char>) -> Option<SortBy> {
    if word == "cpu"@ {
        Some(SortBy::CPU)
    } else if word == "mem"@ {
        Some(SortBy::MEM)
    } else {
        None
    }
}

/// The direction that a word names.
pub open spec fn direction_named(word: Seq<char>) -> Option<SortDirection> {
    if word == "asc"@ {
        Some(SortDirection::ASC)
    } else if word == "desc"@ {
        Some(SortDirection::DESC)
    } else {
        None
    }
}

/// The command that a list of words spells, or the first thing wrong with
/// it, reading from the left.
pub open spec fn command_of(words: Seq<Seq<char>>) -> Result<Command, CmdErrorView> {
    if words.len() == 0 {
        Err(CmdErrorView::MalformedSyntax)
    } else if words[0] != "sort"@ {
        Err(CmdErrorView::UnknownVerb(words[0]))
    } else if words.len() == 1 {
        Err(CmdErrorView::MalformedSyntax)
    } else {
        match field_named(words[1]) {
            None => Err(CmdErrorView::UnknownField(words[1])),
            Some(field) => if words.len() == 2 {
                Ok(Command::Sort { field, direction: SortDirection::DESC })
            } else {
                match direction_named(words[2]) {
                    None => Err(CmdErrorView::UnknownDirection(words[2])),
                    Some(direction) => if words.len() == 3 {
                        Ok(Command::Sort { field, direction })
                    } else {
                        Err(CmdErrorView::MalformedSyntax)
                    },
                }
            },
        }
    }
}

/// What a line means.
pub open spec fn parsed(line: Seq<char>) -> Result<Command, CmdErrorView> {
    command_of(words_of(line))
}

/// The word for a column.
pub open spec fn field_word(field: SortBy) -> Seq<char> {
    match field {
        SortBy::CPU => "cpu"@,
        SortBy::MEM => "mem"@,
    }
}

/// The word for a direction.
pub open spec fn direction_word(direction: SortDirection) -> Seq<char> {
    match direction {
        SortDirection::ASC => "asc"@,
        SortDirection::DESC => "desc"@,
    }
}

/// The parser accepts the grammar and nothing else: a line is the command
/// to sort by `field` in `direction` exactly when its words are `sort` and
/// the word for the column, followed by the word for the direction or, for
/// the downward direction only, by nothing.
pub proof fn lemma_commands_are_sort_lines(
    line: Seq<char>,
    field: SortBy,
    direction: SortDirection,
)
    ensures
        parsed(line) == Ok::<Command, CmdErrorView>(Command::Sort { field, direction }) <==> {
            ||| words_of(line) == seq!["sort"@, field_word(field), direction_word(direction)]
            ||| direction == SortDirection::DESC && words_of(line) == seq![
                "sort"@,
                field_word(field),
            ]
        },
{
    reveal_strlit("cpu");
    reveal_strlit("mem");
    reveal_strlit("asc");
    reveal_strlit("desc");
    let words = words_of(line);
    let long = seq!["sort"@, field_word(field), direction_word(direction)];
    let short = seq!["sort"@, field_word(field)];
    assert("cpu"@[0] != "mem"@[0]);
    assert("asc"@[0] != "desc"@[0]);
    if parsed(line) == Ok::<Command, CmdErrorView>(Command::Sort { field, direction }) {
        if words.len() == 2 {
            assert(words =~= short);
        } else {
            assert(words =~= long);
        }
    }
}

fn blank(c: char) -> (yes: bool)
    ensures
        yes == is_blank(c),
{
    c == ' ' || c == '\t'
}

/// Cuts a line into its words.
pub fn tokenize(line: &str) -> (words: Vec<String>)
    ensures
        lines(words@) == words_of(line@),
{
    let chars = chars_of(line);
    let mut words: Vec<String> = Vec::new();
    let mut i: usize = 0;
    assert(line@.skip(0) =~= line@);
    while i < chars.len()
        invariant
            chars@ == line@,
            0 <= i <= chars@.len(),
            words_of(line@) == lines(words@) + words_of(line@.skip(i as int)),
        decreases chars@.len() - i,
    {
        let ghost rest = line@.skip(i as int);
        if blank(chars[i]) {
            assert(rest.drop_first() =~= line@.skip(i + 1));
            i += 1;
        } else {
            let mut end: usize = i + 1;
            while end < chars.len() && !blank(chars[end])
                invariant
                    chars@ == line@,
                    i < end <= chars@.len(),
                    forall|k: int| i <= k < end ==> !is_blank(#[trigger] chars@[k]),
                decreases chars@.len() - end,
            {
                end += 1;
            }
            let word = string_of(&chars, i, end);
            proof {
                assert forall|k: int| 0 <= k < end - i implies !is_blank(#[trigger] rest[k]) by {
                    assert(rest[k] == chars@[i + k]);
                }
                lemma_word_len_is(rest, (end - i) as nat);
                assert(rest.take(end - i) =~= chars@.subrange(i as int, end as int));
                assert(rest.skip(end - i) =~= line@.skip(end as int));
            }
            words.push(word);
            i = end;
        }
    }
    words
}

fn field_of(word: &str) -> (field: Option<SortBy>)
    ensures
        field == field_named(word@),
{
    if same_text(word, "cpu") {
        Some(SortBy::CPU)
    } else if same_text(word, "mem") {
        Some(SortBy::MEM)
    } else {
        None
    }
}

fn direction_of(word: &str) -> (direction: Option<SortDirection>)
    ensures
        direction == direction_named(word@),
{
    if same_text(word, "asc") {
        Some(SortDirection::ASC)
    } else if same_text(word, "desc") {
        Some(SortDirection::DESC)
    } else {
        None
    }
}

/// Reads a list of words as a command.
pub fn interpret(words: &Vec<String>) -> (outcome: Result<Command, CmdError>)
    ensures
        parse_view(outcome) == command_of(lines(words@)),
{
    let count = words.len();
    if count == 0 {
        return Err(CmdError::MalformedSyntax);
    }
    if !same_text(words[0].as_str(), "sort") {
        return Err(CmdError::UnknownVerb(words[0].clone()));
    }
    if count == 1 {
        return Err(CmdError::MalformedSyntax);
    }
    let field = match field_of(words[1].as_str()) {
        None => {
            return Err(CmdError::UnknownField(words[1].clone()));
        },
        Some(field) => field,
    };
    if count == 2 {
        return Ok(Command::Sort { field, direction: SortDirection::default() });
    }
    let direction = match direction_of(words[2].as_str()) {
        None => {
            return Err(CmdError::UnknownDirection(words[2].clone()));
        },
        Some(direction) => direction,
    };
    if count == 3 {
        Ok(Command::Sort { field, direction })
    } else {
        Err(CmdError::MalformedSyntax)
    }
}

/// Reads a line as a command. Every line gives a command or an error.
pub fn parse(line: &str) -> (outcome: Result<Command, CmdError>)
    ensures
        parse_view(outcome) == parsed(line@),
        outcome is Ok <==> parsed(line@) is Ok,
{
    let words = tokenize(line);
    interpret(&words)
}

} // verus!
