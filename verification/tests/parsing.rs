use sysdash::command::{CmdError, Command};
use sysdash::parser::{interpret, parse, tokenize};
use sysdash::sorting::{SortBy, SortDirection};

fn sort(field: SortBy, direction: SortDirection) -> Result<Command, CmdError> {
    Ok(Command::Sort { field, direction })
}

#[test]
fn parses_field_and_direction() {
    assert_eq!(parse("sort cpu desc"), sort(SortBy::CPU, SortDirection::DESC));
    assert_eq!(parse("sort cpu asc"), sort(SortBy::CPU, SortDirection::ASC));
    assert_eq!(parse("sort mem asc"), sort(SortBy::MEM, SortDirection::ASC));
    assert_eq!(parse("sort mem desc"), sort(SortBy::MEM, SortDirection::DESC));
}

#[test]
fn missing_direction_means_default() {
    assert_eq!(SortDirection::default(), SortDirection::DESC);
    assert_eq!(parse("sort mem"), sort(SortBy::MEM, SortDirection::default()));
    assert_eq!(parse("sort cpu"), sort(SortBy::CPU, SortDirection::DESC));
}

#[test]
fn unknown_field_is_reported_with_the_word() {
    assert_eq!(parse("sort foo"), Err(CmdError::UnknownField("foo".to_string())));
    assert_eq!(parse("sort foo asc"), Err(CmdError::UnknownField("foo".to_string())));
    assert_eq!(parse("sort foo bar baz"), Err(CmdError::UnknownField("foo".to_string())));
}

#[test]
fn unknown_verb_is_reported_with_the_word() {
    assert_eq!(parse("banana"), Err(CmdError::UnknownVerb("banana".to_string())));
    assert_eq!(parse("sortcpu"), Err(CmdError::UnknownVerb("sortcpu".to_string())));
    assert_eq!(parse("cpu sort"), Err(CmdError::UnknownVerb("cpu".to_string())));
}

#[test]
fn unknown_direction_is_reported_with_the_word() {
    assert_eq!(parse("sort cpu up"), Err(CmdError::UnknownDirection("up".to_string())));
    assert_eq!(parse("sort mem up now"), Err(CmdError::UnknownDirection("up".to_string())));
}

#[test]
fn empty_and_blank_lines_are_malformed() {
    assert_eq!(parse(""), Err(CmdError::MalformedSyntax));
    assert_eq!(parse(" "), Err(CmdError::MalformedSyntax));
    assert_eq!(parse(" \t  "), Err(CmdError::MalformedSyntax));
}

#[test]
fn a_verb_alone_is_malformed() {
    assert_eq!(parse("sort"), Err(CmdError::MalformedSyntax));
    assert_eq!(parse("sort   "), Err(CmdError::MalformedSyntax));
}

#[test]
fn words_after_the_direction_are_malformed() {
    assert_eq!(parse("sort cpu asc extra"), Err(CmdError::MalformedSyntax));
    assert_eq!(parse("sort mem desc desc"), Err(CmdError::MalformedSyntax));
}

#[test]
fn blanks_around_words_are_ignored() {
    assert_eq!(parse("  sort \t mem   asc  "), sort(SortBy::MEM, SortDirection::ASC));
    assert_eq!(parse("\tsort\tcpu"), sort(SortBy::CPU, SortDirection::DESC));
    assert_eq!(parse("sort cpu "), sort(SortBy::CPU, SortDirection::DESC));
}

#[test]
fn words_are_matched_in_lower_case_only() {
    assert_eq!(parse("SORT cpu"), Err(CmdError::UnknownVerb("SORT".to_string())));
    assert_eq!(parse("Sort cpu"), Err(CmdError::UnknownVerb("Sort".to_string())));
    assert_eq!(parse("sort CPU"), Err(CmdError::UnknownField("CPU".to_string())));
    assert_eq!(parse("sort cpu DESC"), Err(CmdError::UnknownDirection("DESC".to_string())));
}

#[test]
fn line_breaks_are_no_blanks() {
    assert_eq!(parse("sort\ncpu"), Err(CmdError::UnknownVerb("sort\ncpu".to_string())));
}

#[test]
fn words_may_hold_any_character() {
    assert_eq!(parse("sört cpu"), Err(CmdError::UnknownVerb("sört".to_string())));
    assert_eq!(parse("sort 中央"), Err(CmdError::UnknownField("中央".to_string())));
}

#[test]
fn tokenize_cuts_at_runs_of_blanks() {
    assert_eq!(tokenize(""), Vec::<String>::new());
    assert_eq!(tokenize("   \t"), Vec::<String>::new());
    assert_eq!(tokenize("a"), vec!["a".to_string()]);
    assert_eq!(
        tokenize("  one two\t\tthree "),
        vec!["one".to_string(), "two".to_string(), "three".to_string()]
    );
    assert_eq!(tokenize("sort  cpu"), vec!["sort".to_string(), "cpu".to_string()]);
}

#[test]
fn interpret_reads_words() {
    let words = vec!["sort".to_string(), "mem".to_string(), "asc".to_string()];
    assert_eq!(interpret(&words), sort(SortBy::MEM, SortDirection::ASC));
    assert_eq!(interpret(&Vec::new()), Err(CmdError::MalformedSyntax));
    let four = vec!["sort".to_string(), "mem".to_string(), "asc".to_string(), "x".to_string()];
    assert_eq!(interpret(&four), Err(CmdError::MalformedSyntax));
}

#[test]
fn commands_are_described_as_they_are_written() {
    let command = Command::Sort { field: SortBy::CPU, direction: SortDirection::DESC };
    assert_eq!(command.describe(), "Sort { field: CPU, direction: DESC }");
    assert_eq!(command.describe(), format!("{:?}", command));
    let other = Command::Sort { field: SortBy::MEM, direction: SortDirection::ASC };
    assert_eq!(other.describe(), "Sort { field: MEM, direction: ASC }");
    assert_eq!(other.describe(), format!("{:?}", other));
}

#[test]
fn errors_have_one_line_messages() {
    assert_eq!(CmdError::UnknownVerb("banana".to_string()).display(), "unknown command: banana");
    assert_eq!(CmdError::UnknownField("foo".to_string()).display(), "unknown sort field: foo");
    assert_eq!(
        CmdError::UnknownDirection("up".to_string()).display(),
        "unknown sort direction: up"
    );
    assert_eq!(
        CmdError::MalformedSyntax.display(),
        "malformed command, expected: sort <cpu|mem> [asc|desc]"
    );
}

#[test]
fn labels_name_the_variants() {
    assert_eq!(SortBy::CPU.label(), "CPU");
    assert_eq!(SortBy::MEM.label(), "MEM");
    assert_eq!(SortDirection::ASC.label(), "ASC");
    assert_eq!(SortDirection::DESC.label(), "DESC");
}

#[test]
fn toggle_flips_the_direction() {
    assert_eq!(SortDirection::ASC.toggle(), SortDirection::DESC);
    assert_eq!(SortDirection::DESC.toggle(), SortDirection::ASC);
    assert_eq!(SortDirection::ASC.toggle().toggle(), SortDirection::ASC);
}
