use regex::Regex;

use lexscan::lex_spec::LexSpec;
use lexscan::lexical_analysis::LexicalAnalysis;
use lexscan::token_regex::TokenRegex;

#[derive(Clone, Copy, Debug, PartialEq)]
enum Category {
    End,
    Word,
    SingleLetter,
    Blank,
    Break,
}

fn word_rule() -> TokenRegex<Category> {
    TokenRegex::new(Regex::new(r"^\w+").unwrap(), Category::Word, false, false)
}

fn letter_rule() -> TokenRegex<Category> {
    TokenRegex::new(Regex::new(r"^a").unwrap(), Category::SingleLetter, false, false)
}

fn blank_rule() -> TokenRegex<Category> {
    TokenRegex::new(Regex::new(r"^[\t ]+").unwrap(), Category::Blank, true, false)
}

fn break_rule() -> TokenRegex<Category> {
    TokenRegex::new(Regex::new(r"^\r?\n").unwrap(), Category::Break, true, true)
}

#[test]
fn longest_match_beats_earlier_shorter_rule() {
    let lex_spec = LexSpec::new(vec![letter_rule(), word_rule()], Category::End);
    let mut scanner = LexicalAnalysis::new("abc", &lex_spec);

    let token = scanner.next_token().unwrap();

    assert_eq!(token.token.t_type, Category::Word);
    assert_eq!(token.token.text, "abc");
}

#[test]
fn equal_length_matches_keep_first_declared_rule() {
    let first = TokenRegex::new(Regex::new(r"^a").unwrap(), Category::SingleLetter, false, false);
    let second = TokenRegex::new(Regex::new(r"^[ab]").unwrap(), Category::Word, false, false);
    let lex_spec = LexSpec::new(vec![first, second], Category::End);
    let mut scanner = LexicalAnalysis::new("a", &lex_spec);

    let token = scanner.next_token().unwrap();

    assert_eq!(token.token.t_type, Category::SingleLetter);
    assert_eq!(token.token.text, "a");
}

#[test]
fn matched_text_is_the_match_not_the_whole_input() {
    let lex_spec = LexSpec::new(vec![word_rule(), blank_rule()], Category::End);
    let mut scanner = LexicalAnalysis::new("one two", &lex_spec);

    let token = scanner.next_token().unwrap();

    assert_eq!(token.token.text, "one");
    assert_eq!(token.token.t_type, Category::Word);
}

#[test]
fn end_of_input_token_comes_exactly_once() {
    let lex_spec = LexSpec::new(vec![word_rule()], Category::End);
    let mut scanner = LexicalAnalysis::new("", &lex_spec);

    let end = scanner.next_token().unwrap();
    assert_eq!(end.token.t_type, Category::End);
    assert_eq!(end.token.text, "");
    assert_eq!(end.location.column, 1);
    assert_eq!(end.location.line, 1);

    assert!(scanner.next_token().is_none());
    assert!(scanner.next_token().is_none());
    assert!(scanner.next_token().is_none());
}

#[test]
fn trailing_skips_advance_the_end_of_input_location() {
    let lex_spec = LexSpec::new(vec![word_rule(), blank_rule()], Category::End);
    let mut scanner = LexicalAnalysis::new("a ", &lex_spec);

    let word = scanner.next_token().unwrap();
    assert_eq!(word.token.t_type, Category::Word);

    let end = scanner.next_token().unwrap();
    assert_eq!(end.token.t_type, Category::End);
    assert_eq!(end.token.text, "");
    assert_eq!(end.location.column, 3);
    assert_eq!(end.location.line, 1);

    assert!(scanner.next_token().is_none());
}

#[test]
fn empty_rule_set_matches_nothing() {
    let lex_spec: LexSpec<Category> = LexSpec::new(vec![], Category::End);
    let mut scanner = LexicalAnalysis::new("anything", &lex_spec);

    assert!(scanner.next_token().is_none());
    assert!(scanner.next_token().is_none());
}

#[test]
fn empty_skip_match_makes_no_progress_and_no_token() {
    let empty_blank = TokenRegex::new(Regex::new(r"^ *").unwrap(), Category::Blank, true, false);
    let lex_spec = LexSpec::new(vec![empty_blank], Category::End);
    let mut scanner = LexicalAnalysis::new("()", &lex_spec);

    assert!(scanner.next_token().is_none());
    assert!(scanner.next_token().is_none());
}

#[test]
fn multi_character_line_break_advances_one_line() {
    let lex_spec = LexSpec::new(vec![word_rule(), break_rule()], Category::End);
    let mut scanner = LexicalAnalysis::new("\r\na", &lex_spec);

    let token = scanner.next_token().unwrap();

    assert_eq!(token.token.t_type, Category::Word);
    assert_eq!(token.token.text, "a");
    assert_eq!(token.location.column, 1);
    assert_eq!(token.location.line, 2);
}

#[test]
fn locations_never_move_backwards() {
    let lex_spec = LexSpec::new(
        vec![word_rule(), blank_rule(), break_rule()],
        Category::End,
    );
    let mut scanner = LexicalAnalysis::new("aa b\ncc  dd\n\ne", &lex_spec);

    let mut last_line: u64 = 1;
    let mut last_column: u64 = 1;
    let mut token_count: usize = 0;
    loop {
        let token = match scanner.next_token() {
            Some(token) => token,
            None => break,
        };
        assert!(token.location.line >= last_line);
        if token.location.line == last_line {
            assert!(token.location.column >= last_column);
        }
        last_line = token.location.line;
        last_column = token.location.column;
        token_count += 1;
        if token.token.t_type == Category::End {
            break;
        }
    }
    assert_eq!(token_count, 6);
    assert_eq!(last_line, 4);
    assert_eq!(last_column, 2);
}

#[test]
fn positions_track_each_emitted_token_exactly() {
    let lex_spec = LexSpec::new(
        vec![word_rule(), blank_rule(), break_rule()],
        Category::End,
    );
    let mut scanner = LexicalAnalysis::new("aa bbb\n c", &lex_spec);

    let first = scanner.next_token().unwrap();
    assert_eq!(first.token.text, "aa");
    assert_eq!((first.location.column, first.location.line), (1, 1));

    let second = scanner.next_token().unwrap();
    assert_eq!(second.token.text, "bbb");
    assert_eq!((second.location.column, second.location.line), (4, 1));

    let third = scanner.next_token().unwrap();
    assert_eq!(third.token.text, "c");
    assert_eq!((third.location.column, third.location.line), (2, 2));
}

#[test]
fn loading_a_new_buffer_starts_afresh() {
    let lex_spec = LexSpec::new(vec![word_rule(), blank_rule()], Category::End);
    let mut scanner = LexicalAnalysis::new("aa bb", &lex_spec);

    scanner.next_token();
    scanner.next_token();

    scanner.load_source("cc");

    let token = scanner.next_token().unwrap();
    assert_eq!(token.token.text, "cc");
    assert_eq!(token.location.column, 1);
    assert_eq!(token.location.line, 1);
}

#[test]
fn no_match_leaves_later_calls_stuck() {
    let lex_spec = LexSpec::new(vec![word_rule(), blank_rule()], Category::End);
    let mut scanner = LexicalAnalysis::new("aa (", &lex_spec);

    let word = scanner.next_token().unwrap();
    assert_eq!(word.token.text, "aa");

    assert!(scanner.next_token().is_none());
    assert!(scanner.next_token().is_none());
}
