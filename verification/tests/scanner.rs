use std::cmp::min;
use std::fmt::Debug;

use rlox::scanning::{tokenize, Token, TokenType};

#[test]
pub fn scanner_recognizes_single_character_tokens() {
    let corpus = "(){},.-+;/!*><";
    let expected = [
        TokenType::LeftParen,
        TokenType::RightParen,
        TokenType::LeftBrace,
        TokenType::RightBrace,
        TokenType::Comma,
        TokenType::Dot,
        TokenType::Minus,
        TokenType::Plus,
        TokenType::SemiColon,
        TokenType::Slash,
        TokenType::Bang,
        TokenType::Star,
        TokenType::Greater,
        TokenType::Less,
        TokenType::EndOfFile,
    ];

    test_scanner(corpus, &expected);
}

#[test]
fn scanner_recognizes_double_character_tokens() {
    let corpus = "< <= > >= ! != = ==";
    let expected = [
        TokenType::Less,
        TokenType::LessEqual,
        TokenType::Greater,
        TokenType::GreaterEqual,
        TokenType::Bang,
        TokenType::BangEqual,
        TokenType::Equal,
        TokenType::EqualEqual,
        TokenType::EndOfFile,
    ];

    test_scanner(corpus, &expected);
}

#[test]
fn scanner_ignores_whitespace() {
    let corpus = " \t \n \r . ";
    let expected = [TokenType::Dot, TokenType::EndOfFile];

    test_scanner(corpus, &expected);
}

#[test]
fn scanner_ignore_comments() {
    let corpus = "+//totally a % comment % with illegal characters\n.";
    let expected = [TokenType::Plus, TokenType::Dot, TokenType::EndOfFile];

    test_scanner(corpus, &expected);
}

#[test]
fn scanner_scans_number_lexemes() {
    let tokens = tokens_of("12.5 7");

    assert_eq!(tokens[0].token_type, TokenType::Number);
    assert_eq!(tokens[0].lexeme.as_str(), "12.5");
    assert_eq!(tokens[0].lexeme_start, 0);
    assert_eq!(tokens[1].token_type, TokenType::Number);
    assert_eq!(tokens[1].lexeme.as_str(), "7");
    assert_eq!(tokens[1].lexeme_start, 5);
    assert_eq!(tokens[2].token_type, TokenType::EndOfFile);
}

#[test]
fn scanner_counts_lines() {
    let tokens = tokens_of(".\n.\n\n.");

    assert_eq!(tokens[0].line_number, 1);
    assert_eq!(tokens[1].line_number, 2);
    assert_eq!(tokens[2].line_number, 4);
}

#[test]
fn scanner_reports_unexpected_characters() {
    let tokens = tokens_of("%");

    assert_eq!(tokens[0].token_type, TokenType::Error("Unexpected character"));
    assert_eq!(tokens.len(), 1);
}

#[test]
fn scanner_scans_text_literals() {
    let tokens = tokens_of("\"ab\" .");

    assert_eq!(tokens[0].token_type, TokenType::Text);
    assert_eq!(tokens[1].token_type, TokenType::Dot);
    assert_eq!(tokens[2].token_type, TokenType::EndOfFile);
}

#[test]
fn scanner_reports_unterminated_text_literals() {
    let tokens = tokens_of("\"ab");

    assert_eq!(
        tokens[0].token_type,
        TokenType::Error("Expected terminating '\"' for string")
    );
}

#[test]
fn tokenize_always_ends_with_end_of_file_or_error() {
    let tokens = tokenize(Vec::new());

    assert_eq!(tokens.len(), 1);
    assert_eq!(tokens[0].token_type, TokenType::EndOfFile);
}

fn tokens_of(corpus: &str) -> Vec<Token> {
    tokenize(corpus.chars().collect())
}

fn test_scanner(corpus: &str, expected_tokens: &[TokenType]) {
    let actual_tokens: Vec<TokenType> = tokens_of(corpus)
        .iter()
        .map(|t| t.token_type)
        .collect();

    assert_slice_eq(actual_tokens.as_slice(), &expected_tokens);
}

fn assert_slice_eq<T: Eq + Debug>(actual: &[T], expected: &[T]) {
    let safe_len = min(actual.len(), expected.len()) - 1;

    for i in 0..safe_len {
        println!(
            "actual[{}]={:?}\texpected[{}]={:?}",
            i, actual[i], i, expected[i]
        );
        assert_eq!(actual[i], expected[i]);
    }

    assert_eq!(actual.len(), expected.len());
}
