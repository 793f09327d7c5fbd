//! A lexical scanner that turns source characters into a token stream.
//! It collaborates with the execution core only at its boundary: nothing
//! here builds or runs a chunk.

use vstd::prelude::*;

pub mod seq;

verus! {

/// The classification of a scanned token.
#[derive(Clone, Copy, Debug, PartialEq, Eq)]
pub enum TokenType {
    LeftParen,
    RightParen,
    LeftBrace,
    RightBrace,
    Comma,
    Dot,
    Minus,
    Plus,
    SemiColon,
    Slash,
    Star,
    Bang,
    BangEqual,
    Equal,
    EqualEqual,
    Greater,
    GreaterEqual,
    Less,
    LessEqual,
    Identifier,
    Text,
    Number,
    And,
    Class,
    Else,
    False,
    Fun,
    For,
    If,
    Nil,
    Or,
    Print,
    Return,
    Super,
    This,
    True,
    Var,
    While,
    Error(&'static str),
    EndOfFile,
}

/// One scanned token: its classification, the source line it started on,
/// the index of its first character, and its text.
#[derive(Debug, PartialEq, Eq)]
pub struct Token {
    pub token_type: TokenType,
    pub line_number: usize,
    pub lexeme_start: usize,
    pub lexeme: String,
}

/// The abstract state of a scanner: the source characters, how many of
/// them were consumed, where the current lexeme started, the characters
/// collected for it, and the current source line.
pub ghost struct ScannerView {
    pub source: Seq<char>,
    pub position: int,
    pub lexeme_start: int,
    pub lexeme: Seq<char>,
    pub line_number: int,
}

/// Relies on `String::from_iter` (the `FromIterator<char>` impl of
/// `String`): the collected string holds exactly the characters of
/// `chars`, in order.
#[verifier::external_body]
fn chars_to_string(chars: &Vec<char>) -> (r: String)
    ensures
        r@ == chars@,
{
    String::from_iter(chars.iter().copied())
}

/// A hand-rolled scanner over a character vector, producing one token per
/// `next` call and an `EndOfFile` token once the characters are spent.
pub struct Scanner {
    line_number: usize,
    lexeme_start: usize,
    current_character: usize,
    consumed_characters: Vec<char>,
    source: seq::CharacterSequence<char>,
}

impl View for Scanner {
    type V = ScannerView;

    closed spec fn view(&self) -> ScannerView {
        ScannerView {
            source: self.source@.items,
            position: self.source@.position,
            lexeme_start: self.lexeme_start as int,
            lexeme: self.consumed_characters@,
            line_number: self.line_number as int,
        }
    }
}

impl Scanner {
    /// The scanner invariant: the consumed-character count mirrors the
    /// source cursor, the cursor stays within the source, the current
    /// lexeme starts no later than the cursor, and lines count from one.
    /// `create` establishes it and every method preserves it.
    pub closed spec fn wf(self) -> bool {
        &&& self.current_character == self.source@.position
        &&& self.source.wf()
        &&& self.lexeme_start <= self.current_character
        &&& 1 <= self.line_number
    }

    /// Builds a scanner positioned at the start of `input`, on line one.
    pub fn create(input: Vec<char>) -> (scanner: Scanner)
        ensures
            scanner.wf(),
            scanner@.source == input@,
            scanner@.position == 0,
            scanner@.lexeme_start == 0,
            scanner@.lexeme == Seq::<char>::empty(),
            scanner@.line_number == 1,
    {
        Scanner {
            line_number: 1,
            lexeme_start: 0,
            current_character: 0,
            consumed_characters: Vec::new(),
            source: seq::CharacterSequence::new(input),
        }
    }

    /// Scans and returns the next token. The source never changes and the
    /// cursor never moves backwards; `EndOfFile` is returned exactly when
    /// the whole source has been consumed, and any other token consumes at
    /// least one character. The returned token carries the line, start
    /// index, and lexeme the scan ended with.
    pub fn next(&mut self) -> (token: Token)
        requires
            old(self).wf(),
        ensures
            final(self).wf(),
            final(self)@.source == old(self)@.source,
            old(self)@.position <= final(self)@.position <= final(self)@.source.len(),
            old(self)@.line_number <= final(self)@.line_number,
            old(self)@.position <= final(self)@.lexeme_start <= final(self)@.position,
            token.token_type == TokenType::EndOfFile
                ==> final(self)@.position == final(self)@.source.len()
                    && final(self)@.lexeme == Seq::<char>::empty(),
            token.token_type != TokenType::EndOfFile
                ==> old(self)@.position < final(self)@.position,
            token.line_number == final(self)@.line_number,
            token.lexeme_start == final(self)@.lexeme_start,
            token.lexeme@ == final(self)@.lexeme,
    {
        self.skip_whitespace();

        self.lexeme_start = self.current_character;
        self.consumed_characters.clear();

        let next_character = self.consume_and_append();

        let next_character = match next_character {
            None => {
                return self.create_token(TokenType::EndOfFile);
            },
            Some(c) => c,
        };

        if '"' == next_character {
            return self.create_string_token();
        }

        if '0' <= next_character && next_character <= '9' {
            return self.create_number_token();
        }

        let token_type = match next_character {
            '(' => TokenType::LeftParen,
            ')' => TokenType::RightParen,
            '{' => TokenType::LeftBrace,
            '}' => TokenType::RightBrace,
            ',' => TokenType::Comma,
            '.' => TokenType::Dot,
            '-' => TokenType::Minus,
            '+' => TokenType::Plus,
            ';' => TokenType::SemiColon,
            '/' => TokenType::Slash,
            '*' => TokenType::Star,
            '!' => match self.match_next('=') {
                Some(_) => TokenType::BangEqual,
                None => TokenType::Bang,
            },
            '=' => match self.match_next('=') {
                Some(_) => TokenType::EqualEqual,
                None => TokenType::Equal,
            },
            '>' => match self.match_next('=') {
                Some(_) => TokenType::GreaterEqual,
                None => TokenType::Greater,
            },
            '<' => match self.match_next('=') {
                Some(_) => TokenType::LessEqual,
                None => TokenType::Less,
            },
            _ => TokenType::Error("Unexpected character"),
        };

        self.create_token(token_type)
    }

    /// Builds a token of the given classification from the scan state.
    fn create_token(&self, token_type: TokenType) -> (token: Token)
        ensures
            token.token_type == token_type,
            token.line_number == self@.line_number,
            token.lexeme_start == self@.lexeme_start,
            token.lexeme@ == self@.lexeme,
    {
        Token {
            token_type,
            line_number: self.line_number,
            lexeme_start: self.lexeme_start,
            lexeme: chars_to_string(&self.consumed_characters),
        }
    }

    /// Scans the remainder of a text literal whose opening quote was just
    /// consumed: everything up to the closing quote becomes part of the
    /// lexeme, a newline inside the literal advances the line count, and a
    /// source that ends before the closing quote yields an error token.
    fn create_string_token(&mut self) -> (token: Token)
        requires
            old(self).wf(),
        ensures
            final(self).wf(),
            final(self)@.source == old(self)@.source,
            old(self)@.position <= final(self)@.position <= final(self)@.source.len(),
            old(self)@.line_number <= final(self)@.line_number,
            final(self)@.lexeme_start == old(self)@.lexeme_start,
            token.token_type == TokenType::Text || token.token_type matches TokenType::Error(_),
            token.line_number == final(self)@.line_number,
            token.lexeme_start == final(self)@.lexeme_start,
            token.lexeme@ == final(self)@.lexeme,
    {
        loop
            invariant
                self.wf(),
                self@.source == old(self)@.source,
                old(self)@.position <= self@.position <= self@.source.len(),
                old(self)@.line_number <= self@.line_number,
                self@.lexeme_start == old(self)@.lexeme_start,
            decreases self@.source.len() - self@.position,
        {
            match self.source.peek_next() {
                Some(c) => {
                    if c == '"' {
                        self.consume_and_discard();
                        return self.create_token(TokenType::Text);
                    }
                    if c == '\n' {
                        self.line_number = if self.line_number < usize::MAX {
                            self.line_number + 1
                        } else {
                            self.line_number
                        };
                    }
                    self.consume_and_append();
                },
                None => {
                    return self.create_token(
                        TokenType::Error("Expected terminating '\"' for string"));
                },
            }
        }
    }

    /// Scans the remainder of a number literal whose first digit was just
    /// consumed: further digits, then at most one decimal point followed
    /// by more digits.
    fn create_number_token(&mut self) -> (token: Token)
        requires
            old(self).wf(),
        ensures
            final(self).wf(),
            final(self)@.source == old(self)@.source,
            old(self)@.position <= final(self)@.position <= final(self)@.source.len(),
            final(self)@.line_number == old(self)@.line_number,
            final(self)@.lexeme_start == old(self)@.lexeme_start,
            token.token_type == TokenType::Number,
            token.line_number == final(self)@.line_number,
            token.lexeme_start == final(self)@.lexeme_start,
            token.lexeme@ == final(self)@.lexeme,
    {
        self.consume_digits();

        let takes_fraction = match self.source.peek_next() {
            Some(c) => c == '.',
            None => false,
        };

        if takes_fraction {
            self.consume_and_append();
            self.consume_digits();
        }

        self.create_token(TokenType::Number)
    }

    /// Consumes and appends digits until the next character is not one.
    fn consume_digits(&mut self)
        requires
            old(self).wf(),
        ensures
            final(self).wf(),
            final(self)@.source == old(self)@.source,
            old(self)@.position <= final(self)@.position <= final(self)@.source.len(),
            final(self)@.line_number == old(self)@.line_number,
            final(self)@.lexeme_start == old(self)@.lexeme_start,
    {
        loop
            invariant
                self.wf(),
                self@.source == old(self)@.source,
                old(self)@.position <= self@.position <= self@.source.len(),
                self@.line_number == old(self)@.line_number,
                self@.lexeme_start == old(self)@.lexeme_start,
            decreases self@.source.len() - self@.position,
        {
            let more_digits = match self.source.peek_next() {
                Some(c) => '0' <= c && c <= '9',
                None => false,
            };

            if !more_digits {
                return;
            }

            self.consume_and_append();
        }
    }

    /// Consumes spaces, tabs, carriage returns, newlines (counting lines),
    /// and comments running from `//` to the end of the line.
    fn skip_whitespace(&mut self)
        requires
            old(self).wf(),
        ensures
            final(self).wf(),
            final(self)@.source == old(self)@.source,
            old(self)@.position <= final(self)@.position <= final(self)@.source.len(),
            old(self)@.line_number <= final(self)@.line_number,
            final(self)@.lexeme_start == old(self)@.lexeme_start,
            final(self)@.lexeme == old(self)@.lexeme,
    {
        loop
            invariant
                self.wf(),
                self@.source == old(self)@.source,
                old(self)@.position <= self@.position <= self@.source.len(),
                old(self)@.line_number <= self@.line_number,
                self@.lexeme_start == old(self)@.lexeme_start,
                self@.lexeme == old(self)@.lexeme,
            decreases self@.source.len() - self@.position,
        {
            let next = match self.source.peek_next() {
                Some(c) => c,
                None => {
                    return;
                },
            };

            if next == ' ' || next == '\r' || next == '\t' {
                self.consume_and_discard();
            } else if next == '\n' {
                self.line_number = if self.line_number < usize::MAX {
                    self.line_number + 1
                } else {
                    self.line_number
                };
                self.consume_and_discard();
            } else if next == '/' {
                let ahead = self.source.peek_ahead();
                let is_comment = match ahead {
                    Some(c) => c == '/',
                    None => false,
                };

                if !is_comment {
                    return;
                }

                self.consume_and_discard();
                self.consume_and_discard();
                self.skip_comment_line();
            } else {
                return;
            }
        }
    }

    /// Consumes the rest of a comment, up to and including the newline
    /// that ends it.
    fn skip_comment_line(&mut self)
        requires
            old(self).wf(),
        ensures
            final(self).wf(),
            final(self)@.source == old(self)@.source,
            old(self)@.position <= final(self)@.position <= final(self)@.source.len(),
            old(self)@.line_number <= final(self)@.line_number,
            final(self)@.lexeme_start == old(self)@.lexeme_start,
            final(self)@.lexeme == old(self)@.lexeme,
    {
        loop
            invariant
                self.wf(),
                self@.source == old(self)@.source,
                old(self)@.position <= self@.position <= self@.source.len(),
                old(self)@.line_number <= self@.line_number,
                self@.lexeme_start == old(self)@.lexeme_start,
                self@.lexeme == old(self)@.lexeme,
            decreases self@.source.len() - self@.position,
        {
            let c = match self.consume_and_discard() {
                Some(c) => c,
                None => {
                    return;
                },
            };

            if c == '\n' {
                return;
            }
        }
    }

    /// Consumes the next character only when it matches `expected`,
    /// appending it to the lexeme.
    fn match_next(&mut self, expected: char) -> (r: Option<char>)
        requires
            old(self).wf(),
        ensures
            final(self).wf(),
            final(self)@.source == old(self)@.source,
            old(self)@.position <= final(self)@.position <= final(self)@.source.len(),
            final(self)@.line_number == old(self)@.line_number,
            final(self)@.lexeme_start == old(self)@.lexeme_start,
            old(self)@.position < old(self)@.source.len()
                    && old(self)@.source[old(self)@.position] == expected ==> {
                &&& r == Some(expected)
                &&& final(self)@.position == old(self)@.position + 1
                &&& final(self)@.lexeme == old(self)@.lexeme.push(expected)
            },
            !(old(self)@.position < old(self)@.source.len()
                    && old(self)@.source[old(self)@.position] == expected) ==> {
                &&& r is None
                &&& final(self)@ == old(self)@
            },
    {
        if let Some(c) = self.source.peek_next() {
            if c == expected {
                return self.consume_and_append();
            }
        }

        None
    }

    /// Consumes one character, appending it to the current lexeme.
    fn consume_and_append(&mut self) -> (r: Option<char>)
        requires
            old(self).wf(),
        ensures
            final(self).wf(),
            final(self)@.source == old(self)@.source,
            final(self)@.line_number == old(self)@.line_number,
            final(self)@.lexeme_start == old(self)@.lexeme_start,
            old(self)@.position < old(self)@.source.len() ==> {
                &&& r == Some(old(self)@.source[old(self)@.position])
                &&& final(self)@.position == old(self)@.position + 1
                &&& final(self)@.lexeme
                    == old(self)@.lexeme.push(old(self)@.source[old(self)@.position])
            },
            old(self)@.position >= old(self)@.source.len() ==> {
                &&& r is None
                &&& final(self)@ == old(self)@
            },
    {
        let character = self.source.next();

        if let Some(c) = character {
            self.current_character = self.current_character + 1;
            self.consumed_characters.push(c);
        }

        character
    }

    /// Consumes one character without recording it in the lexeme.
    fn consume_and_discard(&mut self) -> (r: Option<char>)
        requires
            old(self).wf(),
        ensures
            final(self).wf(),
            final(self)@.source == old(self)@.source,
            final(self)@.line_number == old(self)@.line_number,
            final(self)@.lexeme_start == old(self)@.lexeme_start,
            final(self)@.lexeme == old(self)@.lexeme,
            old(self)@.position < old(self)@.source.len() ==> {
                &&& r == Some(old(self)@.source[old(self)@.position])
                &&& final(self)@.position == old(self)@.position + 1
            },
            old(self)@.position >= old(self)@.source.len() ==> {
                &&& r is None
                &&& final(self)@ == old(self)@
            },
    {
        let character = self.source.next();

        if let Some(_) = character {
            self.current_character = self.current_character + 1;
        }

        character
    }
}

/// Scans a whole input into tokens: the returned vector always ends with
/// the first `EndOfFile` or `Error` token, and no earlier token is either.
pub fn tokenize(input: Vec<char>) -> (tokens: Vec<Token>)
    ensures
        tokens@.len() >= 1,
        tokens@.last().token_type == TokenType::EndOfFile
            || tokens@.last().token_type matches TokenType::Error(_),
        forall|i: int| 0 <= i < tokens@.len() - 1
            ==> #[trigger] tokens@[i].token_type != TokenType::EndOfFile
                && !(tokens@[i].token_type matches TokenType::Error(_)),
{
    let mut scanner = Scanner::create(input);
    let mut tokens: Vec<Token> = Vec::new();

    loop
        invariant
            scanner.wf(),
            scanner@.position <= scanner@.source.len(),
            forall|i: int| 0 <= i < tokens@.len()
                ==> #[trigger] tokens@[i].token_type != TokenType::EndOfFile
                    && !(tokens@[i].token_type matches TokenType::Error(_)),
        decreases scanner@.source.len() - scanner@.position + 1,
    {
        let token = scanner.next();
        let token_type = token.token_type;
        tokens.push(token);

        if matches!(token_type, TokenType::EndOfFile) {
            return tokens;
        }

        if matches!(token_type, TokenType::Error(_)) {
            return tokens;
        }
    }
}

} // verus!
