//! Contains a `Scanner` which reads `Token`s from a `String` of Lox source.

use crate::grammar::{
    comment_end, newlines, next_token, next_token_advances, number_end, run_end, scanned,
    skip_blanks, string_at, tokens_from, word_kind, Cursor, Run, Scanned,
};
use crate::text::{chars_of, spells, text_of};
use crate::token::{models, Token, TokenKind, TokenType};
use vstd::prelude::*;

verus! {

/// A scan over one source text: the text, the position of the next character
/// to read, and the line that position is on.
#[derive(Debug)]
pub struct Scanner {
    pub line: usize,
    src: Vec<char>,
    curr: usize,
}

/// `Vec::len`, with the bound that std documents for every vector: a vector
/// never holds more than `isize::MAX` bytes, so the count of its characters
/// stays below `usize::MAX`.
#[verifier::external_body]
fn char_count(chars: &Vec<char>) -> (n: usize)
    ensures
        n == chars@.len(),
        n < usize::MAX,
{
    chars.len()
}

impl Scanner {
    /// The source text.
    pub closed spec fn source(&self) -> Seq<char> {
        self.src@
    }

    /// The position of the next character to read.
    pub closed spec fn position(&self) -> int {
        self.curr as int
    }

    /// The line that the position is on: the value of the field `line`.
    pub closed spec fn line_number(&self) -> int {
        self.line as int
    }

    /// Where the scan stands.
    pub open spec fn cursor(&self) -> Cursor {
        Cursor { pos: self.position(), line: self.line_number() }
    }

    /// The position is inside the source or at its end, and the line number
    /// can still grow by one for every character that is left.
    pub open spec fn wf(&self) -> bool {
        &&& 0 <= self.position() <= self.source().len()
        &&& 0 <= self.line_number()
        &&& self.line_number() + (self.source().len() - self.position()) <= usize::MAX
    }

    /// A scan of `src` that stands before its first character, on line 1.
    pub fn new(src: String) -> (scanner: Self)
        ensures
            scanner.wf(),
            scanner.source() == src@,
            scanner.position() == 0,
            scanner.line_number() == 1,
    {
        let scanner = Self { line: 1, src: chars_of(src.as_str()), curr: 0 };
        // The count is what leaves room for the line number to grow.
        let _ = char_count(&scanner.src);
        scanner
    }

    fn is_at_end(&self) -> (b: bool)
        ensures
            b == (self.position() == self.source().len()),
    {
        self.curr == char_count(&self.src)
    }

    fn nth(&self, n: usize) -> (c: &char)
        requires
            n < self.source().len(),
        ensures
            *c == self.source()[n as int],
    {
        &self.src[n]
    }

    /// The character read last.
    fn last(&self) -> (c: &char)
        requires
            0 < self.position() <= self.source().len(),
        ensures
            *c == self.source()[self.position() - 1],
    {
        self.nth(self.curr - 1)
    }

    /// The next character to read.
    fn peek(&self) -> (c: &char)
        requires
            self.position() < self.source().len(),
        ensures
            *c == self.source()[self.position()],
    {
        self.nth(self.curr)
    }

    /// The character behind the next one, or NUL where the source ends first.
    fn peek_next(&self) -> (c: &char)
        requires
            self.position() <= self.source().len(),
        ensures
            *c == if self.position() + 1 < self.source().len() {
                self.source()[self.position() + 1]
            } else {
                '\0'
            },
    {
        if self.src.len() - self.curr <= 1 {
            return &'\0';
        }
        self.nth(self.curr + 1)
    }

    /// Reads the next character.
    fn advance(&mut self) -> (c: &char)
        requires
            old(self).position() < old(self).source().len(),
        ensures
            *c == old(self).source()[old(self).position()],
            final(self).source() == old(self).source(),
            final(self).position() == old(self).position() + 1,
            final(self).line_number() == old(self).line_number(),
    {
        assert(self.src.len() == self.src@.len());
        self.curr += 1;
        self.nth(self.curr - 1)
    }

    /// Reads the source from the current position to its end and returns the
    /// tokens, the last of which is the end-of-file token.
    pub fn scan_tokens(&mut self) -> (tokens: Vec<Token>)
        requires
            old(self).wf(),
        ensures
            models(tokens@) == tokens_from(
                old(self).source(),
                old(self).position(),
                old(self).line_number(),
            ),
            final(self).wf(),
            final(self).source() == old(self).source(),
            final(self).position() == old(self).source().len(),
            tokens.len() > 0,
            final(self).line_number() == tokens@.last().line,
    {
        let mut vec: Vec<Token> = Vec::new();
        let ghost s = self.source();
        let ghost all = tokens_from(s, self.position(), self.line_number());
        loop
            invariant_except_break
                models(vec@) + tokens_from(s, self.position(), self.line_number()) == all,
            invariant
                self.wf(),
                self.source() == s,
            ensures
                models(vec@) == all,
                self.position() == s.len(),
                vec.len() > 0,
                self.line_number() == vec@.last().line,
            decreases s.len() - self.position(),
        {
            proof {
                next_token_advances(s, self.position(), self.line_number());
            }
            vec.push(self.scan_token());
            if matches!(vec.last().unwrap().token_type, TokenType::EOF) {
                break ;
            }
        }
        vec
    }

    /// Reads one token: the next one behind any blanks and comments, or the
    /// end-of-file token where the source holds nothing more.
    fn scan_token(&mut self) -> (token: Token)
        requires
            old(self).wf(),
        ensures
            final(self).wf(),
            final(self).source() == old(self).source(),
            (Scanned { token: token@, next: final(self).cursor() }) == next_token(
                old(self).source(),
                old(self).position(),
                old(self).line_number(),
            ),
    {
        self.skip_whitespace();

        if self.is_at_end() {
            return self.make_token(TokenType::EOF);
        }
        let c = *self.advance();
        if Self::is_alpha(c) {
            return self.identifier();
        }
        if Self::is_digit(c) {
            return self.number();
        }
        match c {
            // Single-character tokens
            '(' => self.make_token(TokenType::LeftParen),
            ')' => self.make_token(TokenType::RightParen),
            '{' => self.make_token(TokenType::LeftBrace),
            '}' => self.make_token(TokenType::RightBrace),
            ';' => self.make_token(TokenType::Semicolon),
            ',' => self.make_token(TokenType::Comma),
            '.' => self.make_token(TokenType::Dot),
            '-' => self.make_token(TokenType::Minus),
            '+' => self.make_token(TokenType::Plus),
            '/' => self.make_token(TokenType::Slash),
            '*' => self.make_token(TokenType::Star),
            // Double or single-character tokens
            '!' => {
                let tok_type = if self.tok_match('=') {
                    TokenType::BangEqual
                } else {
                    TokenType::Bang
                };
                self.make_token(tok_type)
            },
            '=' => {
                let tok_type = if self.tok_match('=') {
                    TokenType::EqualEqual
                } else {
                    TokenType::Equal
                };
                self.make_token(tok_type)
            },
            '<' => {
                let tok_type = if self.tok_match('=') {
                    TokenType::LessEqual
                } else {
                    TokenType::Less
                };
                self.make_token(tok_type)
            },
            '>' => {
                let tok_type = if self.tok_match('=') {
                    TokenType::GreaterEqual
                } else {
                    TokenType::Greater
                };
                self.make_token(tok_type)
            },
            '"' => self.string(),
            _ => self.make_token(TokenType::Error("Unexpected character".to_string())),
        }
    }

    /// Passes blanks, newlines and line comments, counting the newlines that
    /// are not part of a comment.
    fn skip_whitespace(&mut self)
        requires
            old(self).wf(),
        ensures
            final(self).wf(),
            final(self).source() == old(self).source(),
            final(self).cursor() == skip_blanks(
                old(self).source(),
                old(self).position(),
                old(self).line_number(),
            ),
    {
        let ghost s = self.source();
        let ghost target = skip_blanks(s, self.position(), self.line_number());
        loop
            invariant
                self.wf(),
                self.source() == s,
                s == old(self).source(),
                target == skip_blanks(s, old(self).position(), old(self).line_number()),
                skip_blanks(s, self.position(), self.line_number()) == target,
            decreases s.len() - self.position(),
        {
            if self.is_at_end() {
                return ;
            }
            let c = *self.peek();
            match c {
                ' ' | '\r' | '\t' => {
                    self.advance();
                },
                '\n' => {
                    self.line += 1;
                    self.advance();
                },
                '/' => {
                    // Check for comment
                    if *self.peek_next() == '/' {
                        let ghost start = self.position();
                        let ghost line = self.line_number();
                        // Advance till the end of the line
                        loop
                            invariant_except_break
                                self.source() == s,
                                start <= self.position() <= s.len(),
                                run_end(s, self.position(), Run::Comment) == run_end(
                                    s,
                                    start,
                                    Run::Comment,
                                ),
                            invariant
                                self.source() == s,
                                self.line_number() == line,
                                0 <= start < s.len(),
                                s[start] == '/',
                            ensures
                                self.position() == comment_end(s, start),
                                start < self.position() <= s.len(),
                            decreases s.len() - self.position(),
                        {
                            if self.is_at_end() {
                                break ;
                            }
                            if *self.advance() == '\n' {
                                break ;
                            }
                        }
                    } else {
                        return ;
                    }
                },
                _ => return ,
            };
        }
    }

    /// Reads the next character if it is `expected`, and says whether it did.
    fn tok_match(&mut self, expected: char) -> (b: bool)
        requires
            old(self).position() <= old(self).source().len(),
        ensures
            b == (old(self).position() < old(self).source().len() && old(self).source()[old(
                self,
            ).position()] == expected),
            final(self).source() == old(self).source(),
            final(self).position() == old(self).position() + if b {
                1int
            } else {
                0int
            },
            final(self).line_number() == old(self).line_number(),
    {
        if self.is_at_end() {
            return false;
        }
        if *self.nth(self.curr) != expected {
            return false;
        }
        assert(self.src.len() == self.src@.len());
        self.curr += 1;
        true
    }

    fn make_token(&self, token_type: TokenType) -> (token: Token)
        ensures
            token.token_type == token_type,
            token.line == self.line_number(),
    {
        Token { token_type, line: self.line }
    }

    fn is_digit(c: char) -> (b: bool)
        ensures
            b == crate::grammar::is_digit(c),
    {
        c >= '0' && c <= '9'
    }

    fn is_alpha(c: char) -> (b: bool)
        ensures
            b == crate::grammar::is_alpha(c),
    {
        (c >= 'a' && c <= 'z') || (c >= 'A' && c <= 'Z') || c == '_'
    }

    /// Reads a string literal whose opening quote was just read.
    fn string(&mut self) -> (token: Token)
        requires
            old(self).wf(),
        ensures
            final(self).wf(),
            final(self).source() == old(self).source(),
            (Scanned { token: token@, next: final(self).cursor() }) == string_at(
                old(self).source(),
                old(self).position(),
                old(self).line_number(),
            ),
    {
        let mut chars: Vec<char> = Vec::new();
        let ghost s = self.source();
        let ghost start = self.position();
        let ghost line = self.line_number();

        while !self.is_at_end() && *self.peek() != '"'
            invariant
                self.wf(),
                self.source() == s,
                0 <= start <= self.position() <= s.len(),
                run_end(s, self.position(), Run::Text) == run_end(s, start, Run::Text),
                chars@ == s.subrange(start, self.position()),
                self.line_number() == line + newlines(s, start, self.position()),
            decreases s.len() - self.position(),
        {
            if *self.peek() == '\n' {
                self.line += 1;
            }
            chars.push(*self.advance());
        }

        if self.is_at_end() {
            return self.make_token(TokenType::Error("Unterminated string".to_string()));
        }
        // The closing quote

        self.advance();
        self.make_token(TokenType::String(text_of(&chars)))
    }

    /// Reads the rest of a number literal whose first digit was just read.
    fn number(&mut self) -> (token: Token)
        requires
            old(self).wf(),
            0 < old(self).position(),
        ensures
            final(self).wf(),
            final(self).source() == old(self).source(),
            (Scanned { token: token@, next: final(self).cursor() }) == scanned(
                TokenKind::Number(
                    old(self).source().subrange(
                        old(self).position() - 1,
                        number_end(old(self).source(), old(self).position()),
                    ),
                ),
                number_end(old(self).source(), old(self).position()),
                old(self).line_number(),
            ),
    {
        let mut chars: Vec<char> = vec![*self.last()];
        let ghost s = self.source();
        let ghost start = self.position();
        let ghost line = self.line_number();

        while !self.is_at_end() && Self::is_digit(*self.peek())
            invariant
                self.wf(),
                self.source() == s,
                self.line_number() == line,
                0 < start <= self.position() <= s.len(),
                run_end(s, self.position(), Run::Digits) == run_end(s, start, Run::Digits),
                chars@ == s.subrange(start - 1, self.position()),
            decreases s.len() - self.position(),
        {
            chars.push(*self.advance());
        }

        // Look for a fractional part
        if !self.is_at_end() && *self.peek() == '.' && Self::is_digit(*self.peek_next()) {
            // Consume the '.'
            chars.push(*self.advance());
            let ghost fraction = self.position();
            while !self.is_at_end() && Self::is_digit(*self.peek())
                invariant
                    self.wf(),
                    self.source() == s,
                    self.line_number() == line,
                    0 < start <= fraction <= self.position() <= s.len(),
                    run_end(s, self.position(), Run::Digits) == run_end(s, fraction, Run::Digits),
                    chars@ == s.subrange(start - 1, self.position()),
                decreases s.len() - self.position(),
            {
                chars.push(*self.advance());
            }
        }

        self.make_token(TokenType::Number(text_of(&chars)))
    }

    /// Reads the rest of a name whose first character was just read, and tells
    /// the keywords from the identifiers.
    fn identifier(&mut self) -> (token: Token)
        requires
            old(self).wf(),
            0 < old(self).position(),
        ensures
            final(self).wf(),
            final(self).source() == old(self).source(),
            (Scanned { token: token@, next: final(self).cursor() }) == scanned(
                word_kind(
                    old(self).source().subrange(
                        old(self).position() - 1,
                        run_end(old(self).source(), old(self).position(), Run::Name),
                    ),
                ),
                run_end(old(self).source(), old(self).position(), Run::Name),
                old(self).line_number(),
            ),
    {
        let mut chars: Vec<char> = vec![*self.last()];
        let ghost s = self.source();
        let ghost start = self.position();
        let ghost line = self.line_number();

        while !self.is_at_end() && (Self::is_alpha(*self.peek()) || Self::is_digit(*self.peek()))
            invariant
                self.wf(),
                self.source() == s,
                self.line_number() == line,
                0 < start <= self.position() <= s.len(),
                run_end(s, self.position(), Run::Name) == run_end(s, start, Run::Name),
                chars@ == s.subrange(start - 1, self.position()),
            decreases s.len() - self.position(),
        {
            chars.push(*self.advance());
        }

        if spells(&chars, "and") {
            self.make_token(TokenType::And)
        } else if spells(&chars, "class") {
            self.make_token(TokenType::Class)
        } else if spells(&chars, "else") {
            self.make_token(TokenType::Else)
        } else if spells(&chars, "false") {
            self.make_token(TokenType::False)
        } else if spells(&chars, "for") {
            self.make_token(TokenType::For)
        } else if spells(&chars, "fun") {
            self.make_token(TokenType::Fun)
        } else if spells(&chars, "if") {
            self.make_token(TokenType::If)
        } else if spells(&chars, "nil") {
            self.make_token(TokenType::Nil)
        } else if spells(&chars, "or") {
            self.make_token(TokenType::Or)
        } else if spells(&chars, "print") {
            self.make_token(TokenType::Print)
        } else if spells(&chars, "return") {
            self.make_token(TokenType::Return)
        } else if spells(&chars, "super") {
            self.make_token(TokenType::Super)
        } else if spells(&chars, "this") {
            self.make_token(TokenType::This)
        } else if spells(&chars, "true") {
            self.make_token(TokenType::True)
        } else if spells(&chars, "var") {
            self.make_token(TokenType::Var)
        } else if spells(&chars, "while") {
            self.make_token(TokenType::While)
        } else {
            self.make_token(TokenType::Identifier(text_of(&chars)))
        }
    }
}

} // verus!
