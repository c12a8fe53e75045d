//! The lexical grammar of Lox, as functions on sequences of characters.
//!
//! A position is an index into the source; a line is the number of the line a
//! token is reported on, counted by the newlines passed so far.

use crate::token::{TokenKind, TokenModel};
use vstd::prelude::*;

verus! {

/// Where a scan stands: the next character to read and the current line.
pub struct Cursor {
    pub pos: int,
    pub line: int,
}

/// One token and where the scan stands behind it.
pub struct Scanned {
    pub token: TokenModel,
    pub next: Cursor,
}

pub open spec fn is_digit(c: char) -> bool {
    c >= '0' && c <= '9'
}

pub open spec fn is_alpha(c: char) -> bool {
    (c >= 'a' && c <= 'z') || (c >= 'A' && c <= 'Z') || c == '_'
}

/// A character that may follow the first one of a name.
pub open spec fn is_name_part(c: char) -> bool {
    is_alpha(c) || is_digit(c)
}

/// A blank that is skipped without a change of line.
pub open spec fn is_blank(c: char) -> bool {
    c == ' ' || c == '\r' || c == '\t'
}

/// The runs of characters that the grammar reads to their end.
pub enum Run {
    /// Decimal digits.
    Digits,
    /// The letters, digits and underscores of a name.
    Name,
    /// A line comment: everything but a newline.
    Comment,
    /// The inside of a string literal: everything but a double quote.
    Text,
}

/// Whether `c` continues a run of the kind `run`.
pub open spec fn continues(run: Run, c: char) -> bool {
    match run {
        Run::Digits => is_digit(c),
        Run::Name => is_name_part(c),
        Run::Comment => c != '\n',
        Run::Text => c != '"',
    }
}

/// The end of the longest run of the kind `run` that starts at `from`: the
/// first position at or behind `from` whose character does not continue it, or
/// the length of `s` where there is none.
pub open spec fn run_end(s: Seq<char>, from: int, run: Run) -> int
    decreases s.len() - from,
{
    if 0 <= from < s.len() && continues(run, s[from]) {
        run_end(s, from + 1, run)
    } else {
        from
    }
}

/// A run ends at or behind its start and inside the source, every character
/// in it continues it, and the character at its end, if there is one, does not.
pub proof fn run_end_is_first_stop(s: Seq<char>, from: int, run: Run)
    requires
        0 <= from <= s.len(),
    ensures
        from <= run_end(s, from, run) <= s.len(),
        forall|i: int| from <= i < run_end(s, from, run) ==> continues(run, #[trigger] s[i]),
        run_end(s, from, run) < s.len() ==> !continues(run, s[run_end(s, from, run)]),
    decreases s.len() - from,
{
    if from < s.len() && continues(run, s[from]) {
        run_end_is_first_stop(s, from + 1, run);
    }
}

/// How many newlines stand in `s` from `from` up to, not including, `to`.
pub open spec fn newlines(s: Seq<char>, from: int, to: int) -> int
    decreases to - from,
{
    if 0 <= from < to <= s.len() {
        newlines(s, from, to - 1) + if s[to - 1] == '\n' {
            1int
        } else {
            0int
        }
    } else {
        0
    }
}

/// Whether a line comment starts at `pos`: two slashes.
pub open spec fn comment_at(s: Seq<char>, pos: int) -> bool {
    0 <= pos && pos + 1 < s.len() && s[pos] == '/' && s[pos + 1] == '/'
}

/// Where the comment that starts at `pos` ends: behind the newline that
/// closes it, or at the end of the source.
pub open spec fn comment_end(s: Seq<char>, pos: int) -> int {
    let e = run_end(s, pos, Run::Comment);
    if e < s.len() {
        e + 1
    } else {
        e
    }
}

/// Where the scan stands once blanks, newlines and line comments at `pos` are
/// passed: at the first character of a token, or at the end of the source.
///
/// A newline that is passed as such counts as a line; the newline that closes
/// a comment is passed with the comment and does not.
pub open spec fn skip_blanks(s: Seq<char>, pos: int, line: int) -> Cursor
    decreases s.len() - pos,
    when 0 <= pos
    via skip_blanks_decreases
{
    if pos >= s.len() {
        Cursor { pos, line }
    } else if is_blank(s[pos]) {
        skip_blanks(s, pos + 1, line)
    } else if s[pos] == '\n' {
        skip_blanks(s, pos + 1, line + 1)
    } else if comment_at(s, pos) {
        skip_blanks(s, comment_end(s, pos), line)
    } else {
        Cursor { pos, line }
    }
}

#[via_fn]
proof fn skip_blanks_decreases(s: Seq<char>, pos: int, line: int) {
    if pos < s.len() && comment_at(s, pos) {
        run_end_is_first_stop(s, pos + 1, Run::Comment);
    }
}

/// The keyword that `word` spells, or the identifier that it is.
pub open spec fn word_kind(word: Seq<char>) -> TokenKind {
    if word == "and"@ {
        TokenKind::And
    } else if word == "class"@ {
        TokenKind::Class
    } else if word == "else"@ {
        TokenKind::Else
    } else if word == "false"@ {
        TokenKind::False
    } else if word == "for"@ {
        TokenKind::For
    } else if word == "fun"@ {
        TokenKind::Fun
    } else if word == "if"@ {
        TokenKind::If
    } else if word == "nil"@ {
        TokenKind::Nil
    } else if word == "or"@ {
        TokenKind::Or
    } else if word == "print"@ {
        TokenKind::Print
    } else if word == "return"@ {
        TokenKind::Return
    } else if word == "super"@ {
        TokenKind::Super
    } else if word == "this"@ {
        TokenKind::This
    } else if word == "true"@ {
        TokenKind::True
    } else if word == "var"@ {
        TokenKind::Var
    } else if word == "while"@ {
        TokenKind::While
    } else {
        TokenKind::Identifier(word)
    }
}

/// Where the number ends whose first digit stands just before `from`: behind
/// the digits that follow, and behind a fraction if a dot and at least one
/// digit follow those.
pub open spec fn number_end(s: Seq<char>, from: int) -> int {
    let e = run_end(s, from, Run::Digits);
    if e + 1 < s.len() && s[e] == '.' && is_digit(s[e + 1]) {
        run_end(s, e + 1, Run::Digits)
    } else {
        e
    }
}

/// The message of the token given for a character that starts no token.
pub open spec fn unexpected_character() -> Seq<char> {
    "Unexpected character"@
}

/// The message of the token given for a string literal that is not closed.
pub open spec fn unterminated_string() -> Seq<char> {
    "Unterminated string"@
}

/// The token of the kind `kind` that ends just before `next`, on `line`.
pub open spec fn scanned(kind: TokenKind, next: int, line: int) -> Scanned {
    Scanned { token: TokenModel { kind, line }, next: Cursor { pos: next, line } }
}

/// The token that starts with one of `! = < >` at `pos`: `with_equal` if an
/// equals sign follows, which then belongs to the token, else `alone`.
pub open spec fn operator_at(
    s: Seq<char>,
    pos: int,
    line: int,
    with_equal: TokenKind,
    alone: TokenKind,
) -> Scanned {
    if pos + 1 < s.len() && s[pos + 1] == '=' {
        scanned(with_equal, pos + 2, line)
    } else {
        scanned(alone, pos + 1, line)
    }
}

/// The string literal whose opening quote stands just before `from`. Its text
/// runs to the next double quote and may span lines; the token is reported on
/// the line where it ends. Where no quote follows, the rest of the source is
/// consumed and the token is an error.
pub open spec fn string_at(s: Seq<char>, from: int, line: int) -> Scanned {
    let e = run_end(s, from, Run::Text);
    let line = line + newlines(s, from, e);
    if e >= s.len() {
        scanned(TokenKind::Error(unterminated_string()), e, line)
    } else {
        scanned(TokenKind::String(s.subrange(from, e)), e + 1, line)
    }
}

/// The token that starts at `pos`, where `pos` is inside the source and no
/// blank, newline or comment starts there.
pub open spec fn token_at(s: Seq<char>, pos: int, line: int) -> Scanned {
    let c = s[pos];
    if is_alpha(c) {
        let e = run_end(s, pos + 1, Run::Name);
        scanned(word_kind(s.subrange(pos, e)), e, line)
    } else if is_digit(c) {
        let e = number_end(s, pos + 1);
        scanned(TokenKind::Number(s.subrange(pos, e)), e, line)
    } else if c == '(' {
        scanned(TokenKind::LeftParen, pos + 1, line)
    } else if c == ')' {
        scanned(TokenKind::RightParen, pos + 1, line)
    } else if c == '{' {
        scanned(TokenKind::LeftBrace, pos + 1, line)
    } else if c == '}' {
        scanned(TokenKind::RightBrace, pos + 1, line)
    } else if c == ';' {
        scanned(TokenKind::Semicolon, pos + 1, line)
    } else if c == ',' {
        scanned(TokenKind::Comma, pos + 1, line)
    } else if c == '.' {
        scanned(TokenKind::Dot, pos + 1, line)
    } else if c == '-' {
        scanned(TokenKind::Minus, pos + 1, line)
    } else if c == '+' {
        scanned(TokenKind::Plus, pos + 1, line)
    } else if c == '/' {
        scanned(TokenKind::Slash, pos + 1, line)
    } else if c == '*' {
        scanned(TokenKind::Star, pos + 1, line)
    } else if c == '!' {
        operator_at(s, pos, line, TokenKind::BangEqual, TokenKind::Bang)
    } else if c == '=' {
        operator_at(s, pos, line, TokenKind::EqualEqual, TokenKind::Equal)
    } else if c == '<' {
        operator_at(s, pos, line, TokenKind::LessEqual, TokenKind::Less)
    } else if c == '>' {
        operator_at(s, pos, line, TokenKind::GreaterEqual, TokenKind::Greater)
    } else if c == '"' {
        string_at(s, pos + 1, line)
    } else {
        scanned(TokenKind::Error(unexpected_character()), pos + 1, line)
    }
}

/// The next token of a scan that stands at `pos` on `line`: what follows the
/// blanks and comments there, or the end-of-file token where nothing does.
pub open spec fn next_token(s: Seq<char>, pos: int, line: int) -> Scanned {
    let at = skip_blanks(s, pos, line);
    if at.pos >= s.len() {
        scanned(TokenKind::EOF, at.pos, at.line)
    } else {
        token_at(s, at.pos, at.line)
    }
}

/// All the tokens of a scan that stands at `pos` on `line`, up to and
/// including the end-of-file token, which is always the last and the only one
/// of its kind.
pub open spec fn tokens_from(s: Seq<char>, pos: int, line: int) -> Seq<TokenModel>
    decreases s.len() - pos,
    when 0 <= pos <= s.len()
    via tokens_from_decreases
{
    let first = next_token(s, pos, line);
    if first.token.kind is EOF {
        seq![first.token]
    } else {
        seq![first.token] + tokens_from(s, first.next.pos, first.next.line)
    }
}

#[via_fn]
proof fn tokens_from_decreases(s: Seq<char>, pos: int, line: int) {
    next_token_advances(s, pos, line);
}

/// Passing blanks never moves the scan backwards, nor out of the source.
pub proof fn skip_blanks_stays_inside(s: Seq<char>, pos: int, line: int)
    requires
        0 <= pos <= s.len(),
    ensures
        pos <= skip_blanks(s, pos, line).pos <= s.len(),
        line <= skip_blanks(s, pos, line).line,
        skip_blanks(s, pos, line).line - line <= skip_blanks(s, pos, line).pos - pos,
    decreases s.len() - pos,
{
    if pos >= s.len() {
    } else if is_blank(s[pos]) {
        skip_blanks_stays_inside(s, pos + 1, line);
    } else if s[pos] == '\n' {
        skip_blanks_stays_inside(s, pos + 1, line + 1);
    } else if comment_at(s, pos) {
        run_end_is_first_stop(s, pos + 1, Run::Comment);
        skip_blanks_stays_inside(s, comment_end(s, pos), line);
    }
}

/// A string literal's line count grows by no more than the characters read.
pub proof fn newlines_at_most_length(s: Seq<char>, from: int, to: int)
    ensures
        0 <= newlines(s, from, to),
        from <= to ==> newlines(s, from, to) <= to - from,
    decreases to - from,
{
    if 0 <= from < to <= s.len() {
        newlines_at_most_length(s, from, to - 1);
    }
}

/// Every token but the end-of-file token consumes at least one character, no
/// token reaches beyond the source, and the end-of-file token is given exactly
/// when only blanks and comments are left, all of which it consumes. The line
/// grows by no more than the characters consumed.
pub proof fn next_token_advances(s: Seq<char>, pos: int, line: int)
    requires
        0 <= pos <= s.len(),
    ensures
        next_token(s, pos, line).next.pos <= s.len(),
        next_token(s, pos, line).token.kind is EOF ==> next_token(s, pos, line).next.pos
            == s.len(),
        !(next_token(s, pos, line).token.kind is EOF) ==> pos < next_token(s, pos, line).next.pos,
        next_token(s, pos, line).token.line == next_token(s, pos, line).next.line,
        line <= next_token(s, pos, line).next.line,
        next_token(s, pos, line).next.line - line <= next_token(s, pos, line).next.pos - pos,
{
    skip_blanks_stays_inside(s, pos, line);
    let at = skip_blanks(s, pos, line);
    if at.pos < s.len() {
        run_end_is_first_stop(s, at.pos + 1, Run::Name);
        run_end_is_first_stop(s, at.pos + 1, Run::Digits);
        run_end_is_first_stop(s, at.pos + 1, Run::Text);
        let e = run_end(s, at.pos + 1, Run::Digits);
        if e + 1 < s.len() {
            run_end_is_first_stop(s, e + 1, Run::Digits);
        }
        newlines_at_most_length(s, at.pos + 1, run_end(s, at.pos + 1, Run::Text));
    }
}

/// A scan gives at least one token, no more tokens than there are characters
/// left and one, and the end-of-file token last and nowhere else.
pub proof fn tokens_end_with_end_of_file(s: Seq<char>, pos: int, line: int)
    requires
        0 <= pos <= s.len(),
    ensures
        1 <= tokens_from(s, pos, line).len() <= s.len() - pos + 1,
        tokens_from(s, pos, line).last().kind is EOF,
        forall|i: int|
            0 <= i < tokens_from(s, pos, line).len() - 1 ==> !(#[trigger] tokens_from(
                s,
                pos,
                line,
            )[i].kind is EOF),
    decreases s.len() - pos,
{
    next_token_advances(s, pos, line);
    let first = next_token(s, pos, line);
    if !(first.token.kind is EOF) {
        tokens_end_with_end_of_file(s, first.next.pos, first.next.line);
    }
}

} // verus!
