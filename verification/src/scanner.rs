//! The scanner: converts raw source text into tokens in a single forward
//! pass with one character of lookahead.
//!
//! The first half of this file is the mathematical model: `scan_spec` maps a
//! sequence of characters to the tokens and diagnostics the scanner owes.
//! The second half is the executable `Scanner`, proved to produce exactly
//! that.

use vstd::prelude::*;

use crate::diagnostic::DiagV;
use crate::diagnostic::Diagnostic;
use crate::diagnostic::diag_opt_seq;
use crate::diagnostic::diags_view;
use crate::float::f64_parse;
use crate::float::parse_bits;
use crate::text::string_from_chars;
use crate::text::chars_of;
use crate::token::Token;
use crate::token::TokenType;
use crate::token::TokenV;
use crate::value::Value;
use crate::value::ValueV;

verus! {

// ---------------------------------------------------------------------------
// Character classes
// ---------------------------------------------------------------------------
/// An ASCII decimal digit.
pub open spec fn is_digit(c: char) -> bool {
    '0' <= c && c <= '9'
}

/// A character that may continue an identifier: ASCII letter, digit or
/// underscore.
pub open spec fn is_ident_char(c: char) -> bool {
    ('a' <= c && c <= 'z') || ('A' <= c && c <= 'Z') || is_digit(c) || c == '_'
}

/// A character that may begin an identifier: ASCII letter or underscore.
pub open spec fn is_ident_start(c: char) -> bool {
    ('a' <= c && c <= 'z') || ('A' <= c && c <= 'Z') || c == '_'
}

/// The ASCII-lowercase image of a character.
pub open spec fn lower_char(c: char) -> char {
    match c {
        'A' => 'a',
        'B' => 'b',
        'C' => 'c',
        'D' => 'd',
        'E' => 'e',
        'F' => 'f',
        'G' => 'g',
        'H' => 'h',
        'I' => 'i',
        'J' => 'j',
        'K' => 'k',
        'L' => 'l',
        'M' => 'm',
        'N' => 'n',
        'O' => 'o',
        'P' => 'p',
        'Q' => 'q',
        'R' => 'r',
        'S' => 's',
        'T' => 't',
        'U' => 'u',
        'V' => 'v',
        'W' => 'w',
        'X' => 'x',
        'Y' => 'y',
        'Z' => 'z',
        _ => c,
    }
}

/// The ASCII-lowercase image of a word.
pub open spec fn lowered(w: Seq<char>) -> Seq<char> {
    Seq::new(w.len(), |i: int| lower_char(w[i]))
}

/// The next line counter: one more, saturating at the largest `u32`.
pub open spec fn bump_line(l: u32) -> u32 {
    if l < 0xffff_ffff {
        (l + 1) as u32
    } else {
        l
    }
}

// ---------------------------------------------------------------------------
// Runs of characters
// ---------------------------------------------------------------------------
/// The index just past the run of digits that starts at `i`.
pub open spec fn digits_end(src: Seq<char>, i: int) -> int
    decreases src.len() - i,
{
    if i < 0 || i >= src.len() || !is_digit(src[i]) {
        i
    } else {
        digits_end(src, i + 1)
    }
}

/// The index just past the run of identifier characters that starts at `i`.
pub open spec fn ident_end(src: Seq<char>, i: int) -> int
    decreases src.len() - i,
{
    if i < 0 || i >= src.len() || !is_ident_char(src[i]) {
        i
    } else {
        ident_end(src, i + 1)
    }
}

/// The index of the first newline at or after `i`, or the length of the
/// source if there is none.
pub open spec fn line_end(src: Seq<char>, i: int) -> int
    decreases src.len() - i,
{
    if i < 0 || i >= src.len() {
        src.len() as int
    } else if src[i] == '\n' {
        i
    } else {
        line_end(src, i + 1)
    }
}

pub proof fn lemma_digits_end(src: Seq<char>, i: int)
    requires
        0 <= i <= src.len(),
    ensures
        i <= digits_end(src, i) <= src.len(),
    decreases src.len() - i,
{
    if i < src.len() && is_digit(src[i]) {
        lemma_digits_end(src, i + 1);
    }
}

pub proof fn lemma_ident_end(src: Seq<char>, i: int)
    requires
        0 <= i <= src.len(),
    ensures
        i <= ident_end(src, i) <= src.len(),
    decreases src.len() - i,
{
    if i < src.len() && is_ident_char(src[i]) {
        lemma_ident_end(src, i + 1);
    }
}

pub proof fn lemma_line_end(src: Seq<char>, i: int)
    requires
        0 <= i <= src.len(),
    ensures
        i <= line_end(src, i) <= src.len(),
    decreases src.len() - i,
{
    if i < src.len() && src[i] != '\n' {
        lemma_line_end(src, i + 1);
    }
}

// ---------------------------------------------------------------------------
// Block comments
// ---------------------------------------------------------------------------
/// What scanning a `/* ... */` comment body from `i` yields: the index just
/// past the closing `*/` (or the end of the source if the comment never
/// closes) and the line counter after the embedded newlines.
pub struct BlockScanV {
    pub end: int,
    pub line: u32,
}

pub open spec fn block_comment_scan(src: Seq<char>, i: int, line: u32) -> BlockScanV
    decreases src.len() - i,
{
    if i < 0 || i >= src.len() {
        BlockScanV { end: src.len() as int, line }
    } else if src[i] == '*' && i + 1 < src.len() && src[i + 1] == '/' {
        BlockScanV { end: i + 2, line }
    } else {
        block_comment_scan(src, i + 1, if src[i] == '\n' {
            bump_line(line)
        } else {
            line
        })
    }
}

pub proof fn lemma_block_comment_scan(src: Seq<char>, i: int, line: u32)
    requires
        0 <= i <= src.len(),
    ensures
        i <= block_comment_scan(src, i, line).end <= src.len(),
    decreases src.len() - i,
{
    if i < src.len() && !(src[i] == '*' && i + 1 < src.len() && src[i + 1] == '/') {
        lemma_block_comment_scan(
            src,
            i + 1,
            if src[i] == '\n' {
                bump_line(line)
            } else {
                line
            },
        );
    }
}

// ---------------------------------------------------------------------------
// String literals
// ---------------------------------------------------------------------------
/// The character an escape sequence stands for: `\"` is a double quote and
/// `\n` is a newline.
pub open spec fn escaped_char(c: char) -> char {
    if c == 'n' {
        '\n'
    } else {
        c
    }
}

/// What scanning a string literal body from `i` (just past the opening
/// quote) yields: the accumulated content with escapes resolved, the index
/// just past the closing quote, the line counter after embedded newlines,
/// and whether a closing quote was found at all.
pub struct StrScanV {
    pub content: Seq<char>,
    pub end: int,
    pub line: u32,
    pub ok: bool,
}

pub open spec fn string_scan(src: Seq<char>, i: int, line: u32) -> StrScanV
    decreases src.len() - i,
{
    if i < 0 || i >= src.len() {
        StrScanV { content: Seq::empty(), end: src.len() as int, line, ok: false }
    } else if src[i] == '"' {
        StrScanV { content: Seq::empty(), end: i + 1, line, ok: true }
    } else if src[i] == '\\' && i + 1 < src.len() && (src[i + 1] == '"' || src[i + 1] == 'n') {
        let rest = string_scan(src, i + 2, line);
        StrScanV { content: seq![escaped_char(src[i + 1])] + rest.content, ..rest }
    } else {
        let next_line = if src[i] == '\n' {
            bump_line(line)
        } else {
            line
        };
        let rest = string_scan(src, i + 1, next_line);
        StrScanV { content: seq![src[i]] + rest.content, ..rest }
    }
}

pub proof fn lemma_string_scan(src: Seq<char>, i: int, line: u32)
    requires
        0 <= i <= src.len(),
    ensures
        i <= string_scan(src, i, line).end <= src.len(),
    decreases src.len() - i,
{
    if i < src.len() {
        if src[i] == '"' {
        } else if src[i] == '\\' && i + 1 < src.len() && (src[i + 1] == '"' || src[i + 1] == 'n') {
            if i + 2 <= src.len() {
                lemma_string_scan(src, i + 2, line);
            }
        } else {
            lemma_string_scan(
                src,
                i + 1,
                if src[i] == '\n' {
                    bump_line(line)
                } else {
                    line
                },
            );
        }
    }
}

// ---------------------------------------------------------------------------
// Keywords
// ---------------------------------------------------------------------------
/// The token kind of a scanned word: its ASCII-lowercase form is matched
/// against the keyword set, and anything else is a user identifier.
pub open spec fn keyword_kind(w: Seq<char>) -> TokenType {
    let l = lowered(w);
    if l == "and"@ {
        TokenType::And
    } else if l == "class"@ {
        TokenType::Class
    } else if l == "else"@ {
        TokenType::Else
    } else if l == "fun"@ {
        TokenType::Fun
    } else if l == "for"@ {
        TokenType::For
    } else if l == "if"@ {
        TokenType::If
    } else if l == "or"@ {
        TokenType::Or
    } else if l == "return"@ {
        TokenType::Return
    } else if l == "super"@ {
        TokenType::Super
    } else if l == "this"@ {
        TokenType::This
    } else if l == "var"@ {
        TokenType::Var
    } else if l == "while"@ {
        TokenType::While
    } else if l == "nil"@ {
        TokenType::Nil
    } else if l == "false"@ {
        TokenType::False
    } else if l == "true"@ {
        TokenType::True
    } else {
        TokenType::Identifier
    }
}

/// The literal payload a word token carries: `nil`, `true` and `false` carry
/// their value, all other words carry none.
pub open spec fn keyword_literal(kind: TokenType) -> Option<ValueV> {
    match kind {
        TokenType::Nil => Option::Some(ValueV::Nil),
        TokenType::True => Option::Some(ValueV::Boolean(true)),
        TokenType::False => Option::Some(ValueV::Boolean(false)),
        _ => Option::None,
    }
}

// ---------------------------------------------------------------------------
// One scanning step
// ---------------------------------------------------------------------------
/// What one step of the scanner, looking at position `i`, yields: at most
/// one token, at most one diagnostic, the next cursor position, and the new
/// line counter.
pub struct ScanStepV {
    pub token: Option<TokenV>,
    pub diag: Option<DiagV>,
    pub next: int,
    pub line: u32,
}

/// A step that emits the single token `t` and moves to `next`.
pub open spec fn step_token(t: TokenV, next: int, line: u32) -> ScanStepV {
    ScanStepV { token: Option::Some(t), diag: Option::None, next, line }
}

/// A step that emits nothing and moves to `next`.
pub open spec fn step_skip(next: int, line: u32) -> ScanStepV {
    ScanStepV { token: Option::None, diag: Option::None, next, line }
}

/// A single-character token of kind `k` at position `i`.
pub open spec fn step_single(src: Seq<char>, i: int, k: TokenType, line: u32) -> ScanStepV {
    step_token(
        TokenV { token_type: k, lexeme: src.subrange(i, i + 1), literal: Option::None, line },
        i + 1,
        line,
    )
}

/// A one-or-two-character operator at position `i`: if the next character is
/// `=`, the two-character kind `two` is produced, else the one-character
/// kind `one`.
pub open spec fn step_pair(
    src: Seq<char>,
    i: int,
    one: TokenType,
    two: TokenType,
    line: u32,
) -> ScanStepV {
    if i + 1 < src.len() && src[i + 1] == '=' {
        step_token(
            TokenV {
                token_type: two,
                lexeme: src.subrange(i, i + 2),
                literal: Option::None,
                line,
            },
            i + 2,
            line,
        )
    } else {
        step_single(src, i, one, line)
    }
}

/// The scanner's single step at position `i` (which must hold a character).
pub open spec fn scan_step(src: Seq<char>, i: int, line: u32) -> ScanStepV {
    let c = src[i];
    if c == ' ' || c == '\t' || c == '\r' {
        step_skip(i + 1, line)
    } else if c == '\n' {
        step_skip(i + 1, bump_line(line))
    } else if c == '/' {
        if i + 1 < src.len() && src[i + 1] == '*' {
            let b = block_comment_scan(src, i + 2, line);
            step_skip(b.end, b.line)
        } else if i + 1 < src.len() && src[i + 1] == '/' {
            let j = line_end(src, i + 2);
            if j < src.len() {
                step_skip(j + 1, bump_line(line))
            } else {
                step_skip(src.len() as int, line)
            }
        } else {
            step_single(src, i, TokenType::Slash, line)
        }
    } else if c == '(' {
        step_single(src, i, TokenType::LeftParen, line)
    } else if c == ')' {
        step_single(src, i, TokenType::RightParen, line)
    } else if c == '{' {
        step_single(src, i, TokenType::LeftBrace, line)
    } else if c == '}' {
        step_single(src, i, TokenType::RightBrace, line)
    } else if c == '.' {
        step_single(src, i, TokenType::Dot, line)
    } else if c == '-' {
        step_single(src, i, TokenType::Minus, line)
    } else if c == '+' {
        step_single(src, i, TokenType::Plus, line)
    } else if c == ';' {
        step_single(src, i, TokenType::Semicolon, line)
    } else if c == '*' {
        step_single(src, i, TokenType::Star, line)
    } else if c == '?' {
        step_single(src, i, TokenType::Question, line)
    } else if c == ':' {
        step_single(src, i, TokenType::Colon, line)
    } else if c == ',' {
        step_single(src, i, TokenType::Comma, line)
    } else if c == '!' {
        step_pair(src, i, TokenType::Bang, TokenType::BangEqual, line)
    } else if c == '=' {
        step_pair(src, i, TokenType::Equal, TokenType::EqualEqual, line)
    } else if c == '<' {
        step_pair(src, i, TokenType::Less, TokenType::LessEqual, line)
    } else if c == '>' {
        step_pair(src, i, TokenType::Greater, TokenType::GreaterEqual, line)
    } else if is_ident_start(c) {
        let end = ident_end(src, i);
        let word = src.subrange(i, end);
        let kind = keyword_kind(word);
        step_token(
            TokenV { token_type: kind, lexeme: word, literal: keyword_literal(kind), line },
            end,
            line,
        )
    } else if is_digit(c) {
        let de = digits_end(src, i);
        let end = if de < src.len() && src[de] == '.' && de + 1 < src.len() && is_digit(
            src[de + 1],
        ) {
            digits_end(src, de + 1)
        } else {
            de
        };
        let lexeme = src.subrange(i, end);
        step_token(
            TokenV {
                token_type: TokenType::Number,
                lexeme,
                literal: Option::Some(ValueV::Number(f64_parse(lexeme))),
                line,
            },
            end,
            line,
        )
    } else if c == '"' {
        let ss = string_scan(src, i + 1, line);
        if ss.ok {
            step_token(
                TokenV {
                    token_type: TokenType::String,
                    lexeme: src.subrange(i, ss.end),
                    literal: Option::Some(ValueV::Str(ss.content)),
                    line: ss.line,
                },
                ss.end,
                ss.line,
            )
        } else {
            ScanStepV {
                token: Option::None,
                diag: Option::Some(DiagV { line: ss.line, message: "Unterminated String"@ }),
                next: ss.end,
                line: ss.line,
            }
        }
    } else {
        ScanStepV {
            token: Option::None,
            diag: Option::Some(
                DiagV { line, message: "Unexpected Token: '"@ + seq![c] + "'"@ },
            ),
            next: i + 1,
            line,
        }
    }
}

/// Every step, taken on a real character, moves the cursor forward and not
/// past the end of the source.
pub proof fn lemma_scan_step_advances(src: Seq<char>, i: int, line: u32)
    requires
        0 <= i < src.len(),
    ensures
        i < scan_step(src, i, line).next <= src.len(),
{
    let c = src[i];
    if c == '/' && i + 1 < src.len() && src[i + 1] == '*' {
        lemma_block_comment_scan(src, i + 2, line);
    } else if c == '/' && i + 1 < src.len() && src[i + 1] == '/' {
        lemma_line_end(src, i + 2);
    } else if is_ident_start(c) {
        lemma_ident_end(src, i + 1);
        assert(ident_end(src, i) == ident_end(src, i + 1));
    } else if is_digit(c) {
        lemma_digits_end(src, i + 1);
        assert(digits_end(src, i) == digits_end(src, i + 1));
        let de = digits_end(src, i);
        if de < src.len() && src[de] == '.' && de + 1 < src.len() && is_digit(src[de + 1]) {
            lemma_digits_end(src, de + 1);
        }
    } else if c == '"' {
        lemma_string_scan(src, i + 1, line);
    }
}

// ---------------------------------------------------------------------------
// The whole scan
// ---------------------------------------------------------------------------
/// What scanning a whole source yields: its tokens, ending with an
/// end-of-input token, and its diagnostics.
pub struct ScanOutV {
    pub tokens: Seq<TokenV>,
    pub diags: Seq<DiagV>,
}

/// The end-of-input token.
pub open spec fn eof_token(line: u32) -> TokenV {
    TokenV { token_type: TokenType::Eof, lexeme: Seq::empty(), literal: Option::None, line }
}

/// The image of an optional token as a sequence of zero or one entries.
pub open spec fn token_opt_seq(t: Option<TokenV>) -> Seq<TokenV> {
    match t {
        Option::Some(x) => seq![x],
        Option::None => Seq::empty(),
    }
}

/// Scanning from position `i` with line counter `line` to the end of the
/// source.  (The cursor always moves strictly forward, by
/// `lemma_scan_step_advances`; the clamp below only serves termination.)
pub open spec fn scan_from(src: Seq<char>, i: int, line: u32) -> ScanOutV
    decreases src.len() - i,
{
    if i < 0 || i >= src.len() {
        ScanOutV { tokens: seq![eof_token(line)], diags: Seq::empty() }
    } else {
        let st = scan_step(src, i, line);
        let next = if i < st.next <= src.len() {
            st.next
        } else {
            i + 1
        };
        let rest = scan_from(src, next, st.line);
        ScanOutV {
            tokens: token_opt_seq(st.token) + rest.tokens,
            diags: diag_opt_seq(st.diag) + rest.diags,
        }
    }
}

/// Scanning a whole source from its start.
pub open spec fn scan_spec(src: Seq<char>) -> ScanOutV {
    scan_from(src, 0, 1)
}

/// The image of a vector of tokens.
pub open spec fn tokens_view(s: Seq<Token>) -> Seq<TokenV> {
    Seq::new(s.len(), |i: int| s[i]@)
}

/// The character under the cursor, or the null character past the end.
pub open spec fn peek_at(src: Seq<char>, i: int) -> char {
    if 0 <= i < src.len() {
        src[i]
    } else {
        '\0'
    }
}

// ---------------------------------------------------------------------------
// The executable scanner
// ---------------------------------------------------------------------------
/// Whether `ch` is an ASCII decimal digit.
pub fn is_ascii_num(ch: char) -> (r: bool)
    ensures
        r == is_digit(ch),
{
    ch >= '0' && ch <= '9'
}

/// The single-pass scanner: a forward cursor over the source characters,
/// the current line, and the diagnostics reported so far.
pub struct Scanner {
    pub source: Vec<char>,
    pub current: usize,
    pub line: u32,
    pub errors: Vec<Diagnostic>,
}

impl Scanner {
    /// A scanner over `source`; the cursor defaults to the start and the
    /// line counter to one.
    pub fn new(source: String, current: Option<u32>, line: Option<u32>) -> (s: Scanner)
        ensures
            s.source@ == source@,
            s.current == (match current {
                Option::Some(c) => c as usize,
                Option::None => 0usize,
            }),
            s.line == (match line {
                Option::Some(l) => l,
                Option::None => 1u32,
            }),
            s.errors@ == Seq::<Diagnostic>::empty(),
    {
        let chars = chars_of(source.as_str());
        let cur: u32 = match current {
            Option::Some(c) => c,
            Option::None => 0,
        };
        let ln: u32 = match line {
            Option::Some(l) => l,
            Option::None => 1,
        };
        Scanner { source: chars, current: cur as usize, line: ln, errors: Vec::new() }
    }

    /// Whether `ch` may continue an identifier.
    pub fn is_ascii_ident(ch: char) -> (r: bool)
        ensures
            r == is_ident_char(ch),
    {
        (ch >= 'a' && ch <= 'z') || (ch >= 'A' && ch <= 'Z') || (ch >= '0' && ch <= '9') || ch
            == '_'
    }

    /// Whether the cursor is past the last character.
    pub fn is_at_end(&self) -> (r: bool)
        ensures
            r == (self.current >= self.source@.len()),
    {
        self.current >= self.source.len()
    }

    /// The character under the cursor, without moving; the null character
    /// past the end.
    pub fn peek(&self) -> (c: char)
        ensures
            c == peek_at(self.source@, self.current as int),
    {
        if self.current < self.source.len() {
            self.source[self.current]
        } else {
            '\0'
        }
    }

    /// Moves past the character under the cursor and yields it; the null
    /// character past the end.
    pub fn advance(&mut self) -> (c: char)
        ensures
            final(self).source@ == old(self).source@,
            final(self).line == old(self).line,
            final(self).errors@ == old(self).errors@,
            old(self).current < final(self).source@.len() ==> final(self).current == old(self).current + 1 && c
                == final(self).source@[old(self).current as int],
            old(self).current >= final(self).source@.len() ==> final(self).current == old(self).current && c
                == '\0',
    {
        if self.current < self.source.len() {
            self.current = self.current + 1;
            self.source[self.current - 1]
        } else {
            '\0'
        }
    }

    /// Bumps the line counter, saturating.
    fn next_line(&mut self)
        ensures
            final(self).source@ == old(self).source@,
            final(self).current == old(self).current,
            final(self).errors@ == old(self).errors@,
            final(self).line == bump_line(old(self).line),
    {
        if self.line < 0xffff_ffff {
            self.line = self.line + 1;
        }
    }

    /// Consumes a `/* ... */` comment body up to and including the closing
    /// `*/`, or to the end of the source, counting embedded newlines.
    #[verifier::loop_isolation(false)]
    fn multi_line_comment(&mut self)
        requires
            old(self).current <= old(self).source@.len(),
        ensures
            final(self).source@ == old(self).source@,
            final(self).errors@ == old(self).errors@,
            final(self).current as int == block_comment_scan(
                old(self).source@,
                old(self).current as int,
                old(self).line,
            ).end,
            final(self).line == block_comment_scan(
                old(self).source@,
                old(self).current as int,
                old(self).line,
            ).line,
    {
        let ghost src = self.source@;
        let ghost i0 = old(self).current as int;
        let ghost l0 = old(self).line;
        while self.current < self.source.len()
            invariant
                self.source@ == src,
                self.errors@ == old(self).errors@,
                self.current <= src.len(),
                block_comment_scan(src, i0, l0) == block_comment_scan(
                    src,
                    self.current as int,
                    self.line,
                ),
            decreases src.len() - self.current,
        {
            let c = self.source[self.current];
            if c == '*' && self.current + 1 < self.source.len() && self.source[self.current + 1]
                == '/' {
                self.current = self.current + 2;
                return ;
            }
            if c == '\n' {
                self.next_line();
            }
            self.current = self.current + 1;
        }
    }

    /// Consumes a `//` comment to the end of the line (bumping the line
    /// counter past the newline) or to the end of the source.
    #[verifier::loop_isolation(false)]
    fn single_line_comment(&mut self)
        requires
            old(self).current <= old(self).source@.len(),
        ensures
            final(self).source@ == old(self).source@,
            final(self).errors@ == old(self).errors@,
            ({
                let j = line_end(old(self).source@, old(self).current as int);
                if j < old(self).source@.len() {
                    final(self).current as int == j + 1 && final(self).line == bump_line(old(self).line)
                } else {
                    final(self).current as int == old(self).source@.len() && final(self).line == old(self).line
                }
            }),
    {
        let ghost src = self.source@;
        let ghost i0 = old(self).current as int;
        while self.current < self.source.len() && self.source[self.current] != '\n'
            invariant
                self.source@ == src,
                self.errors@ == old(self).errors@,
                self.line == old(self).line,
                old(self).current <= self.current <= src.len(),
                line_end(src, i0) == line_end(src, self.current as int),
            decreases src.len() - self.current,
        {
            self.current = self.current + 1;
        }
        if self.current < self.source.len() {
            self.current = self.current + 1;
            self.next_line();
        }
    }

    /// Scans a string literal body; the opening quote is just behind the
    /// cursor.  Yields the string token, or nothing (and a diagnostic) if
    /// the closing quote never comes.
    #[verifier::loop_isolation(false)]
    fn strings(&mut self) -> (t: Option<Token>)
        requires
            1 <= old(self).current <= old(self).source@.len(),
            old(self).source@[old(self).current as int - 1] == '"',
        ensures
            final(self).source@ == old(self).source@,
            ({
                let src = old(self).source@;
                let i = old(self).current as int - 1;
                let ss = string_scan(src, i + 1, old(self).line);
                &&& final(self).current as int == ss.end
                &&& final(self).line == ss.line
                &&& if ss.ok {
                    &&& final(self).errors@ == old(self).errors@
                    &&& t matches Option::Some(tok) && tok@ == (TokenV {
                        token_type: TokenType::String,
                        lexeme: src.subrange(i, ss.end),
                        literal: Option::Some(ValueV::Str(ss.content)),
                        line: ss.line,
                    })
                } else {
                    &&& t is None
                    &&& diags_view(final(self).errors@) == diags_view(old(self).errors@) + seq![
                        DiagV { line: ss.line, message: "Unterminated String"@ },
                    ]
                }
            }),
    {
        let ghost src = self.source@;
        let ghost start = old(self).current as int - 1;
        let ghost l0 = old(self).line;
        let start_index: usize = self.current - 1;
        let mut content: Vec<char> = Vec::new();
        loop
            invariant
                self.source@ == src,
                self.errors@ == old(self).errors@,
                old(self).current <= self.current <= src.len(),
                ({
                    let whole = string_scan(src, start + 1, l0);
                    let cur = string_scan(src, self.current as int, self.line);
                    whole == (StrScanV {
                        content: content@ + cur.content,
                        end: cur.end,
                        line: cur.line,
                        ok: cur.ok,
                    })
                }),
            decreases src.len() - self.current,
        {
            if self.current >= self.source.len() {
                proof {
                    assert(string_scan(src, self.current as int, self.line).content
                        =~= Seq::<char>::empty());
                    assert(string_scan(src, start + 1, l0).content =~= content@);
                }
                let d = Diagnostic {
                    line: self.line,
                    message: String::from_str("Unterminated String"),
                };
                self.errors.push(d);
                proof {
                    assert(diags_view(self.errors@) =~= diags_view(old(self).errors@) + seq![
                        DiagV { line: self.line, message: "Unterminated String"@ },
                    ]);
                }
                return Option::None;
            }
            let c = self.source[self.current];
            if c == '"' {
                self.current = self.current + 1;
                proof {
                    assert(string_scan(src, start + 1, l0).content =~= content@);
                }
                break ;
            } else if c == '\\' && self.current + 1 < self.source.len() && (
            self.source[self.current + 1] == '"' || self.source[self.current + 1] == 'n') {
                let e = self.source[self.current + 1];
                let resolved: char = if e == 'n' {
                    '\n'
                } else {
                    e
                };
                content.push(resolved);
                self.current = self.current + 2;
                proof {
                    assert(string_scan(src, start + 1, l0).content =~= content@ + string_scan(
                        src,
                        self.current as int,
                        self.line,
                    ).content);
                }
            } else {
                if c == '\n' {
                    self.next_line();
                }
                content.push(c);
                self.current = self.current + 1;
                proof {
                    assert(string_scan(src, start + 1, l0).content =~= content@ + string_scan(
                        src,
                        self.current as int,
                        self.line,
                    ).content);
                }
            }
        }
        // The closing quote was found: build the token.
        let lex = self.copy_range(start_index, self.current);
        let lexeme = string_from_chars(&lex);
        let literal = Value::Str(string_from_chars(&content));
        Option::Some(Token::new(TokenType::String, lexeme, Option::Some(literal), self.line))
    }

    /// The characters of `self.source` from `from` to `to`.
    #[verifier::loop_isolation(false)]
    fn copy_range(&self, from: usize, to: usize) -> (r: Vec<char>)
        requires
            from <= to <= self.source@.len(),
        ensures
            r@ == self.source@.subrange(from as int, to as int),
    {
        let mut r: Vec<char> = Vec::new();
        let mut j: usize = from;
        while j < to
            invariant
                from <= j <= to <= self.source@.len(),
                r@ == self.source@.subrange(from as int, j as int),
            decreases to - j,
        {
            r.push(self.source[j]);
            j = j + 1;
            proof {
                assert(r@ =~= self.source@.subrange(from as int, j as int));
            }
        }
        r
    }

    /// Scans a word whose first character is just behind the cursor, and
    /// classifies it: case-insensitively a keyword, else an identifier.
    #[verifier::loop_isolation(false)]
    fn keywords(&mut self) -> (t: Option<Token>)
        requires
            1 <= old(self).current <= old(self).source@.len(),
            is_ident_char(old(self).source@[old(self).current as int - 1]),
        ensures
            final(self).source@ == old(self).source@,
            final(self).errors@ == old(self).errors@,
            final(self).line == old(self).line,
            ({
                let src = old(self).source@;
                let i = old(self).current as int - 1;
                let end = ident_end(src, i);
                let word = src.subrange(i, end);
                let kind = keyword_kind(word);
                &&& final(self).current as int == end
                &&& t matches Option::Some(tok) && tok@ == (TokenV {
                    token_type: kind,
                    lexeme: word,
                    literal: keyword_literal(kind),
                    line: old(self).line,
                })
            }),
    {
        let ghost src = self.source@;
        let start: usize = (self.current - 1) as usize;
        proof {
            lemma_ident_end(src, start as int);
        }
        while self.current < self.source.len() && Self::is_ascii_ident(
            self.source[self.current],
        )
            invariant
                self.source@ == src,
                self.errors@ == old(self).errors@,
                self.line == old(self).line,
                start < self.current <= src.len(),
                ident_end(src, start as int) == ident_end(src, self.current as int),
            decreases src.len() - self.current,
        {
            self.current = self.current + 1;
        }
        proof {
            assert(ident_end(src, self.current as int) == self.current as int);
        }
        let word = self.copy_range(start, self.current);
        // Lowercase the word for the keyword match.
        let mut low: Vec<char> = Vec::new();
        let mut j: usize = 0;
        while j < word.len()
            invariant
                j <= word@.len(),
                low@.len() == j,
                forall|k: int| 0 <= k < j ==> low@[k] == lower_char(word@[k]),
            decreases word@.len() - j,
        {
            let c = word[j];
            let l: char = match c {
                'A' => 'a',
                'B' => 'b',
                'C' => 'c',
                'D' => 'd',
                'E' => 'e',
                'F' => 'f',
                'G' => 'g',
                'H' => 'h',
                'I' => 'i',
                'J' => 'j',
                'K' => 'k',
                'L' => 'l',
                'M' => 'm',
                'N' => 'n',
                'O' => 'o',
                'P' => 'p',
                'Q' => 'q',
                'R' => 'r',
                'S' => 's',
                'T' => 't',
                'U' => 'u',
                'V' => 'v',
                'W' => 'w',
                'X' => 'x',
                'Y' => 'y',
                'Z' => 'z',
                _ => c,
            };
            low.push(l);
            j = j + 1;
        }
        proof {
            assert(low@ =~= lowered(word@));
        }
        let matching = string_from_chars(&low);
        let kind: TokenType = if matching.eq(&String::from_str("and")) {
            TokenType::And
        } else if matching.eq(&String::from_str("class")) {
            TokenType::Class
        } else if matching.eq(&String::from_str("else")) {
            TokenType::Else
        } else if matching.eq(&String::from_str("fun")) {
            TokenType::Fun
        } else if matching.eq(&String::from_str("for")) {
            TokenType::For
        } else if matching.eq(&String::from_str("if")) {
            TokenType::If
        } else if matching.eq(&String::from_str("or")) {
            TokenType::Or
        } else if matching.eq(&String::from_str("return")) {
            TokenType::Return
        } else if matching.eq(&String::from_str("super")) {
            TokenType::Super
        } else if matching.eq(&String::from_str("this")) {
            TokenType::This
        } else if matching.eq(&String::from_str("var")) {
            TokenType::Var
        } else if matching.eq(&String::from_str("while")) {
            TokenType::While
        } else if matching.eq(&String::from_str("nil")) {
            TokenType::Nil
        } else if matching.eq(&String::from_str("false")) {
            TokenType::False
        } else if matching.eq(&String::from_str("true")) {
            TokenType::True
        } else {
            TokenType::Identifier
        };
        let literal: Option<Value> = match kind {
            TokenType::Nil => Option::Some(Value::Nil),
            TokenType::True => Option::Some(Value::Boolean(true)),
            TokenType::False => Option::Some(Value::Boolean(false)),
            _ => Option::None,
        };
        Option::Some(Token::new(kind, string_from_chars(&word), literal, self.line))
    }

    /// Scans a number whose first digit is just behind the cursor: a digit
    /// run, optionally a dot followed by another digit run.
    #[verifier::loop_isolation(false)]
    fn numbers(&mut self) -> (t: Option<Token>)
        requires
            1 <= old(self).current <= old(self).source@.len(),
            is_digit(old(self).source@[old(self).current as int - 1]),
        ensures
            final(self).source@ == old(self).source@,
            final(self).errors@ == old(self).errors@,
            final(self).line == old(self).line,
            ({
                let src = old(self).source@;
                let i = old(self).current as int - 1;
                let de = digits_end(src, i);
                let end = if de < src.len() && src[de] == '.' && de + 1 < src.len() && is_digit(
                    src[de + 1],
                ) {
                    digits_end(src, de + 1)
                } else {
                    de
                };
                let lexeme = src.subrange(i, end);
                &&& final(self).current as int == end
                &&& t matches Option::Some(tok) && tok@ == (TokenV {
                    token_type: TokenType::Number,
                    lexeme,
                    literal: Option::Some(ValueV::Number(f64_parse(lexeme))),
                    line: old(self).line,
                })
            }),
    {
        let ghost src = self.source@;
        let start: usize = (self.current - 1) as usize;
        while self.current < self.source.len() && is_ascii_num(self.source[self.current])
            invariant
                self.source@ == src,
                self.errors@ == old(self).errors@,
                self.line == old(self).line,
                start < self.current <= src.len(),
                digits_end(src, start as int) == digits_end(src, self.current as int),
            decreases src.len() - self.current,
        {
            self.current = self.current + 1;
        }
        proof {
            assert(digits_end(src, self.current as int) == self.current as int);
        }
        let ghost de = digits_end(src, start as int);
        if self.current < self.source.len() && self.source[self.current] == '.' && self.current
            + 1 < self.source.len() && is_ascii_num(self.source[self.current + 1]) {
            self.current = self.current + 1;
            let ghost frac0 = self.current as int;
            while self.current < self.source.len() && is_ascii_num(self.source[self.current])
                invariant
                    self.source@ == src,
                    self.errors@ == old(self).errors@,
                    self.line == old(self).line,
                    frac0 <= self.current as int <= src.len(),
                    digits_end(src, frac0) == digits_end(src, self.current as int),
                decreases src.len() - self.current,
            {
                self.current = self.current + 1;
            }
            proof {
                assert(digits_end(src, self.current as int) == self.current as int);
            }
        }
        let lex = self.copy_range(start, self.current);
        let lexeme = string_from_chars(&lex);
        let bits = parse_bits(lexeme.as_str());
        Option::Some(
            Token::new(
                TokenType::Number,
                lexeme,
                Option::Some(Value::Number(bits)),
                self.line,
            ),
        )
    }

    /// A one-character token whose lexeme is exactly `c`.
    fn make_token1(kind: TokenType, c: char, line: u32) -> (t: Token)
        ensures
            t@ == (TokenV { token_type: kind, lexeme: seq![c], literal: Option::None, line }),
    {
        let mut v: Vec<char> = Vec::new();
        v.push(c);
        proof {
            assert(v@ =~= seq![c]);
        }
        Token::new(kind, string_from_chars(&v), Option::None, line)
    }

    /// A two-character token whose lexeme is exactly `c1` then `c2`.
    fn make_token2(kind: TokenType, c1: char, c2: char, line: u32) -> (t: Token)
        ensures
            t@ == (TokenV {
                token_type: kind,
                lexeme: seq![c1, c2],
                literal: Option::None,
                line,
            }),
    {
        let mut v: Vec<char> = Vec::new();
        v.push(c1);
        v.push(c2);
        proof {
            assert(v@ =~= seq![c1, c2]);
        }
        Token::new(kind, string_from_chars(&v), Option::None, line)
    }

    /// One step of the scanner: consumes at least one character and yields
    /// at most one token, exactly as `scan_step` says.
    fn scan_token(&mut self) -> (t: Option<Token>)
        requires
            old(self).current < old(self).source@.len(),
        ensures
            final(self).source@ == old(self).source@,
            ({
                let st = scan_step(old(self).source@, old(self).current as int, old(self).line);
                &&& final(self).current as int == st.next
                &&& old(self).current < final(self).current <= final(self).source@.len()
                &&& final(self).line == st.line
                &&& diags_view(final(self).errors@) == diags_view(old(self).errors@) + diag_opt_seq(
                    st.diag,
                )
                &&& (match (t, st.token) {
                    (Option::Some(tok), Option::Some(tv)) => tok@ == tv,
                    (Option::None, Option::None) => true,
                    _ => false,
                })
            }),
    {
        let ghost src = self.source@;
        let ghost i = self.current as int;
        let ghost l0 = self.line;
        proof {
            lemma_scan_step_advances(src, i, l0);
        }
        let c = self.advance();
        let r: Option<Token> = if c == ' ' || c == '\t' || c == '\r' {
            Option::None
        } else if c == '\n' {
            self.next_line();
            Option::None
        } else if c == '/' {
            if self.peek() == '*' {
                let _ = self.advance();
                self.multi_line_comment();
                Option::None
            } else if self.peek() == '/' {
                let _ = self.advance();
                self.single_line_comment();
                Option::None
            } else {
                Option::Some(Self::make_token1(TokenType::Slash, '/', self.line))
            }
        } else if c == '(' {
            Option::Some(Self::make_token1(TokenType::LeftParen, c, self.line))
        } else if c == ')' {
            Option::Some(Self::make_token1(TokenType::RightParen, c, self.line))
        } else if c == '{' {
            Option::Some(Self::make_token1(TokenType::LeftBrace, c, self.line))
        } else if c == '}' {
            Option::Some(Self::make_token1(TokenType::RightBrace, c, self.line))
        } else if c == '.' {
            Option::Some(Self::make_token1(TokenType::Dot, c, self.line))
        } else if c == '-' {
            Option::Some(Self::make_token1(TokenType::Minus, c, self.line))
        } else if c == '+' {
            Option::Some(Self::make_token1(TokenType::Plus, c, self.line))
        } else if c == ';' {
            Option::Some(Self::make_token1(TokenType::Semicolon, c, self.line))
        } else if c == '*' {
            Option::Some(Self::make_token1(TokenType::Star, c, self.line))
        } else if c == '?' {
            Option::Some(Self::make_token1(TokenType::Question, c, self.line))
        } else if c == ':' {
            Option::Some(Self::make_token1(TokenType::Colon, c, self.line))
        } else if c == ',' {
            Option::Some(Self::make_token1(TokenType::Comma, c, self.line))
        } else if c == '!' {
            if self.peek() == '=' {
                let _ = self.advance();
                Option::Some(Self::make_token2(TokenType::BangEqual, c, '=', self.line))
            } else {
                Option::Some(Self::make_token1(TokenType::Bang, c, self.line))
            }
        } else if c == '=' {
            if self.peek() == '=' {
                let _ = self.advance();
                Option::Some(Self::make_token2(TokenType::EqualEqual, c, '=', self.line))
            } else {
                Option::Some(Self::make_token1(TokenType::Equal, c, self.line))
            }
        } else if c == '<' {
            if self.peek() == '=' {
                let _ = self.advance();
                Option::Some(Self::make_token2(TokenType::LessEqual, c, '=', self.line))
            } else {
                Option::Some(Self::make_token1(TokenType::Less, c, self.line))
            }
        } else if c == '>' {
            if self.peek() == '=' {
                let _ = self.advance();
                Option::Some(Self::make_token2(TokenType::GreaterEqual, c, '=', self.line))
            } else {
                Option::Some(Self::make_token1(TokenType::Greater, c, self.line))
            }
        } else if (c >= 'a' && c <= 'z') || (c >= 'A' && c <= 'Z') || c == '_' {
            self.keywords()
        } else if is_ascii_num(c) {
            self.numbers()
        } else if c == '"' {
            self.strings()
        } else {
            let mut v: Vec<char> = Vec::new();
            v.push(c);
            let shown = string_from_chars(&v);
            let message = String::from_str("Unexpected Token: '").concat(shown.as_str()).concat(
                "'",
            );
            proof {
                assert(v@ =~= seq![c]);
            }
            let d = Diagnostic { line: self.line, message };
            self.errors.push(d);
            Option::None
        };
        proof {
            let st = scan_step(src, i, l0);
            assert(diags_view(self.errors@) =~= diags_view(old(self).errors@) + diag_opt_seq(
                st.diag,
            ));
            match (&r, st.token) {
                (Option::Some(tok), Option::Some(tv)) => {
                    assert(tok@.lexeme =~= tv.lexeme);
                },
                _ => {},
            }
        }
        r
    }

    /// Scans the whole remaining source: every token it holds, in order,
    /// terminated by an end-of-input token, with every lexical error
    /// reported and scanning continuing past it.
    #[verifier::loop_isolation(false)]
    pub fn scan_tokens(&mut self) -> (tokens: Vec<Token>)
        ensures
            final(self).source@ == old(self).source@,
            ({
                let so = scan_from(old(self).source@, old(self).current as int, old(self).line);
                &&& tokens_view(tokens@) == so.tokens
                &&& diags_view(final(self).errors@) == diags_view(old(self).errors@) + so.diags
            }),
    {
        let ghost src = self.source@;
        let ghost i0 = old(self).current as int;
        let ghost l0 = old(self).line;
        let mut tokens: Vec<Token> = Vec::new();
        while !self.is_at_end()
            invariant
                self.source@ == src,
                self.current <= src.len() || tokens@.len() >= 0,
                scan_from(src, i0, l0).tokens == tokens_view(tokens@) + scan_from(
                    src,
                    self.current as int,
                    self.line,
                ).tokens,
                diags_view(old(self).errors@) + scan_from(src, i0, l0).diags == diags_view(
                    self.errors@,
                ) + scan_from(src, self.current as int, self.line).diags,
            decreases src.len() - self.current,
        {
            let ghost cur_before = self.current as int;
            let ghost line_before = self.line;
            let t = self.scan_token();
            proof {
                let st = scan_step(src, cur_before, line_before);
                assert(scan_from(src, cur_before, line_before).tokens == token_opt_seq(st.token)
                    + scan_from(src, st.next, st.line).tokens);
            }
            if let Option::Some(tok) = t {
                tokens.push(tok);
                proof {
                    let st = scan_step(src, cur_before, line_before);
                    assert(tokens_view(tokens@) =~= tokens_view(tokens@.drop_last())
                        + token_opt_seq(st.token));
                    assert(tokens_view(tokens@.drop_last()) + token_opt_seq(st.token) + scan_from(
                        src,
                        self.current as int,
                        self.line,
                    ).tokens =~= tokens_view(tokens@.drop_last()) + (token_opt_seq(st.token)
                        + scan_from(src, self.current as int, self.line).tokens));
                }
            } else {
                proof {
                    let st = scan_step(src, cur_before, line_before);
                    assert(tokens_view(tokens@) + token_opt_seq(st.token) + scan_from(
                        src,
                        self.current as int,
                        self.line,
                    ).tokens =~= tokens_view(tokens@) + (token_opt_seq(st.token) + scan_from(
                        src,
                        self.current as int,
                        self.line,
                    ).tokens));
                }
            }
            proof {
                let st = scan_step(src, cur_before, line_before);
                assert(diag_opt_seq(st.diag) + scan_from(src, self.current as int, self.line).diags
                    =~= scan_from(src, cur_before, line_before).diags);
                assert(diags_view(self.errors@) + scan_from(
                    src,
                    self.current as int,
                    self.line,
                ).diags =~= diags_view(old(self).errors@) + scan_from(src, i0, l0).diags);
            }
        }
        let eof = Token::new(TokenType::Eof, String::from_str(""), Option::None, self.line);
        tokens.push(eof);
        proof {
            reveal_strlit("");
            assert(scan_from(src, self.current as int, self.line).tokens =~= seq![
                eof_token(self.line),
            ]);
            assert(""@ =~= Seq::<char>::empty());
            assert(tokens_view(tokens@) =~= tokens_view(tokens@.drop_last()) + seq![
                eof_token(self.line),
            ]);
            assert(diags_view(self.errors@) =~= diags_view(old(self).errors@) + scan_from(
                src,
                i0,
                l0,
            ).diags);
        }
        tokens
    }
}

} // verus!
