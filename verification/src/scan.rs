//! The token grammar, stated over mathematical sequences of characters.
//!
//! [`scan`] says, for any input text and cursor position, which token starts
//! there: its kind, its literal, and the position just past it. The executable
//! scanner in [`crate::lexer`] is proved to follow this grammar exactly.

use vstd::prelude::*;

use crate::token::TokenType;

verus! {

/// A letter for the scanner: ASCII alphabetic or underscore. This predicate
/// defines what an identifier may start with and continue with; digits are
/// not letters, so they cannot appear inside an identifier.
pub open spec fn is_letter(c: char) -> bool {
    ('a' <= c && c <= 'z') || ('A' <= c && c <= 'Z') || c == '_'
}

/// An ASCII decimal digit.
pub open spec fn is_digit(c: char) -> bool {
    '0' <= c && c <= '9'
}

/// The whitespace the scanner skips silently: space, newline, tab.
pub open spec fn is_whitespace(c: char) -> bool {
    c == ' ' || c == '\n' || c == '\t'
}

/// The single-character symbols that map directly to a fixed token kind.
/// `=` and `!` are not here: they need one character of lookahead.
pub open spec fn is_symbol(c: char) -> bool {
    ||| c == '+'
    ||| c == '-'
    ||| c == '*'
    ||| c == '/'
    ||| c == '<'
    ||| c == '>'
    ||| c == '('
    ||| c == ')'
    ||| c == '{'
    ||| c == '}'
    ||| c == ','
    ||| c == ';'
}

/// The fixed token kind of each single-character symbol.
pub open spec fn symbol_kind(c: char) -> TokenType
    recommends
        is_symbol(c),
{
    if c == '+' {
        TokenType::Plus
    } else if c == '-' {
        TokenType::Minus
    } else if c == '*' {
        TokenType::Asterisk
    } else if c == '/' {
        TokenType::Slash
    } else if c == '<' {
        TokenType::Lt
    } else if c == '>' {
        TokenType::Gt
    } else if c == '(' {
        TokenType::LParen
    } else if c == ')' {
        TokenType::RParen
    } else if c == '{' {
        TokenType::LBrace
    } else if c == '}' {
        TokenType::RBrace
    } else if c == ',' {
        TokenType::Comma
    } else {
        TokenType::SemiColon
    }
}

/// Whether a run of letters is one of the seven fixed keywords.
pub open spec fn is_keyword(s: Seq<char>) -> bool {
    ||| s == "let"@
    ||| s == "fn"@
    ||| s == "true"@
    ||| s == "false"@
    ||| s == "if"@
    ||| s == "else"@
    ||| s == "return"@
}

/// The kind of a scanned run of letters: a keyword gets its dedicated kind,
/// case-sensitively; every other run is an identifier.
pub open spec fn keyword_kind(s: Seq<char>) -> TokenType {
    if s == "let"@ {
        TokenType::Let
    } else if s == "fn"@ {
        TokenType::Function
    } else if s == "true"@ {
        TokenType::True
    } else if s == "false"@ {
        TokenType::False
    } else if s == "if"@ {
        TokenType::If
    } else if s == "else"@ {
        TokenType::Else
    } else if s == "return"@ {
        TokenType::Return
    } else {
        TokenType::Ident
    }
}

/// The character of `s` at `index`, or `None` when `index` is out of range.
pub open spec fn char_at(s: Seq<char>, index: int) -> Option<char> {
    if 0 <= index < s.len() {
        Some(s[index])
    } else {
        None
    }
}

/// The first position at or after `pos` that does not hold whitespace
/// (the input's length if whitespace runs to the end).
pub open spec fn skip_ws(s: Seq<char>, pos: int) -> int
    decreases s.len() - pos,
{
    if pos < 0 || pos >= s.len() {
        pos
    } else if is_whitespace(s[pos]) {
        skip_ws(s, pos + 1)
    } else {
        pos
    }
}

/// The end of the maximal run of letters starting at `pos`: the first
/// position at or after `pos` that does not hold a letter.
pub open spec fn letter_run_end(s: Seq<char>, pos: int) -> int
    decreases s.len() - pos,
{
    if pos < 0 || pos >= s.len() {
        pos
    } else if is_letter(s[pos]) {
        letter_run_end(s, pos + 1)
    } else {
        pos
    }
}

/// The end of the maximal run of digits starting at `pos`.
pub open spec fn digit_run_end(s: Seq<char>, pos: int) -> int
    decreases s.len() - pos,
{
    if pos < 0 || pos >= s.len() {
        pos
    } else if is_digit(s[pos]) {
        digit_run_end(s, pos + 1)
    } else {
        pos
    }
}

/// One step of the grammar: the token that starts at `pos`, with the
/// position just past it.
pub struct ScanStep {
    /// The token's lexical category.
    pub kind: TokenType,
    /// The exact characters of the input that the token stands for.
    pub literal: Seq<char>,
    /// The cursor position just past the token.
    pub end: int,
}

/// The token that a scanner positioned at `pos` must produce, by the
/// priority-ordered rules of the grammar: skip whitespace, then try the
/// two-character operators, the single-character symbols, a letter run
/// (keyword or identifier), a digit run, and finally mark the character
/// illegal; past the end of the input the token is end-of-input with an
/// empty literal, and the cursor does not move.
pub open spec fn scan(s: Seq<char>, pos: int) -> ScanStep
    recommends
        0 <= pos <= s.len(),
{
    let p = skip_ws(s, pos);
    if p >= s.len() {
        ScanStep { kind: TokenType::Eof, literal: Seq::<char>::empty(), end: p }
    } else {
        let c = s[p];
        if c == '=' {
            if p + 1 < s.len() && s[p + 1] == '=' {
                ScanStep { kind: TokenType::Eq, literal: seq!['=', '='], end: p + 2 }
            } else {
                ScanStep { kind: TokenType::Assign, literal: seq!['='], end: p + 1 }
            }
        } else if c == '!' {
            if p + 1 < s.len() && s[p + 1] == '=' {
                ScanStep { kind: TokenType::NotEq, literal: seq!['!', '='], end: p + 2 }
            } else {
                ScanStep { kind: TokenType::Bang, literal: seq!['!'], end: p + 1 }
            }
        } else if is_symbol(c) {
            ScanStep { kind: symbol_kind(c), literal: seq![c], end: p + 1 }
        } else if is_letter(c) {
            let e = letter_run_end(s, p);
            ScanStep { kind: keyword_kind(s.subrange(p, e)), literal: s.subrange(p, e), end: e }
        } else if is_digit(c) {
            let e = digit_run_end(s, p);
            ScanStep { kind: TokenType::Int, literal: s.subrange(p, e), end: e }
        } else {
            ScanStep { kind: TokenType::Illegal, literal: seq![c], end: p + 1 }
        }
    }
}

/// Skipping whitespace stays inside the input, lands on a non-whitespace
/// character unless it reaches the end, and passes over whitespace only.
pub proof fn lemma_skip_ws(s: Seq<char>, pos: int)
    requires
        0 <= pos <= s.len(),
    ensures
        pos <= skip_ws(s, pos) <= s.len(),
        skip_ws(s, pos) < s.len() ==> !is_whitespace(s[skip_ws(s, pos)]),
        forall|i: int| pos <= i < skip_ws(s, pos) ==> is_whitespace(s[i]),
    decreases s.len() - pos,
{
    if pos < s.len() && is_whitespace(s[pos]) {
        lemma_skip_ws(s, pos + 1);
    }
}

/// The maximal letter run stays inside the input, ends at the input's end or
/// on a non-letter, and holds letters only.
pub proof fn lemma_letter_run_end(s: Seq<char>, pos: int)
    requires
        0 <= pos <= s.len(),
    ensures
        pos <= letter_run_end(s, pos) <= s.len(),
        letter_run_end(s, pos) < s.len() ==> !is_letter(s[letter_run_end(s, pos)]),
        forall|i: int| pos <= i < letter_run_end(s, pos) ==> is_letter(s[i]),
    decreases s.len() - pos,
{
    if pos < s.len() && is_letter(s[pos]) {
        lemma_letter_run_end(s, pos + 1);
    }
}

/// The maximal digit run stays inside the input, ends at the input's end or
/// on a non-digit, and holds digits only.
pub proof fn lemma_digit_run_end(s: Seq<char>, pos: int)
    requires
        0 <= pos <= s.len(),
    ensures
        pos <= digit_run_end(s, pos) <= s.len(),
        digit_run_end(s, pos) < s.len() ==> !is_digit(s[digit_run_end(s, pos)]),
        forall|i: int| pos <= i < digit_run_end(s, pos) ==> is_digit(s[i]),
    decreases s.len() - pos,
{
    if pos < s.len() && is_digit(s[pos]) {
        lemma_digit_run_end(s, pos + 1);
    }
}

} // verus!
