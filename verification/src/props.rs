//! Properties of the token grammar, proved once for every input.
//!
//! Together with the contract of [`crate::lexer::Lexer::next_token`], which
//! pins each returned token to [`scan`], these laws carry over to the
//! executable scanner.

use vstd::prelude::*;

use crate::scan::{digit_run_end, is_digit, is_keyword, is_letter, is_symbol, is_whitespace,
    keyword_kind, lemma_digit_run_end, lemma_letter_run_end, lemma_skip_ws, letter_run_end, scan,
    skip_ws, symbol_kind};
use crate::token::TokenType;

verus! {

/// An input consisting of one single-character symbol scans to that symbol's
/// fixed kind with the one-character literal, and the next scan, from the
/// position past it, yields end-of-input with an empty literal.
pub proof fn lemma_symbol_then_end(c: char)
    requires
        is_symbol(c),
    ensures
        scan(seq![c], 0).kind == symbol_kind(c),
        scan(seq![c], 0).literal == seq![c],
        scan(seq![c], 0).end == 1,
        scan(seq![c], 1).kind == TokenType::Eof,
        scan(seq![c], 1).literal == Seq::<char>::empty(),
        scan(seq![c], 1).end == 1,
{
}

/// An `=` at the cursor scans as `Eq` with literal `==` exactly when another
/// `=` follows it, and as `Assign` with literal `=` otherwise.
pub proof fn lemma_assign_vs_eq(s: Seq<char>, pos: int)
    requires
        0 <= pos < s.len(),
        s[pos] == '=',
    ensures
        (pos + 1 < s.len() && s[pos + 1] == '=') ==> scan(s, pos).kind == TokenType::Eq
            && scan(s, pos).literal == seq!['=', '='] && scan(s, pos).end == pos + 2,
        !(pos + 1 < s.len() && s[pos + 1] == '=') ==> scan(s, pos).kind == TokenType::Assign
            && scan(s, pos).literal == seq!['='] && scan(s, pos).end == pos + 1,
{
}

/// A `!` at the cursor scans as `NotEq` with literal `!=` exactly when an
/// `=` follows it, and as `Bang` with literal `!` otherwise.
pub proof fn lemma_bang_vs_not_eq(s: Seq<char>, pos: int)
    requires
        0 <= pos < s.len(),
        s[pos] == '!',
    ensures
        (pos + 1 < s.len() && s[pos + 1] == '=') ==> scan(s, pos).kind == TokenType::NotEq
            && scan(s, pos).literal == seq!['!', '='] && scan(s, pos).end == pos + 2,
        !(pos + 1 < s.len() && s[pos + 1] == '=') ==> scan(s, pos).kind == TokenType::Bang
            && scan(s, pos).literal == seq!['!'] && scan(s, pos).end == pos + 1,
{
}

/// The maximal run of letters starting at `pos` is exactly `[pos, end)`.
proof fn lemma_letter_run_end_agrees(s: Seq<char>, pos: int, end: int)
    requires
        0 <= pos <= end <= s.len(),
        forall|i: int| pos <= i < end ==> is_letter(s[i]),
        end == s.len() || !is_letter(s[end]),
    ensures
        letter_run_end(s, pos) == end,
    decreases end - pos,
{
    if pos < end {
        lemma_letter_run_end_agrees(s, pos + 1, end);
    }
}

/// The maximal run of digits starting at `pos` is exactly `[pos, end)`.
proof fn lemma_digit_run_end_agrees(s: Seq<char>, pos: int, end: int)
    requires
        0 <= pos <= end <= s.len(),
        forall|i: int| pos <= i < end ==> is_digit(s[i]),
        end == s.len() || !is_digit(s[end]),
    ensures
        digit_run_end(s, pos) == end,
    decreases end - pos,
{
    if pos < end {
        lemma_digit_run_end_agrees(s, pos + 1, end);
    }
}

/// A maximal run of letters starting at the cursor scans as one token whose
/// literal is the full run and whose end is the run's end: a keyword run
/// yields its dedicated kind, any other run yields `Ident`.
pub proof fn lemma_letter_run_token(s: Seq<char>, pos: int, end: int)
    requires
        0 <= pos < end <= s.len(),
        forall|i: int| pos <= i < end ==> is_letter(s[i]),
        end == s.len() || !is_letter(s[end]),
    ensures
        scan(s, pos).kind == keyword_kind(s.subrange(pos, end)),
        scan(s, pos).literal == s.subrange(pos, end),
        scan(s, pos).end == end,
        !is_keyword(s.subrange(pos, end)) ==> scan(s, pos).kind == TokenType::Ident,
{
    lemma_letter_run_end_agrees(s, pos, end);
}

/// Each of the seven fixed keywords yields its dedicated kind,
/// case-sensitively.
pub proof fn lemma_keyword_kinds()
    ensures
        keyword_kind("let"@) == TokenType::Let,
        keyword_kind("fn"@) == TokenType::Function,
        keyword_kind("true"@) == TokenType::True,
        keyword_kind("false"@) == TokenType::False,
        keyword_kind("if"@) == TokenType::If,
        keyword_kind("else"@) == TokenType::Else,
        keyword_kind("return"@) == TokenType::Return,
{
    reveal_strlit("let");
    reveal_strlit("fn");
    reveal_strlit("true");
    reveal_strlit("false");
    reveal_strlit("if");
    reveal_strlit("else");
    reveal_strlit("return");
    // the keywords are pairwise distinct: by length, except for the two
    // same-length pairs, which differ in their first character
    assert("let"@.len() == 3);
    assert("fn"@.len() == 2);
    assert("true"@.len() == 4);
    assert("false"@.len() == 5);
    assert("if"@.len() == 2);
    assert("else"@.len() == 4);
    assert("return"@.len() == 6);
    assert("fn"@[0] == 'f' && "if"@[0] == 'i');
    assert("true"@[0] == 't' && "else"@[0] == 'e');
}

/// A maximal run of digits starting at the cursor scans as one `Int` token
/// whose literal is the full run; the scan stops exactly at the first
/// non-digit, never crossing a digit/non-digit boundary into the next token.
pub proof fn lemma_digit_run_token(s: Seq<char>, pos: int, end: int)
    requires
        0 <= pos < end <= s.len(),
        forall|i: int| pos <= i < end ==> is_digit(s[i]),
        end == s.len() || !is_digit(s[end]),
    ensures
        scan(s, pos).kind == TokenType::Int,
        scan(s, pos).literal == s.subrange(pos, end),
        scan(s, pos).end == end,
{
    lemma_digit_run_end_agrees(s, pos, end);
}

/// Whitespace between tokens never forms a token of its own: scanning from a
/// whitespace character yields exactly the token found past it.
pub proof fn lemma_whitespace_skipped(s: Seq<char>, pos: int)
    requires
        0 <= pos < s.len(),
        is_whitespace(s[pos]),
    ensures
        scan(s, pos) == scan(s, pos + 1),
{
}

/// No token's literal ever contains whitespace.
pub proof fn lemma_no_whitespace_in_literal(s: Seq<char>, pos: int)
    requires
        0 <= pos <= s.len(),
    ensures
        forall|i: int|
            0 <= i < scan(s, pos).literal.len() ==> !is_whitespace(scan(s, pos).literal[i]),
{
    lemma_skip_ws(s, pos);
    let p = skip_ws(s, pos);
    let lit = scan(s, pos).literal;
    if p < s.len() {
        let c = s[p];
        if c == '=' || c == '!' || is_symbol(c) {
            assert forall|i: int| 0 <= i < lit.len() implies !is_whitespace(lit[i]) by {
                assert(lit[i] == '=' || lit[i] == '!' || lit[i] == c);
            }
        } else if is_letter(c) {
            lemma_letter_run_end(s, p);
            assert forall|i: int| 0 <= i < lit.len() implies !is_whitespace(lit[i]) by {
                assert(lit[i] == s[p + i]);
                assert(is_letter(s[p + i]));
            }
        } else if is_digit(c) {
            lemma_digit_run_end(s, p);
            assert forall|i: int| 0 <= i < lit.len() implies !is_whitespace(lit[i]) by {
                assert(lit[i] == s[p + i]);
                assert(is_digit(s[p + i]));
            }
        } else {
            assert forall|i: int| 0 <= i < lit.len() implies !is_whitespace(lit[i]) by {
                assert(lit[i] == c);
            }
        }
    }
}

} // verus!

