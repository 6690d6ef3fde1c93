//! The token data model: a closed set of lexical categories and the token
//! value itself, a category paired with the exact source text that produced it.

use vstd::prelude::*;

verus! {

/// The closed set of lexical categories the scanner can assign.
#[derive(Debug, PartialEq, Eq, Structural, Clone, Copy)]
pub enum TokenType {
    // Special
    Illegal,
    Eof,
    // Operators
    Assign,
    Plus,
    Minus,
    Asterisk,
    Slash,
    Bang,
    Lt,
    Gt,
    Eq,
    NotEq,
    // Delimiters
    LParen,
    RParen,
    LBrace,
    RBrace,
    Comma,
    SemiColon,
    // Keywords
    Let,
    Function,
    True,
    False,
    If,
    Else,
    Return,
    // Identifiers and literals
    Ident,
    Int,
}

/// One classified unit of source text: its category and the exact substring
/// that produced it. The literal is empty only for the end-of-input token.
#[derive(Debug)]
pub struct Token {
    pub literal: String,
    pub token_type: TokenType,
}

} // verus!
