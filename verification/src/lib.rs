//! A lexer for a small programming language: it turns raw source text into a
//! flat stream of classified tokens, one `next_token` call at a time.
//!
//! The token grammar itself is stated as spec functions in [`scan`], the
//! executable scanner lives in [`lexer`], and the token data model in
//! [`token`]. Every `next_token` call is proved to return exactly the token
//! that the grammar assigns to the current cursor position.

pub mod lexer;
pub mod props;
pub mod scan;
pub mod token;
