//! The executable scanner: a cursor over a borrowed input text that yields
//! one token per [`Lexer::next_token`] call, proved against the grammar in
//! [`crate::scan`].

use vstd::prelude::*;
use vstd::string::StrSliceExecFns;

use crate::scan::{char_at, digit_run_end, is_digit, is_letter, is_whitespace, keyword_kind,
    letter_run_end, scan, skip_ws};
use crate::token::{Token, TokenType};

verus! {

/// A pull-based scanner over a borrowed input text. It never copies or
/// mutates the input; the only mutation is its own cursor advance.
///
/// `position` is the index of the character just consumed, `read_position`
/// the index of the next character to consume, and `ch` the character at
/// `position`, or `None` at end of input.
pub struct Lexer<'a> {
    pub input: &'a String,
    pub position: usize,
    pub read_position: usize,
    pub ch: Option<char>,
}

impl<'a> Lexer<'a> {
    /// The scanner's invariant: the cursor is inside the input (or just past
    /// it), `ch` mirrors the character under the cursor, and the lookahead
    /// index is one ahead of the cursor until the end of the input, where it
    /// stays put.
    pub open spec fn wf(self) -> bool {
        &&& self.position <= self.input@.len()
        &&& self.ch == char_at(self.input@, self.position as int)
        &&& self.read_position as int == if self.position < self.input@.len() {
            self.position as int + 1
        } else {
            self.position as int
        }
    }

    /// Builds a scanner over `input` and primes `ch` with the first
    /// character, or `None` if the input is empty.
    pub fn new(input: &'a String) -> (lexer: Lexer<'a>)
        ensures
            lexer.wf(),
            lexer.input == input,
            lexer.position == 0,
    {
        let mut lexer = Lexer { input, position: 0, read_position: 0, ch: None };
        lexer.read_char();
        lexer
    }

    /// The character of `input` at `index`, or `None` past the end.
    fn char_at(input: &String, index: usize) -> (r: Option<char>)
        ensures
            r == char_at(input@, index as int),
    {
        if index >= input.as_str().unicode_len() {
            None
        } else {
            Some(input.as_str().get_char(index))
        }
    }

    /// The one primitive that moves the cursor: copies the character at
    /// `read_position` into `ch` (or `None` past the end), moves `position`
    /// there, and pushes `read_position` one further. At the end of the input
    /// the lookahead index stays put, so repeated advances after end of input
    /// leave the scanner unchanged and cannot overflow.
    pub fn read_char(&mut self)
        ensures
            final(self).input == old(self).input,
            final(self).ch == char_at(old(self).input@, old(self).read_position as int),
            final(self).position == old(self).read_position,
            final(self).read_position as int == if old(self).read_position < old(
                self,
            ).input@.len() {
                old(self).read_position as int + 1
            } else {
                old(self).read_position as int
            },
            old(self).read_position <= old(self).input@.len() ==> final(self).wf(),
    {
        self.ch = Lexer::char_at(self.input, self.read_position);
        self.position = self.read_position;
        if self.read_position < self.input.as_str().unicode_len() {
            self.read_position = self.read_position + 1;
        }
    }

    /// Returns the token that starts at the cursor and moves the cursor just
    /// past it, exactly as the grammar's [`scan`] prescribes: the token's
    /// kind, its literal text, and the new cursor position are all pinned
    /// down. At end of input it keeps returning the end-of-input token with
    /// an empty literal, and never panics.
    pub fn next_token(&mut self) -> (token: Token)
        requires
            old(self).wf(),
        ensures
            final(self).wf(),
            final(self).input == old(self).input,
            token.token_type == scan(old(self).input@, old(self).position as int).kind,
            token.literal@ == scan(old(self).input@, old(self).position as int).literal,
            final(self).position as int == scan(old(self).input@, old(self).position as int).end,
    {
        self.skip_whitespace();
        let ghost s = self.input@;
        let ghost p = self.position as int;
        let ghost step = scan(old(self).input@, old(self).position as int);
        let token: Token = match self.ch {
            Some('=') => {
                // could be either Assign or Eq depending on the next character
                match self.peek_char() {
                    Some('=') => {
                        // the two-character form is confirmed: accept the second character
                        self.read_char();
                        proof {
                            reveal_strlit("==");
                            assert("=="@ =~= step.literal);
                        }
                        Token { literal: "==".to_owned(), token_type: TokenType::Eq }
                    },
                    _ => {
                        proof {
                            reveal_strlit("=");
                            assert("="@ =~= step.literal);
                        }
                        Token { literal: "=".to_owned(), token_type: TokenType::Assign }
                    },
                }
            },
            Some('!') => {
                // could be either Bang or NotEq depending on the next character
                match self.peek_char() {
                    Some('=') => {
                        // the two-character form is confirmed: accept the second character
                        self.read_char();
                        proof {
                            reveal_strlit("!=");
                            assert("!="@ =~= step.literal);
                        }
                        Token { literal: "!=".to_owned(), token_type: TokenType::NotEq }
                    },
                    _ => {
                        proof {
                            reveal_strlit("!");
                            assert("!"@ =~= step.literal);
                        }
                        Token { literal: "!".to_owned(), token_type: TokenType::Bang }
                    },
                }
            },
            Some('+') => {
                proof {
                    reveal_strlit("+");
                    assert("+"@ =~= step.literal);
                }
                Token { literal: "+".to_owned(), token_type: TokenType::Plus }
            },
            Some('-') => {
                proof {
                    reveal_strlit("-");
                    assert("-"@ =~= step.literal);
                }
                Token { literal: "-".to_owned(), token_type: TokenType::Minus }
            },
            Some('*') => {
                proof {
                    reveal_strlit("*");
                    assert("*"@ =~= step.literal);
                }
                Token { literal: "*".to_owned(), token_type: TokenType::Asterisk }
            },
            Some('/') => {
                proof {
                    reveal_strlit("/");
                    assert("/"@ =~= step.literal);
                }
                Token { literal: "/".to_owned(), token_type: TokenType::Slash }
            },
            Some('<') => {
                proof {
                    reveal_strlit("<");
                    assert("<"@ =~= step.literal);
                }
                Token { literal: "<".to_owned(), token_type: TokenType::Lt }
            },
            Some('>') => {
                proof {
                    reveal_strlit(">");
                    assert(">"@ =~= step.literal);
                }
                Token { literal: ">".to_owned(), token_type: TokenType::Gt }
            },
            Some('(') => {
                proof {
                    reveal_strlit("(");
                    assert("("@ =~= step.literal);
                }
                Token { literal: "(".to_owned(), token_type: TokenType::LParen }
            },
            Some(')') => {
                proof {
                    reveal_strlit(")");
                    assert(")"@ =~= step.literal);
                }
                Token { literal: ")".to_owned(), token_type: TokenType::RParen }
            },
            Some('{') => {
                proof {
                    reveal_strlit("{");
                    assert("{"@ =~= step.literal);
                }
                Token { literal: "{".to_owned(), token_type: TokenType::LBrace }
            },
            Some('}') => {
                proof {
                    reveal_strlit("}");
                    assert("}"@ =~= step.literal);
                }
                Token { literal: "}".to_owned(), token_type: TokenType::RBrace }
            },
            Some(',') => {
                proof {
                    reveal_strlit(",");
                    assert(","@ =~= step.literal);
                }
                Token { literal: ",".to_owned(), token_type: TokenType::Comma }
            },
            Some(';') => {
                proof {
                    reveal_strlit(";");
                    assert(";"@ =~= step.literal);
                }
                Token { literal: ";".to_owned(), token_type: TokenType::SemiColon }
            },
            Some(c) => {
                if Lexer::is_letter(c) {
                    let literal = self.read_identifier();
                    let token_type = Lexer::lookup_keyword(&literal);
                    // the maximal-run scan has already left the cursor on the
                    // first non-letter character: return without the generic
                    // trailing advance, which would skip a character
                    return Token { literal, token_type };
                } else if Lexer::is_digit(c) {
                    let literal = self.read_number();
                    // like identifiers, the run scan has already advanced
                    return Token { literal, token_type: TokenType::Int };
                } else {
                    let run = self.input.as_str().substring_char(
                        self.position,
                        self.read_position,
                    );
                    proof {
                        assert(s.subrange(p, p + 1) =~= step.literal);
                    }
                    Token { literal: run.to_owned(), token_type: TokenType::Illegal }
                }
            },
            None => Token { literal: String::new(), token_type: TokenType::Eof },
        };
        self.read_char();
        token
    }

    /// The character at `read_position`, without moving the cursor; used only
    /// to disambiguate the two-character operators.
    fn peek_char(&self) -> (r: Option<char>)
        ensures
            r == char_at(self.input@, self.read_position as int),
    {
        Lexer::char_at(self.input, self.read_position)
    }

    /// Whether `c` may start or continue an identifier: this function
    /// effectively defines what a valid identifier is.
    fn is_letter(c: char) -> (r: bool)
        ensures
            r == is_letter(c),
    {
        ('a' <= c && c <= 'z') || ('A' <= c && c <= 'Z') || '_' == c
    }

    /// Whether `c` is an ASCII decimal digit.
    fn is_digit(c: char) -> (r: bool)
        ensures
            r == is_digit(c),
    {
        '0' <= c && c <= '9'
    }

    /// Whether the scanner skips `c` silently between tokens.
    fn is_whitespace(c: char) -> (r: bool)
        ensures
            r == is_whitespace(c),
    {
        c == ' ' || c == '\n' || c == '\t'
    }

    /// Moves the cursor to the first non-whitespace character at or after it
    /// (or to the end of the input). Skipped characters produce no token.
    fn skip_whitespace(&mut self)
        requires
            old(self).wf(),
        ensures
            final(self).wf(),
            final(self).input == old(self).input,
            final(self).position as int == skip_ws(old(self).input@, old(self).position as int),
    {
        let ghost inp = self.input;
        let ghost p0 = self.position as int;
        loop
            invariant
                self.wf(),
                self.input == inp,
                skip_ws(inp@, self.position as int) == skip_ws(inp@, p0),
            ensures
                self.wf(),
                self.input == inp,
                self.position as int == skip_ws(inp@, p0),
            decreases inp@.len() - self.position,
        {
            match self.ch {
                Some(c) => {
                    if Lexer::is_whitespace(c) {
                        self.read_char();
                    } else {
                        break;
                    }
                },
                None => {
                    break;
                },
            }
        }
    }

    /// Consumes the maximal run of letters starting at the cursor and returns
    /// it; the cursor ends on the first non-letter character (or at the end
    /// of the input), so the caller must not advance again.
    fn read_identifier(&mut self) -> (literal: String)
        requires
            old(self).wf(),
        ensures
            final(self).wf(),
            final(self).input == old(self).input,
            final(self).position as int == letter_run_end(
                old(self).input@,
                old(self).position as int,
            ),
            literal@ == old(self).input@.subrange(
                old(self).position as int,
                letter_run_end(old(self).input@, old(self).position as int),
            ),
    {
        let start = self.position;
        let ghost inp = self.input;
        let ghost p0 = self.position as int;
        loop
            invariant
                self.wf(),
                self.input == inp,
                p0 <= self.position as int,
                letter_run_end(inp@, self.position as int) == letter_run_end(inp@, p0),
            ensures
                self.wf(),
                self.input == inp,
                p0 <= self.position as int,
                self.position as int == letter_run_end(inp@, p0),
            decreases inp@.len() - self.position,
        {
            match self.ch {
                Some(c) => {
                    if Lexer::is_letter(c) {
                        self.read_char();
                    } else {
                        break;
                    }
                },
                None => {
                    break;
                },
            }
        }
        let run = self.input.as_str().substring_char(start, self.position);
        run.to_owned()
    }

    /// Consumes the maximal run of digits starting at the cursor and returns
    /// it; like `read_identifier`, it leaves the cursor on the first
    /// character past the run.
    fn read_number(&mut self) -> (literal: String)
        requires
            old(self).wf(),
        ensures
            final(self).wf(),
            final(self).input == old(self).input,
            final(self).position as int == digit_run_end(
                old(self).input@,
                old(self).position as int,
            ),
            literal@ == old(self).input@.subrange(
                old(self).position as int,
                digit_run_end(old(self).input@, old(self).position as int),
            ),
    {
        let start = self.position;
        let ghost inp = self.input;
        let ghost p0 = self.position as int;
        loop
            invariant
                self.wf(),
                self.input == inp,
                p0 <= self.position as int,
                digit_run_end(inp@, self.position as int) == digit_run_end(inp@, p0),
            ensures
                self.wf(),
                self.input == inp,
                p0 <= self.position as int,
                self.position as int == digit_run_end(inp@, p0),
            decreases inp@.len() - self.position,
        {
            match self.ch {
                Some(c) => {
                    if Lexer::is_digit(c) {
                        self.read_char();
                    } else {
                        break;
                    }
                },
                None => {
                    break;
                },
            }
        }
        let run = self.input.as_str().substring_char(start, self.position);
        run.to_owned()
    }

    /// Character-by-character string equality.
    fn str_eq(a: &str, b: &str) -> (r: bool)
        ensures
            r == (a@ == b@),
    {
        let a_len = a.unicode_len();
        let b_len = b.unicode_len();
        if a_len != b_len {
            return false;
        }
        let mut i: usize = 0;
        while i < a_len
            invariant
                i <= a_len,
                a_len == a@.len(),
                b_len == b@.len(),
                a_len == b_len,
                forall|j: int| 0 <= j < i ==> a@[j] == b@[j],
            decreases a_len - i,
        {
            if a.get_char(i) != b.get_char(i) {
                return false;
            }
            i = i + 1;
        }
        proof {
            assert(a@ =~= b@);
        }
        true
    }

    /// The kind of a scanned run of letters: one of the seven keywords gets
    /// its dedicated kind, any other run is an identifier.
    fn lookup_keyword(literal: &String) -> (t: TokenType)
        ensures
            t == keyword_kind(literal@),
    {
        if Lexer::str_eq(literal.as_str(), "let") {
            TokenType::Let
        } else if Lexer::str_eq(literal.as_str(), "fn") {
            TokenType::Function
        } else if Lexer::str_eq(literal.as_str(), "true") {
            TokenType::True
        } else if Lexer::str_eq(literal.as_str(), "false") {
            TokenType::False
        } else if Lexer::str_eq(literal.as_str(), "if") {
            TokenType::If
        } else if Lexer::str_eq(literal.as_str(), "else") {
            TokenType::Else
        } else if Lexer::str_eq(literal.as_str(), "return") {
            TokenType::Return
        } else {
            TokenType::Ident
        }
    }
}

} // verus!
