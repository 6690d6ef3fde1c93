use monkey_rust::lexer::Lexer;
use monkey_rust::token::TokenType;

fn tokens_of(input: &str) -> Vec<(TokenType, String)> {
    let text = input.to_string();
    let mut lexer = Lexer::new(&text);
    let mut out: Vec<(TokenType, String)> = Vec::new();
    loop {
        let token = lexer.next_token();
        let done = token.token_type == TokenType::Eof;
        out.push((token.token_type, token.literal));
        if done {
            return out;
        }
    }
}

#[test]
fn test_single_character_symbols() {
    let cases = vec![
        ("+", TokenType::Plus),
        ("-", TokenType::Minus),
        ("*", TokenType::Asterisk),
        ("/", TokenType::Slash),
        ("<", TokenType::Lt),
        (">", TokenType::Gt),
        ("(", TokenType::LParen),
        (")", TokenType::RParen),
        ("{", TokenType::LBrace),
        ("}", TokenType::RBrace),
        (",", TokenType::Comma),
        (";", TokenType::SemiColon),
    ];
    for (input, token_type) in cases {
        let tokens = tokens_of(input);
        assert_eq!(tokens.len(), 2);
        assert_eq!(tokens[0], (token_type, input.to_string()));
        assert_eq!(tokens[1], (TokenType::Eof, String::new()));
    }
}

#[test]
fn test_assign_vs_eq_and_bang_vs_not_eq() {
    assert_eq!(
        tokens_of("="),
        vec![
            (TokenType::Assign, "=".to_string()),
            (TokenType::Eof, String::new()),
        ]
    );
    assert_eq!(
        tokens_of("=="),
        vec![
            (TokenType::Eq, "==".to_string()),
            (TokenType::Eof, String::new()),
        ]
    );
    assert_eq!(
        tokens_of("=5"),
        vec![
            (TokenType::Assign, "=".to_string()),
            (TokenType::Int, "5".to_string()),
            (TokenType::Eof, String::new()),
        ]
    );
    assert_eq!(
        tokens_of("!"),
        vec![
            (TokenType::Bang, "!".to_string()),
            (TokenType::Eof, String::new()),
        ]
    );
    assert_eq!(
        tokens_of("!="),
        vec![
            (TokenType::NotEq, "!=".to_string()),
            (TokenType::Eof, String::new()),
        ]
    );
    assert_eq!(
        tokens_of("!5"),
        vec![
            (TokenType::Bang, "!".to_string()),
            (TokenType::Int, "5".to_string()),
            (TokenType::Eof, String::new()),
        ]
    );
    // three '=' in a row: the two-character form binds first
    assert_eq!(
        tokens_of("==="),
        vec![
            (TokenType::Eq, "==".to_string()),
            (TokenType::Assign, "=".to_string()),
            (TokenType::Eof, String::new()),
        ]
    );
}

#[test]
fn test_keywords_each_yield_their_kind() {
    let cases = vec![
        ("let", TokenType::Let),
        ("fn", TokenType::Function),
        ("true", TokenType::True),
        ("false", TokenType::False),
        ("if", TokenType::If),
        ("else", TokenType::Else),
        ("return", TokenType::Return),
    ];
    for (input, token_type) in cases {
        let tokens = tokens_of(input);
        assert_eq!(tokens.len(), 2);
        assert_eq!(tokens[0], (token_type, input.to_string()));
    }
}

#[test]
fn test_identifier_is_full_letter_run() {
    // maximal runs of letters and underscores that are not keywords
    assert_eq!(tokens_of("foo")[0], (TokenType::Ident, "foo".to_string()));
    assert_eq!(
        tokens_of("_foo_bar")[0],
        (TokenType::Ident, "_foo_bar".to_string())
    );
    // keyword matching is case-sensitive and exact
    assert_eq!(tokens_of("Let")[0], (TokenType::Ident, "Let".to_string()));
    assert_eq!(tokens_of("letx")[0], (TokenType::Ident, "letx".to_string()));
    // the run stops at the first non-letter; digits cannot continue it
    assert_eq!(
        tokens_of("abc9"),
        vec![
            (TokenType::Ident, "abc".to_string()),
            (TokenType::Int, "9".to_string()),
            (TokenType::Eof, String::new()),
        ]
    );
}

#[test]
fn test_integer_is_full_digit_run() {
    assert_eq!(tokens_of("007")[0], (TokenType::Int, "007".to_string()));
    assert_eq!(tokens_of("12345")[0], (TokenType::Int, "12345".to_string()));
    // the run never crosses a digit/non-digit boundary
    assert_eq!(
        tokens_of("10x"),
        vec![
            (TokenType::Int, "10".to_string()),
            (TokenType::Ident, "x".to_string()),
            (TokenType::Eof, String::new()),
        ]
    );
    assert_eq!(
        tokens_of("1+2"),
        vec![
            (TokenType::Int, "1".to_string()),
            (TokenType::Plus, "+".to_string()),
            (TokenType::Int, "2".to_string()),
            (TokenType::Eof, String::new()),
        ]
    );
}

#[test]
fn test_whitespace_is_silent() {
    // space, tab and newline are skipped and never form or enter a token
    assert_eq!(
        tokens_of(" \t\n 5 \t\n "),
        vec![
            (TokenType::Int, "5".to_string()),
            (TokenType::Eof, String::new()),
        ]
    );
    for (_, literal) in tokens_of("let x \t = \n 10 ;") {
        assert!(!literal.contains(' '));
        assert!(!literal.contains('\t'));
        assert!(!literal.contains('\n'));
    }
}

#[test]
fn test_empty_input_yields_end_of_input() {
    let tokens = tokens_of("");
    assert_eq!(tokens, vec![(TokenType::Eof, String::new())]);
}

#[test]
fn test_end_of_input_is_idempotent() {
    let input = String::from(";");
    let mut lexer = Lexer::new(&input);
    assert_eq!(lexer.next_token().token_type, TokenType::SemiColon);
    for _ in 0..5 {
        let token = lexer.next_token();
        assert_eq!(token.token_type, TokenType::Eof);
        assert_eq!(token.literal, "");
    }
}

#[test]
fn test_illegal_characters() {
    assert_eq!(tokens_of("@")[0], (TokenType::Illegal, "@".to_string()));
    assert_eq!(tokens_of("#")[0], (TokenType::Illegal, "#".to_string()));
    // a non-ASCII character is outside the recognized alphabet too
    assert_eq!(
        tokens_of("é5"),
        vec![
            (TokenType::Illegal, "é".to_string()),
            (TokenType::Int, "5".to_string()),
            (TokenType::Eof, String::new()),
        ]
    );
}
