use rlox::tokenize::{Token, TokenType, Tokenizer};

/// Scans `input` with a fresh tokenizer and returns all tokens.
fn scan(input: &str) -> Vec<Token> {
    let source = String::from(input);
    let mut tokenizer = Tokenizer::new(&source);
    tokenizer.scan_tokens()
}

#[test]
fn single_character_tokens_and_operators() {
    let input = String::from("=+(){}<=.<!>!=-==*");
    let mut tokenizer = Tokenizer::new(&input);
    let tokens = tokenizer.scan_tokens();

    assert_eq!(
        tokens[0],
        Token::new(TokenType::Equal, String::from("="), 1, 1)
    );
    assert_eq!(
        tokens[1],
        Token::new(TokenType::Plus, String::from("+"), 1, 2)
    );
    assert_eq!(
        tokens[2],
        Token::new(TokenType::LeftParen, String::from("("), 1, 3)
    );
    assert_eq!(
        tokens[3],
        Token::new(TokenType::RightParen, String::from(")"), 1, 4)
    );
    assert_eq!(
        tokens[4],
        Token::new(TokenType::LeftBrace, String::from("{"), 1, 5)
    );
    assert_eq!(
        tokens[5],
        Token::new(TokenType::RightBrace, String::from("}"), 1, 6)
    );
    assert_eq!(
        tokens[6],
        Token::new(TokenType::LessEqual, String::from("<="), 1, 8)
    );
    assert_eq!(
        tokens[7],
        Token::new(TokenType::Dot, String::from("."), 1, 9)
    );
    assert_eq!(
        tokens[8],
        Token::new(TokenType::Less, String::from("<"), 1, 10)
    );
    assert_eq!(
        tokens[9],
        Token::new(TokenType::Bang, String::from("!"), 1, 11)
    );
    assert_eq!(
        tokens[10],
        Token::new(TokenType::Greater, String::from(">"), 1, 12)
    );
    assert_eq!(
        tokens[11],
        Token::new(TokenType::BangEqual, String::from("!="), 1, 14)
    );
    assert_eq!(
        tokens[12],
        Token::new(TokenType::Minus, String::from("-"), 1, 15)
    );
    assert_eq!(
        tokens[13],
        Token::new(TokenType::EqualEqual, String::from("=="), 1, 17)
    );
    assert_eq!(
        tokens[14],
        Token::new(TokenType::Star, String::from("*"), 1, 18)
    );
    assert_eq!(
        tokens[15],
        Token::new(TokenType::EOF, String::from(""), 1, 18)
    );
}

#[test]
fn skip_whitespace() {
    let input = String::from("  \t\t+    ");
    let mut tokenizer = Tokenizer::new(&input);
    let tokens = tokenizer.scan_tokens();

    assert_eq!(
        tokens[0],
        Token::new(TokenType::Plus, String::from("+"), 1, 5)
    );
    assert_eq!(tokens[1], Token::new(TokenType::EOF, String::from(""), 1, 9));
}

#[test]
fn empty_input_yields_only_eof() {
    let tokens = scan("");
    assert_eq!(tokens.len(), 1);
    assert_eq!(tokens[0], Token::new(TokenType::EOF, String::from(""), 1, 0));
}

#[test]
fn whitespace_and_newlines_only() {
    // One token in all: the end-of-input token, whose line is 1 plus the
    // number of newline characters.
    let tokens = scan(" \n\t\n ");
    assert_eq!(tokens.len(), 1);
    assert_eq!(tokens[0], Token::new(TokenType::EOF, String::from(""), 3, 1));

    let tokens = scan("\n\n\n");
    assert_eq!(tokens.len(), 1);
    assert_eq!(tokens[0], Token::new(TokenType::EOF, String::from(""), 4, 0));
}

#[test]
fn each_punctuation_character_alone() {
    let cases = [
        ("(", TokenType::LeftParen),
        (")", TokenType::RightParen),
        ("{", TokenType::LeftBrace),
        ("}", TokenType::RightBrace),
        (".", TokenType::Dot),
        (",", TokenType::Comma),
        (";", TokenType::Semicolon),
        ("+", TokenType::Plus),
        ("-", TokenType::Minus),
        ("*", TokenType::Star),
    ];
    for (text, kind) in cases {
        let tokens = scan(text);
        assert_eq!(tokens.len(), 2);
        assert_eq!(tokens[0], Token::new(kind, String::from(text), 1, 1));
        assert_eq!(tokens[1], Token::new(TokenType::EOF, String::from(""), 1, 1));
    }
}

#[test]
fn maximal_munch_prefers_two_character_operators() {
    // "==" is one EqualEqual token, never two Equal tokens.
    let tokens = scan("==");
    assert_eq!(tokens.len(), 2);
    assert_eq!(
        tokens[0],
        Token::new(TokenType::EqualEqual, String::from("=="), 1, 2)
    );
    assert_eq!(tokens[1], Token::new(TokenType::EOF, String::from(""), 1, 2));

    // "=" followed by a character other than "=" is one Equal token, and
    // the following character starts a new token of its own.
    let tokens = scan("=<");
    assert_eq!(tokens.len(), 3);
    assert_eq!(
        tokens[0],
        Token::new(TokenType::Equal, String::from("="), 1, 1)
    );
    assert_eq!(
        tokens[1],
        Token::new(TokenType::Less, String::from("<"), 1, 2)
    );
    assert_eq!(tokens[2], Token::new(TokenType::EOF, String::from(""), 1, 2));

    // "=" at the end of input: the lookahead finds nothing to consume.
    let tokens = scan("=");
    assert_eq!(tokens.len(), 2);
    assert_eq!(
        tokens[0],
        Token::new(TokenType::Equal, String::from("="), 1, 1)
    );
    assert_eq!(tokens[1], Token::new(TokenType::EOF, String::from(""), 1, 1));
}

#[test]
fn column_tracking_resets_per_line() {
    // "a" and "b" are outside the grammar: each becomes an Illegal token,
    // and the column restarts after the newline.
    let tokens = scan("a\nb");
    assert_eq!(tokens.len(), 3);
    assert_eq!(
        tokens[0],
        Token::new(TokenType::Illegal, String::from("a"), 1, 1)
    );
    assert_eq!(
        tokens[1],
        Token::new(TokenType::Illegal, String::from("b"), 2, 1)
    );
    assert_eq!(tokens[2], Token::new(TokenType::EOF, String::from(""), 2, 1));
}

#[test]
fn unrecognized_character_yields_illegal_token() {
    // No scanning rule produces Slash yet, so even "/" is reported as
    // Illegal data rather than stopping the scan.
    let tokens = scan("/#");
    assert_eq!(tokens.len(), 3);
    assert_eq!(
        tokens[0],
        Token::new(TokenType::Illegal, String::from("/"), 1, 1)
    );
    assert_eq!(
        tokens[1],
        Token::new(TokenType::Illegal, String::from("#"), 1, 2)
    );
    assert_eq!(tokens[2], Token::new(TokenType::EOF, String::from(""), 1, 2));
}

#[test]
fn scanning_twice_is_deterministic() {
    let input = String::from("={ \n\t!=x<=*");
    let mut first_tokenizer = Tokenizer::new(&input);
    let first = first_tokenizer.scan_tokens();
    let mut second_tokenizer = Tokenizer::new(&input);
    let second = second_tokenizer.scan_tokens();
    assert_eq!(first, second);
}

#[test]
fn multi_line_positions() {
    let tokens = scan("(\n  )\n");
    assert_eq!(tokens.len(), 3);
    assert_eq!(
        tokens[0],
        Token::new(TokenType::LeftParen, String::from("("), 1, 1)
    );
    assert_eq!(
        tokens[1],
        Token::new(TokenType::RightParen, String::from(")"), 2, 3)
    );
    assert_eq!(tokens[2], Token::new(TokenType::EOF, String::from(""), 3, 0));
}
