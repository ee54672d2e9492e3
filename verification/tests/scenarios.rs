use monkey_lexer::lexer::{Lexer, Token, TokenType};

/// The tokens of `input`, up to and including the first `EOF`.
fn tokens(input: &str) -> Vec<(TokenType, String)> {
    let mut lexer = Lexer::new(input);
    let mut found = Vec::new();
    loop {
        let Token { token_type, literal } = lexer.next_token();
        let done = token_type == TokenType::EOF;
        found.push((token_type, literal));
        if done {
            return found;
        }
        assert!(found.len() <= input.chars().count(), "more tokens than characters");
    }
}

fn expect(input: &str, expected: &[(TokenType, &str)]) {
    let expected: Vec<(TokenType, String)> =
        expected.iter().map(|(kind, text)| (*kind, text.to_string())).collect();
    assert_eq!(tokens(input), expected, "input {:?}", input);
}

#[test]
fn let_statement() {
    expect(
        "let five = 5;",
        &[
            (TokenType::LET, "let"),
            (TokenType::IDENT, "five"),
            (TokenType::ASSIGN, "="),
            (TokenType::INT, "5"),
            (TokenType::SEMICOLON, ";"),
            (TokenType::EOF, ""),
        ],
    );
}

#[test]
fn comparison_of_single_digits() {
    expect(
        "10 != 9",
        &[
            (TokenType::INT, "1"),
            (TokenType::INT, "0"),
            (TokenType::NOTEQ, "!="),
            (TokenType::INT, "9"),
            (TokenType::EOF, ""),
        ],
    );
}

#[test]
fn lone_illegal_character() {
    expect("@", &[(TokenType::ILLEGAL, "@"), (TokenType::EOF, "")]);
}

#[test]
fn function_definition() {
    expect(
        "let add = fn(x, y) {\n\tx + y;\r\n};",
        &[
            (TokenType::LET, "let"),
            (TokenType::IDENT, "add"),
            (TokenType::ASSIGN, "="),
            (TokenType::FUNCTION, "fn"),
            (TokenType::LPAREN, "("),
            (TokenType::IDENT, "x"),
            (TokenType::COMMA, ","),
            (TokenType::IDENT, "y"),
            (TokenType::RPAREN, ")"),
            (TokenType::LBRACE, "{"),
            (TokenType::IDENT, "x"),
            (TokenType::PLUS, "+"),
            (TokenType::IDENT, "y"),
            (TokenType::SEMICOLON, ";"),
            (TokenType::RBRACE, "}"),
            (TokenType::SEMICOLON, ";"),
            (TokenType::EOF, ""),
        ],
    );
}

#[test]
fn conditional_with_every_keyword() {
    expect(
        "if (a < b) { return true; } else { return !false; }",
        &[
            (TokenType::IF, "if"),
            (TokenType::LPAREN, "("),
            (TokenType::IDENT, "a"),
            (TokenType::LT, "<"),
            (TokenType::IDENT, "b"),
            (TokenType::RPAREN, ")"),
            (TokenType::LBRACE, "{"),
            (TokenType::RETURN, "return"),
            (TokenType::TRUE, "true"),
            (TokenType::SEMICOLON, ";"),
            (TokenType::RBRACE, "}"),
            (TokenType::ELSE, "else"),
            (TokenType::LBRACE, "{"),
            (TokenType::RETURN, "return"),
            (TokenType::NOT, "!"),
            (TokenType::FALSE, "false"),
            (TokenType::SEMICOLON, ";"),
            (TokenType::RBRACE, "}"),
            (TokenType::EOF, ""),
        ],
    );
}

#[test]
fn operators_without_spaces() {
    expect(
        "a=b==c!=d>e/f*g-1",
        &[
            (TokenType::IDENT, "a"),
            (TokenType::ASSIGN, "="),
            (TokenType::IDENT, "b"),
            (TokenType::EQ, "=="),
            (TokenType::IDENT, "c"),
            (TokenType::NOTEQ, "!="),
            (TokenType::IDENT, "d"),
            (TokenType::GT, ">"),
            (TokenType::IDENT, "e"),
            (TokenType::SLASH, "/"),
            (TokenType::IDENT, "f"),
            (TokenType::ASTERISK, "*"),
            (TokenType::IDENT, "g"),
            (TokenType::MINUS, "-"),
            (TokenType::INT, "1"),
            (TokenType::EOF, ""),
        ],
    );
}

#[test]
fn digits_and_letters_alternate() {
    expect(
        "x1y22_z",
        &[
            (TokenType::IDENT, "x"),
            (TokenType::INT, "1"),
            (TokenType::IDENT, "y"),
            (TokenType::INT, "2"),
            (TokenType::INT, "2"),
            (TokenType::IDENT, "_z"),
            (TokenType::EOF, ""),
        ],
    );
}

#[test]
fn whitespace_yields_no_token() {
    expect(
        " \t\r\n let \t\r\n x \t\r\n ",
        &[(TokenType::LET, "let"), (TokenType::IDENT, "x"), (TokenType::EOF, "")],
    );
}

#[test]
fn texts_of_the_tokens_are_the_source_without_whitespace() {
    let input = "let result = add(five, ten) != 1 == !true; @ π";
    let joined: String = tokens(input).into_iter().map(|(_, text)| text).collect();
    let stripped: String = input.chars().filter(|c| !matches!(c, ' ' | '\t' | '\n' | '\r')).collect();
    assert_eq!(joined, stripped);
}

#[test]
fn long_source_is_scanned_to_its_end() {
    let mut input = String::new();
    for _ in 0..2000 {
        input.push_str("let x = 1;\n");
    }
    let found = tokens(&input);
    assert_eq!(found.len(), 2000 * 5 + 1);
    assert_eq!(found[5], (TokenType::LET, "let".to_string()));
    assert_eq!(found[found.len() - 2], (TokenType::SEMICOLON, ";".to_string()));
    assert_eq!(found[found.len() - 1], (TokenType::EOF, String::new()));
}
