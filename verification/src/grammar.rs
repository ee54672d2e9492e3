//! The lexical grammar, as functions of a source text and a cursor index.
//!
//! A source is a sequence of code points and a cursor is an index into it,
//! from `0` to the length of the source. The token under a cursor is given by
//! four functions: where it starts, what kind it is, where it ends, and which
//! text it carries.

use crate::lexer::TokenType;
use vstd::prelude::*;

verus! {

/// The characters an identifier is made of: ASCII letters and the underscore.
pub open spec fn is_letter(c: char) -> bool {
    ('a' <= c && c <= 'z') || ('A' <= c && c <= 'Z') || c == '_'
}

/// The ASCII decimal digits.
pub open spec fn is_digit(c: char) -> bool {
    '0' <= c && c <= '9'
}

/// The characters that separate tokens: space, tab, line feed, carriage return.
pub open spec fn is_whitespace(c: char) -> bool {
    c == ' ' || c == '\t' || c == '\n' || c == '\r'
}

/// The character under the cursor `i`, or NUL where `i` is outside the source.
pub open spec fn char_at(source: Seq<char>, i: int) -> char {
    if 0 <= i < source.len() {
        source[i]
    } else {
        '\0'
    }
}

/// The first index from `i` on that holds no whitespace; the length of the
/// source where only whitespace is left.
pub open spec fn skip_whitespace(source: Seq<char>, i: int) -> int
    decreases source.len() - i,
{
    if 0 <= i < source.len() && is_whitespace(source[i]) {
        skip_whitespace(source, i + 1)
    } else {
        i
    }
}

/// The first index from `i` on that holds no letter; the length of the source
/// where only letters are left.
pub open spec fn identifier_end(source: Seq<char>, i: int) -> int
    decreases source.len() - i,
{
    if 0 <= i < source.len() && is_letter(source[i]) {
        identifier_end(source, i + 1)
    } else {
        i
    }
}

/// The kind of a character that is a token by itself, whatever follows it;
/// `ILLEGAL` for every character that is none.
pub open spec fn punctuation_kind(c: char) -> TokenType {
    match c {
        ',' => TokenType::COMMA,
        ';' => TokenType::SEMICOLON,
        '(' => TokenType::LPAREN,
        ')' => TokenType::RPAREN,
        '{' => TokenType::LBRACE,
        '}' => TokenType::RBRACE,
        '+' => TokenType::PLUS,
        '-' => TokenType::MINUS,
        '*' => TokenType::ASTERISK,
        '/' => TokenType::SLASH,
        '<' => TokenType::LT,
        '>' => TokenType::GT,
        _ => TokenType::ILLEGAL,
    }
}

/// The kind of a word: that of the keyword it spells, `IDENT` for any other.
pub open spec fn keyword_kind(word: Seq<char>) -> TokenType {
    if word == "fn"@ {
        TokenType::FUNCTION
    } else if word == "let"@ {
        TokenType::LET
    } else if word == "if"@ {
        TokenType::IF
    } else if word == "else"@ {
        TokenType::ELSE
    } else if word == "return"@ {
        TokenType::RETURN
    } else if word == "true"@ {
        TokenType::TRUE
    } else if word == "false"@ {
        TokenType::FALSE
    } else {
        TokenType::IDENT
    }
}

/// Where the token under the cursor `i` starts: behind the whitespace.
pub open spec fn token_start(source: Seq<char>, i: int) -> int {
    skip_whitespace(source, i)
}

/// The kind of the token under the cursor `i`.
pub open spec fn token_kind(source: Seq<char>, i: int) -> TokenType {
    let start = token_start(source, i);
    let c = char_at(source, start);
    if c == '=' {
        if char_at(source, start + 1) == '=' {
            TokenType::EQ
        } else {
            TokenType::ASSIGN
        }
    } else if c == '!' {
        if char_at(source, start + 1) == '=' {
            TokenType::NOTEQ
        } else {
            TokenType::NOT
        }
    } else if c == '\0' {
        TokenType::EOF
    } else if is_letter(c) {
        keyword_kind(source.subrange(start, identifier_end(source, start)))
    } else if is_digit(c) {
        TokenType::INT
    } else {
        punctuation_kind(c)
    }
}

/// Where the cursor stands once the token under the cursor `i` is taken: one
/// past its last character, and never past the end of the source.
pub open spec fn token_end(source: Seq<char>, i: int) -> int {
    let start = token_start(source, i);
    let c = char_at(source, start);
    if start >= source.len() {
        start
    } else if (c == '=' || c == '!') && char_at(source, start + 1) == '=' {
        start + 2
    } else if is_letter(c) {
        identifier_end(source, start)
    } else {
        start + 1
    }
}

/// The text of the token under the cursor `i`: the stretch of the source it
/// was taken from, and nothing for the end of input.
pub open spec fn token_literal(source: Seq<char>, i: int) -> Seq<char> {
    if token_kind(source, i) == TokenType::EOF {
        Seq::empty()
    } else {
        source.subrange(token_start(source, i), token_end(source, i))
    }
}

/// The cursor after `n` tokens have been taken from the cursor `i` on.
pub open spec fn cursor_after(source: Seq<char>, i: int, n: nat) -> int
    decreases n,
{
    if n == 0 {
        i
    } else {
        cursor_after(source, token_end(source, i), (n - 1) as nat)
    }
}

} // verus!
