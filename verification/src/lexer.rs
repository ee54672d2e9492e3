//! Tokens, and the lexer that scans a source text into them.

use crate::grammar::{
    char_at, identifier_end, is_letter, is_whitespace, keyword_kind, skip_whitespace, token_end,
    token_kind, token_literal,
};
use vstd::prelude::*;
use vstd::string::*;
use crate::laws::skip_whitespace_bounds;
use vstd::utf8::encode_utf8_decode_utf8;

verus! {

/// The kinds of token.
#[derive(Debug, PartialEq, Eq, Clone, Copy, Structural)]
pub enum TokenType {
    /// A character that starts no token.
    ILLEGAL,
    /// The end of the input.
    EOF,
    /// A name that is no keyword.
    IDENT,
    /// A decimal digit.
    INT,
    /// `=`
    ASSIGN,
    /// `==`
    EQ,
    /// `!`
    NOT,
    /// `!=`
    NOTEQ,
    /// `+`
    PLUS,
    /// `-`
    MINUS,
    /// `>`
    GT,
    /// `<`
    LT,
    /// `,`
    COMMA,
    /// `;`
    SEMICOLON,
    /// `*`
    ASTERISK,
    /// `/`
    SLASH,
    /// `(`
    LPAREN,
    /// `)`
    RPAREN,
    /// `{`
    LBRACE,
    /// `}`
    RBRACE,
    /// `fn`
    FUNCTION,
    /// `let`
    LET,
    /// `if`
    IF,
    /// `else`
    ELSE,
    /// `true`
    TRUE,
    /// `false`
    FALSE,
    /// `return`
    RETURN,
}

/// A token: its kind, and the text it was scanned from.
#[derive(Debug)]
pub struct Token {
    /// What the token is.
    pub token_type: TokenType,
    /// The characters of the source that make up the token.
    pub literal: String,
}

impl PartialEq for Token {
    fn eq(&self, other: &Self) -> (equal: bool) {
        self.token_type == other.token_type && self.literal == other.literal
    }
}

impl vstd::std_specs::cmp::PartialEqSpecImpl for Token {
    open spec fn obeys_eq_spec() -> bool {
        true
    }

    /// Two tokens are equal when they have the same kind and the same text.
    open spec fn eq_spec(&self, other: &Self) -> bool {
        self.token_type == other.token_type && self.literal@ == other.literal@
    }
}

/// Whether two strings hold the same text.
fn same_text(a: &str, b: &str) -> (same: bool)
    ensures
        same == (a@ == b@),
{
    let x = a.as_bytes();
    let y = b.as_bytes();
    if x.len() != y.len() {
        return false;
    }
    let mut i: usize = 0;
    while i < x.len()
        invariant
            x@.len() == y@.len(),
            i <= x@.len(),
            x@ == a.spec_bytes(),
            y@ == b.spec_bytes(),
            forall|k: int| 0 <= k < i ==> x@[k] == y@[k],
        decreases x.len() - i,
    {
        if x[i] != y[i] {
            return false;
        }
        i += 1;
    }
    proof {
        assert(x@ =~= y@);
        encode_utf8_decode_utf8(a@);
        encode_utf8_decode_utf8(b@);
    }
    true
}

/// A lexer: a source text, and a cursor that moves forward over it as tokens
/// are taken.
///
/// The cursor is one index, counted in code points. The character under it
/// and the index of the next character are read off it: see
/// [`Lexer::current_char`] and [`Lexer::read_position`].
pub struct Lexer<'a> {
    input: &'a str,
    /// The code points of `input`, for access by index.
    chars: Vec<char>,
    /// Whether `input` is all ASCII, so that it can be sliced by index.
    ascii: bool,
    position: usize,
}

impl<'a> Lexer<'a> {
    #[verifier::type_invariant]
    spec fn well_formed(&self) -> bool {
        &&& self.chars@ == self.input@
        &&& self.ascii == is_ascii(self.input)
        &&& self.position <= self.chars.len()
    }

    /// The source text, as code points.
    pub closed spec fn source(&self) -> Seq<char> {
        self.input@
    }

    /// The index of the character under the cursor; the length of the source
    /// once the input is exhausted.
    pub closed spec fn position(&self) -> int {
        self.position as int
    }

    /// The index of the next character to examine: always one past the cursor.
    pub open spec fn read_position(&self) -> int {
        self.position() + 1
    }

    /// The character under the cursor, or NUL once the input is exhausted.
    pub open spec fn current_char(&self) -> char {
        char_at(self.source(), self.position())
    }

    /// A lexer over `input`, with its cursor on the first character.
    pub fn new(input: &'a str) -> (lexer: Self)
        ensures
            lexer.source() == input@,
            lexer.position() == 0,
    {
        let mut chars: Vec<char> = Vec::new();
        for c in iter: input.chars()
            invariant
                chars@ == iter.seq().take(iter.index()),
        {
            chars.push(c);
        }
        assert(chars@ == input@);
        Lexer { input, chars, ascii: input.is_ascii(), position: 0 }
    }

    /// The character under the cursor.
    fn ch(&self) -> (c: char)
        ensures
            c == self.current_char(),
    {
        proof {
            use_type_invariant(self);
        }
        if self.position < self.chars.len() {
            self.chars[self.position]
        } else {
            '\0'
        }
    }

    /// The character after the one under the cursor, which stays where it is.
    fn peek_char(&self) -> (c: char)
        ensures
            c == char_at(self.source(), self.read_position()),
    {
        proof {
            use_type_invariant(self);
        }
        if self.position < self.chars.len() && self.position + 1 < self.chars.len() {
            self.chars[self.position + 1]
        } else {
            '\0'
        }
    }

    /// Moves the cursor one character forward, unless the input is exhausted.
    fn read_char(&mut self)
        ensures
            final(self).source() == old(self).source(),
            final(self).position() == if old(self).position() < old(self).source().len() {
                old(self).position() + 1
            } else {
                old(self).position()
            },
    {
        proof {
            use_type_invariant(&*self);
        }
        if self.position < self.chars.len() {
            self.position += 1;
        }
    }

    /// Whether `c` can stand in an identifier.
    fn is_letter(&self, c: char) -> (letter: bool)
        ensures
            letter == is_letter(c),
    {
        ('a' <= c && c <= 'z') || ('A' <= c && c <= 'Z') || c == '_'
    }

    /// Whether `c` separates tokens.
    fn is_whitespace(&self, c: char) -> (blank: bool)
        ensures
            blank == is_whitespace(c),
    {
        c == ' ' || c == '\t' || c == '\n' || c == '\r'
    }

    /// Moves the cursor past the whitespace it stands on, if any.
    fn skip_whitespaces(&mut self)
        ensures
            final(self).source() == old(self).source(),
            final(self).position() == skip_whitespace(old(self).source(), old(self).position()),
    {
        while self.is_whitespace(self.ch())
            invariant
                self.source() == old(self).source(),
                skip_whitespace(self.source(), self.position()) == skip_whitespace(
                    old(self).source(),
                    old(self).position(),
                ),
            decreases self.source().len() - self.position(),
        {
            proof {
                use_type_invariant(&*self);
            }
            self.read_char();
        }
        proof {
            use_type_invariant(&*self);
        }
    }

    /// The source text from the index `from` up to the index `to`.
    fn text(&self, from: usize, to: usize) -> (text: String)
        requires
            from <= to <= self.source().len(),
        ensures
            text@ == self.source().subrange(from as int, to as int),
    {
        proof {
            use_type_invariant(self);
        }
        if self.ascii {
            self.input.substring_ascii(from, to).to_owned()
        } else {
            self.input.substring_char(from, to).to_owned()
        }
    }

    /// The kind of the word `identifier`: a keyword's, or `IDENT`.
    fn lookup_identifier(&self, identifier: &str) -> (kind: TokenType)
        ensures
            kind == keyword_kind(identifier@),
    {
        if same_text(identifier, "fn") {
            TokenType::FUNCTION
        } else if same_text(identifier, "let") {
            TokenType::LET
        } else if same_text(identifier, "if") {
            TokenType::IF
        } else if same_text(identifier, "else") {
            TokenType::ELSE
        } else if same_text(identifier, "return") {
            TokenType::RETURN
        } else if same_text(identifier, "true") {
            TokenType::TRUE
        } else if same_text(identifier, "false") {
            TokenType::FALSE
        } else {
            TokenType::IDENT
        }
    }

    /// Moves the cursor past the letters it stands on, and returns them.
    fn read_identifier(&mut self) -> (word: String)
        ensures
            final(self).source() == old(self).source(),
            final(self).position() == identifier_end(old(self).source(), old(self).position()),
            old(self).position() <= final(self).position(),
            word@ == old(self).source().subrange(old(self).position(), final(self).position()),
    {
        let pos: usize = self.position;
        while self.is_letter(self.ch())
            invariant
                self.source() == old(self).source(),
                pos == old(self).position(),
                pos <= self.position(),
                identifier_end(self.source(), self.position()) == identifier_end(
                    old(self).source(),
                    old(self).position(),
                ),
            decreases self.source().len() - self.position(),
        {
            proof {
                use_type_invariant(&*self);
            }
            self.read_char();
        }
        proof {
            use_type_invariant(&*self);
        }
        self.text(pos, self.position)
    }

    /// Takes the token under the cursor, and moves the cursor behind it.
    ///
    /// Whitespace before the token is passed over. `=` and `!` form one token
    /// with a `=` that follows them directly. A word is as long as its letters
    /// go; a number is one digit long, so that `10` is two `INT` tokens. Any
    /// character that starts no token is a token of its own, `ILLEGAL`. Once
    /// the input is exhausted the token is `EOF`, with no text, and the cursor
    /// stays; a NUL character in the source reads as `EOF` too, and is passed.
    pub fn next_token(&mut self) -> (tok: Token)
        ensures
            final(self).source() == old(self).source(),
            tok.token_type == token_kind(old(self).source(), old(self).position()),
            tok.literal@ == token_literal(old(self).source(), old(self).position()),
            final(self).position() == token_end(old(self).source(), old(self).position()),
            old(self).position() <= final(self).position() <= old(self).source().len(),
    {
        proof {
            use_type_invariant(&*self);
            skip_whitespace_bounds(self.source(), self.position());
        }
        self.skip_whitespaces();
        let start: usize = self.position;
        let c = self.ch();
        let token_type = match c {
            ',' => TokenType::COMMA,
            '>' => TokenType::GT,
            '<' => TokenType::LT,
            '+' => TokenType::PLUS,
            '-' => TokenType::MINUS,
            ';' => TokenType::SEMICOLON,
            '*' => TokenType::ASTERISK,
            '(' => TokenType::LPAREN,
            ')' => TokenType::RPAREN,
            '{' => TokenType::LBRACE,
            '}' => TokenType::RBRACE,
            '/' => TokenType::SLASH,
            '=' => {
                if self.peek_char() == '=' {
                    self.read_char();
                    TokenType::EQ
                } else {
                    TokenType::ASSIGN
                }
            },
            '!' => {
                if self.peek_char() == '=' {
                    self.read_char();
                    TokenType::NOTEQ
                } else {
                    TokenType::NOT
                }
            },
            '\0' => TokenType::EOF,
            _ => {
                if self.is_letter(c) {
                    let literal = self.read_identifier();
                    let token_type = self.lookup_identifier(literal.as_str());
                    proof {
                        use_type_invariant(&*self);
                    }
                    return Token { token_type, literal };
                } else if '0' <= c && c <= '9' {
                    TokenType::INT
                } else {
                    TokenType::ILLEGAL
                }
            },
        };
        self.read_char();
        proof {
            use_type_invariant(&*self);
        }
        let literal = match token_type {
            TokenType::EOF => String::new(),
            _ => self.text(start, self.position),
        };
        Token { token_type, literal }
    }
}

} // verus!
