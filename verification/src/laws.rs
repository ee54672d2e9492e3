//! What holds of the lexical grammar, for every source and every cursor.

use crate::grammar::{
    char_at, cursor_after, identifier_end, is_letter, is_whitespace, keyword_kind,
    punctuation_kind, skip_whitespace, token_end, token_kind, token_literal, token_start,
};
use crate::lexer::TokenType;
use vstd::prelude::*;

verus! {

/// Whether nothing but whitespace and NUL characters is left from the index
/// `i` on.
pub open spec fn only_blanks_from(source: Seq<char>, i: int) -> bool {
    forall|k: int| i <= k < source.len() ==> is_whitespace(#[trigger] source[k]) || source[k] == '\0'
}

/// Skipping whitespace never moves the cursor backwards or out of the source.
pub proof fn skip_whitespace_bounds(source: Seq<char>, i: int)
    requires
        0 <= i <= source.len(),
    ensures
        i <= skip_whitespace(source, i) <= source.len(),
    decreases source.len() - i,
{
    if i < source.len() && is_whitespace(source[i]) {
        skip_whitespace_bounds(source, i + 1);
    }
}

/// Skipping whitespace passes over whitespace only, and all of it: it stops
/// on the first character that is none, or at the end of the source.
pub proof fn skip_whitespace_is_maximal(source: Seq<char>, i: int)
    requires
        0 <= i <= source.len(),
    ensures
        forall|k: int| i <= k < skip_whitespace(source, i) ==> is_whitespace(#[trigger] source[k]),
        !is_whitespace(char_at(source, skip_whitespace(source, i))),
    decreases source.len() - i,
{
    if i < source.len() && is_whitespace(source[i]) {
        skip_whitespace_is_maximal(source, i + 1);
    }
}

/// A run of letters never ends before it starts or outside the source.
pub proof fn identifier_end_bounds(source: Seq<char>, i: int)
    requires
        0 <= i <= source.len(),
    ensures
        i <= identifier_end(source, i) <= source.len(),
    decreases source.len() - i,
{
    if i < source.len() && is_letter(source[i]) {
        identifier_end_bounds(source, i + 1);
    }
}

/// A run of letters holds letters only, and all of them: it ends before the
/// first character that is none, or at the end of the source.
pub proof fn identifier_end_is_maximal(source: Seq<char>, i: int)
    requires
        0 <= i <= source.len(),
    ensures
        forall|k: int| i <= k < identifier_end(source, i) ==> is_letter(#[trigger] source[k]),
        !is_letter(char_at(source, identifier_end(source, i))),
    decreases source.len() - i,
{
    if i < source.len() && is_letter(source[i]) {
        identifier_end_is_maximal(source, i + 1);
    }
}

/// The cursor only moves forward and stays within the source, and every
/// token but `EOF` takes at least one character.
pub proof fn cursor_moves_forward(source: Seq<char>, i: int)
    requires
        0 <= i <= source.len(),
    ensures
        i <= token_start(source, i) <= token_end(source, i) <= source.len(),
        token_kind(source, i) != TokenType::EOF ==> token_start(source, i) < token_end(source, i),
{
    skip_whitespace_bounds(source, i);
    let start = token_start(source, i);
    identifier_end_bounds(source, start);
    if start < source.len() {
        identifier_end_bounds(source, start + 1);
    }
    keyword_table_is_exact(source.subrange(start, identifier_end(source, start)));
}

/// After any number of tokens the cursor is still within the source.
pub proof fn cursor_stays_in_source(source: Seq<char>, i: int, n: nat)
    requires
        0 <= i <= source.len(),
    ensures
        i <= cursor_after(source, i, n) <= source.len(),
    decreases n,
{
    if n > 0 {
        cursor_moves_forward(source, i);
        cursor_stays_in_source(source, token_end(source, i), (n - 1) as nat);
    }
}

/// The first token of a source that holds nothing but whitespace is `EOF`,
/// with no text.
pub proof fn blank_source_is_end_of_input(source: Seq<char>)
    requires
        forall|k: int| 0 <= k < source.len() ==> is_whitespace(#[trigger] source[k]),
    ensures
        token_kind(source, 0) == TokenType::EOF,
        token_literal(source, 0) == Seq::<char>::empty(),
        token_end(source, 0) == source.len(),
{
    skip_whitespace_bounds(source, 0);
    skip_whitespace_is_maximal(source, 0);
}

/// Where `=` or `!` is followed by `=`, the two characters are one token,
/// `EQ` or `NOTEQ`: its text is both of them, and the cursor moves past both.
pub proof fn two_character_operator_is_one_token(source: Seq<char>, i: int)
    requires
        0 <= i <= source.len(),
        char_at(source, token_start(source, i)) == '=' || char_at(source, token_start(source, i))
            == '!',
        char_at(source, token_start(source, i) + 1) == '=',
    ensures
        token_kind(source, i) == if source[token_start(source, i)] == '=' {
            TokenType::EQ
        } else {
            TokenType::NOTEQ
        },
        token_literal(source, i) == seq![source[token_start(source, i)], '='],
        token_end(source, i) == token_start(source, i) + 2,
{
    skip_whitespace_bounds(source, i);
}

/// A punctuation character is a token by itself: its kind is the one the
/// table gives for the character, and its text is that one character.
pub proof fn punctuation_is_one_character(source: Seq<char>, i: int)
    requires
        0 <= i <= source.len(),
        punctuation_kind(char_at(source, token_start(source, i))) != TokenType::ILLEGAL,
    ensures
        token_kind(source, i) == punctuation_kind(source[token_start(source, i)]),
        token_literal(source, i) == seq![source[token_start(source, i)]],
        token_end(source, i) == token_start(source, i) + 1,
{
    skip_whitespace_bounds(source, i);
}

/// A word is a keyword exactly when it is that keyword's text, letter for
/// letter, and an identifier exactly when it is none of them.
pub proof fn keyword_table_is_exact(word: Seq<char>)
    ensures
        keyword_kind(word) == TokenType::FUNCTION <==> word == "fn"@,
        keyword_kind(word) == TokenType::LET <==> word == "let"@,
        keyword_kind(word) == TokenType::IF <==> word == "if"@,
        keyword_kind(word) == TokenType::ELSE <==> word == "else"@,
        keyword_kind(word) == TokenType::RETURN <==> word == "return"@,
        keyword_kind(word) == TokenType::TRUE <==> word == "true"@,
        keyword_kind(word) == TokenType::FALSE <==> word == "false"@,
        keyword_kind(word) == TokenType::IDENT <==> word != "fn"@ && word != "let"@ && word
            != "if"@ && word != "else"@ && word != "return"@ && word != "true"@ && word
            != "false"@,
        keyword_kind(word) != TokenType::EOF,
        keyword_kind(word) != TokenType::ILLEGAL,
{
    reveal_strlit("fn");
    reveal_strlit("let");
    reveal_strlit("if");
    reveal_strlit("else");
    reveal_strlit("return");
    reveal_strlit("true");
    reveal_strlit("false");
    assert("fn"@.len() == 2 && "fn"@[0] == 'f');
    assert("let"@.len() == 3);
    assert("if"@.len() == 2 && "if"@[0] == 'i');
    assert("else"@.len() == 4 && "else"@[0] == 'e');
    assert("return"@.len() == 6);
    assert("true"@.len() == 4 && "true"@[0] == 't');
    assert("false"@.len() == 5);
}

/// Where a token starts with a letter, it is the longest run of letters
/// from there: letters only, ended by the first character that is none or by
/// the end of the source. That character is not taken: the cursor stops on
/// it. The run is a keyword or an identifier, as the keyword table has it.
pub proof fn identifier_is_longest_run_of_letters(source: Seq<char>, i: int)
    requires
        0 <= i <= source.len(),
        is_letter(char_at(source, token_start(source, i))),
    ensures
        token_start(source, i) < token_end(source, i) <= source.len(),
        token_literal(source, i) == source.subrange(token_start(source, i), token_end(source, i)),
        forall|k: int|
            token_start(source, i) <= k < token_end(source, i) ==> is_letter(#[trigger] source[k]),
        !is_letter(char_at(source, token_end(source, i))),
        token_kind(source, i) == keyword_kind(token_literal(source, i)),
{
    skip_whitespace_bounds(source, i);
    let start = token_start(source, i);
    identifier_end_bounds(source, start + 1);
    identifier_end_is_maximal(source, start);
    keyword_table_is_exact(source.subrange(start, identifier_end(source, start)));
}

/// Where nothing but whitespace and NUL characters is left, every token from
/// there on is `EOF`.
pub proof fn blank_rest_is_end_of_input(source: Seq<char>, i: int, n: nat)
    requires
        0 <= i <= source.len(),
        only_blanks_from(source, i),
    ensures
        token_kind(source, cursor_after(source, i, n)) == TokenType::EOF,
    decreases n,
{
    skip_whitespace_bounds(source, i);
    skip_whitespace_is_maximal(source, i);
    if n > 0 {
        blank_rest_is_end_of_input(source, token_end(source, i), (n - 1) as nat);
    }
}

/// `EOF` is final: once a token is `EOF`, so is every token after it,
/// provided that nothing but whitespace and NUL characters is left behind it.
/// That is so whenever the `EOF` stands for the end of the source; an `EOF`
/// that stands for a NUL character in the source is final only on this
/// condition, because the cursor moves past the NUL and goes on.
pub proof fn end_of_input_is_final(source: Seq<char>, i: int, n: nat)
    requires
        0 <= i <= source.len(),
        token_kind(source, i) == TokenType::EOF,
        only_blanks_from(source, token_end(source, i)),
    ensures
        token_kind(source, cursor_after(source, i, n)) == TokenType::EOF,
{
    if n > 0 {
        cursor_moves_forward(source, i);
        blank_rest_is_end_of_input(source, token_end(source, i), (n - 1) as nat);
    }
}

/// Where a character that is neither whitespace nor NUL stands at the index
/// `k`, some token from the cursor `i` on is no `EOF`: the token number `n`.
pub proof fn token_before_index(source: Seq<char>, i: int, k: int) -> (n: nat)
    requires
        0 <= i <= k < source.len(),
        !is_whitespace(source[k]),
        source[k] != '\0',
    ensures
        token_kind(source, cursor_after(source, i, n)) != TokenType::EOF,
    decreases k - i,
{
    skip_whitespace_bounds(source, i);
    skip_whitespace_is_maximal(source, i);
    let start = token_start(source, i);
    if source[start] == '\0' {
        1 + token_before_index(source, start + 1, k)
    } else {
        keyword_table_is_exact(source.subrange(start, identifier_end(source, start)));
        0
    }
}

/// An `EOF` is not final where anything but whitespace and NUL characters is
/// left behind it: some later token, the token number `n`, is no `EOF`.
pub proof fn end_of_input_is_not_final(source: Seq<char>, i: int) -> (n: nat)
    requires
        0 <= i <= source.len(),
        token_kind(source, i) == TokenType::EOF,
        !only_blanks_from(source, token_end(source, i)),
    ensures
        n > 0,
        token_kind(source, cursor_after(source, i, n)) != TokenType::EOF,
{
    cursor_moves_forward(source, i);
    let end = token_end(source, i);
    let k = choose|k: int|
        end <= k < source.len() && !(is_whitespace(#[trigger] source[k]) || source[k] == '\0');
    1 + token_before_index(source, end, k)
}

} // verus!
