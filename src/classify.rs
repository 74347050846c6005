//! The classifier: maps a fragment of text to its token category.
use vstd::prelude::*;

use crate::chars::{
    alphabetic, char_is_alphabetic, char_is_numeric, char_is_whitespace, is_ascii_digit,
    is_ascii_punctuation, is_operator, is_operator_char, is_punctuation_char, numeric, whitespace,
};

verus! {

/// The category of a token.
#[derive(Debug, Clone, Copy, PartialEq, Eq, Structural)]
pub enum TokenType {
    Word,
    Whitespace,
    Operator,
    Number,
    Punctuation,
    EndOfLine,
    Unknown,
}

/// Every character of `s` is alphabetic.
pub open spec fn all_alphabetic(s: Seq<char>) -> bool {
    forall|i: int| 0 <= i < s.len() ==> #[trigger] alphabetic(s[i])
}

/// Every character of `s` is whitespace.
pub open spec fn all_whitespace(s: Seq<char>) -> bool {
    forall|i: int| 0 <= i < s.len() ==> #[trigger] whitespace(s[i])
}

/// Every character of `s` is an operator character.
pub open spec fn all_operators(s: Seq<char>) -> bool {
    forall|i: int| 0 <= i < s.len() ==> #[trigger] is_operator_char(s[i])
}

/// Every character of `s` is numeric.
pub open spec fn all_numeric(s: Seq<char>) -> bool {
    forall|i: int| 0 <= i < s.len() ==> #[trigger] numeric(s[i])
}

/// Every character of `s` is ASCII punctuation.
pub open spec fn all_punctuation(s: Seq<char>) -> bool {
    forall|i: int| 0 <= i < s.len() ==> #[trigger] is_punctuation_char(s[i])
}

/// The category of a fragment: the first of these rules that applies.
/// An empty fragment ends the line; then a fragment of alphabetic characters
/// is a word, of whitespace is whitespace, of operator characters an
/// operator, of numeric characters a number, of ASCII punctuation
/// punctuation; anything else is unknown.
pub open spec fn category(s: Seq<char>) -> TokenType {
    if s.len() == 0 {
        TokenType::EndOfLine
    } else if all_alphabetic(s) {
        TokenType::Word
    } else if all_whitespace(s) {
        TokenType::Whitespace
    } else if all_operators(s) {
        TokenType::Operator
    } else if all_numeric(s) {
        TokenType::Number
    } else if all_punctuation(s) {
        TokenType::Punctuation
    } else {
        TokenType::Unknown
    }
}

/// Classifies a fragment of text.
pub fn classify_token(token: &str) -> (r: TokenType)
    ensures
        r == category(token@),
{
    let mut alpha = true;
    let mut space = true;
    let mut oper = true;
    let mut num = true;
    let mut punct = true;
    for c in it: token.chars()
        invariant
            it.seq() == token@,
            alpha == forall|i: int| 0 <= i < it.index() ==> #[trigger] alphabetic(token@[i]),
            space == forall|i: int| 0 <= i < it.index() ==> #[trigger] whitespace(token@[i]),
            oper == forall|i: int| 0 <= i < it.index() ==> #[trigger] is_operator_char(token@[i]),
            num == forall|i: int| 0 <= i < it.index() ==> #[trigger] numeric(token@[i]),
            punct == forall|i: int|
                0 <= i < it.index() ==> #[trigger] is_punctuation_char(token@[i]),
    {
        alpha = alpha && char_is_alphabetic(c);
        space = space && char_is_whitespace(c);
        oper = oper && is_operator(c);
        num = num && char_is_numeric(c);
        punct = punct && is_ascii_punctuation(c);
    }
    if token.is_empty() {
        TokenType::EndOfLine
    } else if alpha {
        TokenType::Word
    } else if space {
        TokenType::Whitespace
    } else if oper {
        TokenType::Operator
    } else if num {
        TokenType::Number
    } else if punct {
        TokenType::Punctuation
    } else {
        TokenType::Unknown
    }
}

/// A non-empty fragment of alphabetic characters is a word.
pub proof fn lemma_letters_classify_as_word(s: Seq<char>)
    requires
        s.len() > 0,
        all_alphabetic(s),
    ensures
        category(s) == TokenType::Word,
{
}

/// A non-empty fragment of decimal digits is a number.
pub proof fn lemma_digits_classify_as_number(s: Seq<char>)
    requires
        s.len() > 0,
        forall|i: int| 0 <= i < s.len() ==> #[trigger] is_ascii_digit(s[i]),
    ensures
        category(s) == TokenType::Number,
{
    assert(is_ascii_digit(s[0]));
    assert(!alphabetic(s[0]));
    assert(!whitespace(s[0]));
    assert(!is_operator_char(s[0]));
    assert forall|i: int| 0 <= i < s.len() implies #[trigger] numeric(s[i]) by {
        assert(is_ascii_digit(s[i]));
    }
}

/// The empty fragment marks the end of the line.
pub proof fn lemma_empty_classifies_as_end_of_line()
    ensures
        category(Seq::<char>::empty()) == TokenType::EndOfLine,
{
}

/// A single operator character is an operator, although it is ASCII
/// punctuation as well.
pub proof fn lemma_operator_char_classifies_as_operator(c: char)
    requires
        is_operator_char(c),
    ensures
        category(seq![c]) == TokenType::Operator,
{
    let s = seq![c];
    assert(s[0] == c);
    assert(!alphabetic(s[0]));
    assert(!whitespace(s[0]));
}

} // verus!
