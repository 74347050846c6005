//! The scanner: splits a line into classified tokens.
use vstd::prelude::*;

use crate::chars::push_char;
use crate::classify::{category, classify_token, TokenType};

verus! {

/// A token: a piece of the input together with its category.
#[derive(Debug, Clone)]
pub struct Token {
    pub token: String,
    pub token_type: TokenType,
}

impl View for Token {
    type V = (Seq<char>, TokenType);

    open spec fn view(&self) -> (Seq<char>, TokenType) {
        (self.token@, self.token_type)
    }
}

/// The views of a sequence of tokens.
pub open spec fn view_tokens(ts: Seq<Token>) -> Seq<(Seq<char>, TokenType)> {
    ts.map_values(|t: Token| t@)
}

/// The characters on which the scanner splits: `=`, space and newline.
pub open spec fn is_delimiter(c: char) -> bool {
    c == '=' || c == ' ' || c == '\n'
}

/// The token that a delimiter becomes on its own: a space is whitespace,
/// `=` is classified like any fragment, and a newline ends the line.
pub open spec fn delimiter_token(c: char) -> (Seq<char>, TokenType) {
    (
        seq![c],
        if c == ' ' {
            TokenType::Whitespace
        } else if c == '=' {
            category(seq![c])
        } else {
            TokenType::EndOfLine
        },
    )
}

/// The token that an accumulated run of ordinary characters becomes: none
/// if the run is empty.
pub open spec fn flush(acc: Seq<char>) -> Seq<(Seq<char>, TokenType)> {
    if acc.len() == 0 {
        seq![]
    } else {
        seq![(acc, category(acc))]
    }
}

/// The scanner's state after reading `s`: the tokens emitted so far, and
/// the run of ordinary characters not yet emitted.
pub open spec fn scan_state(s: Seq<char>) -> (Seq<(Seq<char>, TokenType)>, Seq<char>)
    decreases s.len(),
{
    if s.len() == 0 {
        (seq![], seq![])
    } else {
        let (toks, acc) = scan_state(s.drop_last());
        let c = s.last();
        if is_delimiter(c) {
            (toks + flush(acc) + seq![delimiter_token(c)], seq![])
        } else {
            (toks, acc.push(c))
        }
    }
}

/// The tokens of a whole input: those emitted while reading it, then the
/// final run of ordinary characters, if any.
pub open spec fn scan(s: Seq<char>) -> Seq<(Seq<char>, TokenType)> {
    scan_state(s).0 + flush(scan_state(s).1)
}

/// Splits `input` into tokens, left to right.
pub fn tokenize(input: &str) -> (r: Vec<Token>)
    ensures
        view_tokens(r@) == scan(input@),
{
    let mut tokens: Vec<Token> = Vec::new();
    let mut current = String::new();
    for c in it: input.chars()
        invariant
            it.seq() == input@,
            view_tokens(tokens@) == scan_state(input@.take(it.index() as int)).0,
            current@ == scan_state(input@.take(it.index() as int)).1,
    {
        let ghost k = it.index() as int;
        let ghost before = input@.take(k);
        proof {
            assert(input@.take(k + 1).drop_last() =~= before);
        }
        if c == '=' || c == ' ' || c == '\n' {
            if !current.as_str().is_empty() {
                let token_type = classify_token(current.as_str());
                let ghost prev = tokens@;
                tokens.push(Token { token: current, token_type });
                proof {
                    assert(view_tokens(tokens@) =~= view_tokens(prev).push(
                        (scan_state(before).1, token_type),
                    ));
                }
                current = String::new();
            }
            let mut text = String::new();
            push_char(&mut text, c);
            let token_type = if c == ' ' {
                TokenType::Whitespace
            } else if c == '=' {
                classify_token(text.as_str())
            } else {
                TokenType::EndOfLine
            };
            let ghost prev = tokens@;
            tokens.push(Token { token: text, token_type });
            proof {
                assert(text@ =~= seq![c]);
                assert(view_tokens(tokens@) =~= view_tokens(prev).push(delimiter_token(c)));
                assert(scan_state(input@.take(k + 1)).0 =~= scan_state(before).0 + flush(
                    scan_state(before).1,
                ) + seq![delimiter_token(c)]);
            }
        } else {
            push_char(&mut current, c);
        }
    }
    proof {
        assert(input@.take(input@.len() as int) =~= input@);
    }
    if !current.as_str().is_empty() {
        let token_type = classify_token(current.as_str());
        tokens.push(Token { token: current, token_type });
    }
    proof {
        assert(view_tokens(tokens@) =~= scan(input@));
    }
    tokens
}

/// The texts of a sequence of tokens, joined in order.
pub open spec fn concat_texts(ts: Seq<(Seq<char>, TokenType)>) -> Seq<char>
    decreases ts.len(),
{
    if ts.len() == 0 {
        seq![]
    } else {
        concat_texts(ts.drop_last()) + ts.last().0
    }
}

proof fn lemma_concat_texts_append(a: Seq<(Seq<char>, TokenType)>, b: Seq<(Seq<char>, TokenType)>)
    ensures
        concat_texts(a + b) == concat_texts(a) + concat_texts(b),
    decreases b.len(),
{
    if b.len() == 0 {
        assert(a + b =~= a);
        assert(concat_texts(a) + concat_texts(b) =~= concat_texts(a));
    } else {
        assert((a + b).drop_last() =~= a + b.drop_last());
        lemma_concat_texts_append(a, b.drop_last());
        assert(concat_texts(a + b) =~= concat_texts(a) + concat_texts(b));
    }
}

proof fn lemma_flush_text(acc: Seq<char>)
    ensures
        concat_texts(flush(acc)) == acc,
{
    if acc.len() == 0 {
        assert(concat_texts(flush(acc)) =~= acc);
    } else {
        assert(flush(acc).drop_last() =~= seq![]);
        assert(concat_texts(flush(acc).drop_last()) =~= seq![]);
        assert(concat_texts(flush(acc)) =~= acc);
    }
}

proof fn lemma_scan_state_covers(s: Seq<char>)
    ensures
        concat_texts(scan_state(s).0) + scan_state(s).1 == s,
        forall|i: int|
            0 <= i < scan_state(s).0.len() ==> #[trigger] scan_state(s).0[i].0.len() > 0,
    decreases s.len(),
{
    if s.len() == 0 {
        assert(concat_texts(scan_state(s).0) + scan_state(s).1 =~= s);
    } else {
        let prev = s.drop_last();
        lemma_scan_state_covers(prev);
        let (toks, acc) = scan_state(prev);
        let c = s.last();
        assert(prev.push(c) =~= s);
        if is_delimiter(c) {
            let single = seq![delimiter_token(c)];
            lemma_concat_texts_append(toks, flush(acc));
            lemma_concat_texts_append(toks + flush(acc), single);
            lemma_flush_text(acc);
            assert(single.drop_last() =~= seq![]);
            assert(concat_texts(single.drop_last()) =~= seq![]);
            assert(concat_texts(single) =~= seq![c]);
            assert(concat_texts(scan_state(s).0) + scan_state(s).1 =~= s);
            assert forall|i: int| 0 <= i < scan_state(s).0.len() implies #[trigger] scan_state(
                s,
            ).0[i].0.len() > 0 by {
                if i >= toks.len() + flush(acc).len() {
                } else if i >= toks.len() {
                } else {
                    assert(scan_state(s).0[i] == toks[i]);
                }
            }
        } else {
            assert(concat_texts(scan_state(s).0) + scan_state(s).1 =~= s);
        }
    }
}

/// Scanning loses and repeats nothing: the texts of the tokens, joined in
/// order, give back the input, and no token is empty.
pub proof fn lemma_scan_covers_input(s: Seq<char>)
    ensures
        concat_texts(scan(s)) == s,
        forall|i: int| 0 <= i < scan(s).len() ==> #[trigger] scan(s)[i].0.len() > 0,
{
    lemma_scan_state_covers(s);
    let (toks, acc) = scan_state(s);
    lemma_concat_texts_append(toks, flush(acc));
    lemma_flush_text(acc);
    assert forall|i: int| 0 <= i < scan(s).len() implies #[trigger] scan(s)[i].0.len() > 0 by {
        if i < toks.len() {
            assert(scan(s)[i] == toks[i]);
        }
    }
}

/// Scanning is deterministic: two results of `tokenize` on the same input
/// are the same tokens.
pub proof fn lemma_tokenize_deterministic(
    input1: Seq<char>,
    input2: Seq<char>,
    r1: Seq<Token>,
    r2: Seq<Token>,
)
    requires
        input1 == input2,
        view_tokens(r1) == scan(input1),
        view_tokens(r2) == scan(input2),
    ensures
        view_tokens(r1) == view_tokens(r2),
{
}

} // verus!
