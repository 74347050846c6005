//! The breakdown generator: shows each character of a token on its own.
use vstd::prelude::*;

use crate::chars::push_char;
use crate::scan::Token;

verus! {

/// A character between double quotes.
pub open spec fn quoted(c: char) -> Seq<char> {
    seq!['"', c, '"']
}

/// The separator placed between two quoted characters.
pub open spec fn separator() -> Seq<char> {
    seq![' ', '=', ' ']
}

/// Each character of `s` quoted, joined by `" = "`; empty for an empty `s`.
pub open spec fn render(s: Seq<char>) -> Seq<char>
    decreases s.len(),
{
    if s.len() == 0 {
        seq![]
    } else if s.len() == 1 {
        quoted(s[0])
    } else {
        render(s.drop_last()) + separator() + quoted(s.last())
    }
}

/// Renders the characters of `text` one by one, each quoted, joined by
/// `" = "`.
pub fn render_text(text: &str) -> (r: String)
    ensures
        r@ == render(text@),
{
    let mut out = String::new();
    for c in it: text.chars()
        invariant
            it.seq() == text@,
            out@ == render(text@.take(it.index() as int)),
    {
        let ghost k = it.index() as int;
        let ghost prev = out@;
        if out.as_str().is_empty() {
            push_char(&mut out, '"');
            push_char(&mut out, c);
            push_char(&mut out, '"');
        } else {
            push_char(&mut out, ' ');
            push_char(&mut out, '=');
            push_char(&mut out, ' ');
            push_char(&mut out, '"');
            push_char(&mut out, c);
            push_char(&mut out, '"');
        }
        proof {
            let next = text@.take(k + 1);
            assert(next.drop_last() =~= text@.take(k));
            if k == 0 {
                assert(out@ =~= render(next));
            } else {
                assert(prev.len() > 0);
                assert(out@ =~= render(next));
            }
        }
    }
    proof {
        assert(text@.take(text@.len() as int) =~= text@);
    }
    out
}

/// Pairs each token's text with its rendering, one pair per token, in
/// order.
pub fn gran_breakdown(tokens: Vec<Token>) -> (r: Vec<(String, String)>)
    ensures
        r@.len() == tokens@.len(),
        forall|i: int|
            0 <= i < r@.len() ==> #[trigger] r@[i].0@ == tokens@[i].token@ && r@[i].1@ == render(
                tokens@[i].token@,
            ),
{
    let mut out: Vec<(String, String)> = Vec::new();
    let mut i: usize = 0;
    while i < tokens.len()
        invariant
            i <= tokens@.len(),
            out@.len() == i,
            forall|j: int|
                0 <= j < i ==> #[trigger] out@[j].0@ == tokens@[j].token@ && out@[j].1@
                    == render(tokens@[j].token@),
        decreases tokens@.len() - i,
    {
        let text = tokens[i].token.clone();
        let rendering = render_text(tokens[i].token.as_str());
        out.push((text, rendering));
        i = i + 1;
    }
    out
}

} // verus!
