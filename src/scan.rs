//! What scanning yields, stated over the remaining characters.
use vstd::prelude::*;

use crate::chars::{symbol_char, white_space_char};
use crate::token::TokenView;
use crate::CompileErrorView;

verus! {

/// The characters that remain once leading white space is dropped.
pub open spec fn trim_start(s: Seq<char>) -> Seq<char>
    decreases s.len(),
{
    if s.len() > 0 && white_space_char(s[0]) {
        trim_start(s.drop_first())
    } else {
        s
    }
}

/// Whether `a` followed by `b` is one of the symbols `<-`, `<=`, `<>`, `>=`.
pub open spec fn two_char_symbol(a: char, b: char) -> bool {
    ||| a == '<' && (b == '-' || b == '=' || b == '>')
    ||| a == '>' && b == '='
}

/// The number of characters the token at the front of `s` takes, for `s`
/// not empty and not starting with white space.
pub open spec fn token_len(s: Seq<char>) -> int {
    if s.len() >= 2 && symbol_char(s[0]) && two_char_symbol(s[0], s[1]) {
        2
    } else {
        1
    }
}

/// The outcome for the token at the front of `s`: a symbol, or the error for
/// a character that starts no token.
pub open spec fn front_token(s: Seq<char>) -> Result<TokenView, CompileErrorView> {
    if symbol_char(s[0]) {
        Ok(TokenView::Symbol(s.take(token_len(s))))
    } else {
        Err(CompileErrorView::UnknownToken(TokenView::Symbol(seq![s[0]])))
    }
}

/// The next outcome of scanning `s`; `None` when only white space is left.
pub open spec fn scan(s: Seq<char>) -> Option<Result<TokenView, CompileErrorView>> {
    let t = trim_start(s);
    if t.len() == 0 {
        None
    } else {
        Some(front_token(t))
    }
}

/// The characters left after scanning once from `s`.
pub open spec fn scan_rest(s: Seq<char>) -> Seq<char> {
    let t = trim_start(s);
    if t.len() == 0 {
        t
    } else {
        t.skip(token_len(t))
    }
}

/// An outcome for a caller that requires a token: the end becomes an error.
pub open spec fn required(o: Option<Result<TokenView, CompileErrorView>>) -> Result<
    TokenView,
    CompileErrorView,
> {
    match o {
        Some(r) => r,
        None => Err(CompileErrorView::UnexpectedEnd),
    }
}

/// The model of a lexer: the characters not yet read, and the outcome held
/// back by the last look ahead (`None` when nothing is held).
pub struct LexerView {
    pub rest: Seq<char>,
    pub buffered: Option<Result<TokenView, CompileErrorView>>,
}

/// The state after a look ahead: a held outcome is kept; otherwise the next
/// outcome is scanned and held.
pub open spec fn peek_state(v: LexerView) -> LexerView {
    if v.buffered is Some {
        v
    } else {
        LexerView { rest: scan_rest(v.rest), buffered: scan(v.rest) }
    }
}

/// The outcome a look ahead reports.
pub open spec fn peek_value(v: LexerView) -> Option<Result<TokenView, CompileErrorView>> {
    peek_state(v).buffered
}

/// The state after the next outcome is taken: the look ahead, then nothing held.
pub open spec fn advance_state(v: LexerView) -> LexerView {
    LexerView { rest: peek_state(v).rest, buffered: None }
}

/// The state after `n` outcomes are taken, one after another.
pub open spec fn advance_times(v: LexerView, n: nat) -> LexerView
    decreases n,
{
    if n == 0 {
        v
    } else {
        advance_times(advance_state(v), (n - 1) as nat)
    }
}

/// Text that is white space throughout, the empty text included, holds no
/// token: the first look ahead reports the end, and a caller that requires a
/// token gets `UnexpectedEnd`.
pub proof fn lemma_white_space_only_is_end(s: Seq<char>)
    requires
        forall|i: int| 0 <= i < s.len() ==> white_space_char(#[trigger] s[i]),
    ensures
        peek_value(LexerView { rest: s, buffered: None }) == None::<
            Result<TokenView, CompileErrorView>,
        >,
        required(peek_value(LexerView { rest: s, buffered: None })) == Err::<
            TokenView,
            CompileErrorView,
        >(CompileErrorView::UnexpectedEnd),
{
    lemma_trim_white_space_only(s);
}

/// Text that is white space throughout never yields a token: however many
/// outcomes are taken from it, the next one is the end.
pub proof fn lemma_white_space_only_never_yields(s: Seq<char>, n: nat)
    requires
        forall|i: int| 0 <= i < s.len() ==> white_space_char(#[trigger] s[i]),
    ensures
        peek_value(advance_times(LexerView { rest: s, buffered: None }, n)) == None::<
            Result<TokenView, CompileErrorView>,
        >,
    decreases n,
{
    lemma_trim_white_space_only(s);
    if n > 0 {
        let next = advance_state(LexerView { rest: s, buffered: None });
        assert forall|i: int| 0 <= i < next.rest.len() implies white_space_char(
            #[trigger] next.rest[i],
        ) by {}
        lemma_white_space_only_never_yields(next.rest, (n - 1) as nat);
    }
}

proof fn lemma_trim_white_space_only(s: Seq<char>)
    requires
        forall|i: int| 0 <= i < s.len() ==> white_space_char(#[trigger] s[i]),
    ensures
        trim_start(s).len() == 0,
    decreases s.len(),
{
    if s.len() > 0 {
        assert(white_space_char(s[0]));
        assert forall|i: int| 0 <= i < s.drop_first().len() implies white_space_char(
            #[trigger] s.drop_first()[i],
        ) by {
            assert(s.drop_first()[i] == s[i + 1]);
        }
        lemma_trim_white_space_only(s.drop_first());
    }
}

/// Looking ahead twice in a row is looking ahead once: the second look ahead
/// reports the same outcome and reads no further.
pub proof fn lemma_peek_idempotent(v: LexerView)
    ensures
        peek_state(peek_state(v)) == peek_state(v),
        peek_value(peek_state(v)) == peek_value(v),
{
}

/// Taking an outcome after a look ahead takes exactly the outcome that was
/// reported, and leaves the same state as taking it without the look ahead.
pub proof fn lemma_advance_takes_peeked(v: LexerView)
    ensures
        peek_value(peek_state(v)) == peek_value(v),
        advance_state(peek_state(v)) == advance_state(v),
{
}

/// Each of `<-`, `<=`, `<>`, `>=`, alone, is read as one symbol of both
/// characters, after which the input is at its end.
pub proof fn lemma_two_char_symbol(a: char, b: char)
    requires
        two_char_symbol(a, b),
    ensures
        scan(seq![a, b]) == Some(Ok::<TokenView, CompileErrorView>(TokenView::Symbol(seq![a, b]))),
        scan_rest(seq![a, b]) == Seq::<char>::empty(),
        scan(scan_rest(seq![a, b])) == None::<Result<TokenView, CompileErrorView>>,
{
    let s = seq![a, b];
    assert(s.take(2) =~= s);
    assert(s.skip(2) =~= Seq::<char>::empty());
}

/// `<` or `>` followed by a character that makes no two-character symbol
/// with it is read as a one-character symbol, and the following character is
/// left for the next outcome.
pub proof fn lemma_single_char_symbol(a: char, b: char, tail: Seq<char>)
    requires
        a == '<' || a == '>',
        !two_char_symbol(a, b),
    ensures
        scan(seq![a, b] + tail) == Some(Ok::<TokenView, CompileErrorView>(TokenView::Symbol(seq![a]))),
        scan_rest(seq![a, b] + tail) == seq![b] + tail,
{
    let s = seq![a, b] + tail;
    assert(s[0] == a && s[1] == b);
    assert(s.take(1) =~= seq![a]);
    assert(s.skip(1) =~= seq![b] + tail);
}

/// A character that is neither white space nor starts a symbol is reported
/// as `UnknownToken` and is read, so the next outcome starts after it.
pub proof fn lemma_unknown_char_read(c: char, tail: Seq<char>)
    requires
        !white_space_char(c),
        !symbol_char(c),
    ensures
        scan(seq![c] + tail) == Some(
            Err::<TokenView, CompileErrorView>(
                CompileErrorView::UnknownToken(TokenView::Symbol(seq![c])),
            ),
        ),
        scan_rest(seq![c] + tail) == tail,
{
    let s = seq![c] + tail;
    assert(s[0] == c);
    assert(s.skip(1) =~= tail);
}

} // verus!
