//! The lexer: a scanner over characters with one outcome of look ahead.
use vstd::prelude::*;

use crate::chars::{is_symbol_char, is_white_space, symbol_char};
use crate::scan::{advance_state, peek_state, peek_value, required, token_len, trim_start, LexerView};
use crate::token::{push_char, Token, TokenView};
use crate::{CompileError, CompileErrorView};

verus! {

/// The model of a lexing result.
pub open spec fn result_view(r: Result<Token, CompileError>) -> Result<TokenView, CompileErrorView> {
    match r {
        Ok(t) => Ok(t@),
        Err(e) => Err(e@),
    }
}

/// The model of an optional lexing result.
pub open spec fn outcome_view(o: Option<Result<Token, CompileError>>) -> Option<
    Result<TokenView, CompileErrorView>,
> {
    match o {
        Some(r) => Some(result_view(r)),
        None => None,
    }
}

fn duplicate_result(r: &Result<Token, CompileError>) -> (c: Result<Token, CompileError>)
    ensures
        c == *r,
{
    match r {
        Ok(t) => Ok(t.duplicate()),
        Err(e) => Err(e.duplicate()),
    }
}

/// Turns source text into tokens, one at a time, with one token of look ahead.
pub struct Lexer {
    input: Vec<char>,
    pos: usize,
    peeked: Option<Result<Token, CompileError>>,
}

impl View for Lexer {
    type V = LexerView;

    closed spec fn view(&self) -> LexerView {
        LexerView { rest: self.input@.skip(self.pos as int), buffered: outcome_view(self.peeked) }
    }
}

impl Lexer {
    /// The read position lies within the input.
    pub closed spec fn wf(&self) -> bool {
        self.pos <= self.input.len()
    }

    /// A lexer over the characters of `input`, with nothing read yet.
    pub fn new(input: &str) -> (l: Lexer)
        ensures
            l.wf(),
            l@ == (LexerView { rest: input@, buffered: None }),
    {
        broadcast use vstd::string::group_string_axioms;

        let mut chars: Vec<char> = Vec::new();
        for c in it: input.chars()
            invariant
                it.seq() == input@,
                chars@ == it.seq().take(it.index() as int),
        {
            chars.push(c);
        }
        assert(chars@ =~= input@);
        Lexer { input: chars, pos: 0, peeked: None }
    }

    /// Reads the symbol that starts at the read position: `<-`, `<=`, `<>`
    /// and `>=` are read whole, any other symbol is its first character.
    fn read_symbol(&mut self) -> (t: Token)
        requires
            old(self).wf(),
            old(self).pos < old(self).input.len(),
            symbol_char(old(self).input@[old(self).pos as int]),
        ensures
            final(self).wf(),
            final(self).input == old(self).input,
            final(self).peeked == old(self).peeked,
            final(self).pos == old(self).pos + token_len(old(self)@.rest),
            t@ == TokenView::Symbol(old(self)@.rest.take(token_len(old(self)@.rest))),
    {
        let ghost rest = self@.rest;
        let c = self.input[self.pos];
        self.pos = self.pos + 1;
        let mut symbol = String::new();
        push_char(&mut symbol, c);
        if self.pos < self.input.len() {
            let d = self.input[self.pos];
            if (c == '<' && (d == '-' || d == '=' || d == '>')) || (c == '>' && d == '=') {
                push_char(&mut symbol, d);
                self.pos = self.pos + 1;
            }
        }
        assert(symbol@ =~= rest.take(token_len(rest)));
        Token::Symbol(symbol)
    }

    /// The next outcome, left in place for the next call: `None` at the end
    /// of the input, else the next token or the error for a character that
    /// starts no token. Leading white space is read and dropped.
    pub fn peek(&mut self) -> (r: Option<Result<Token, CompileError>>)
        requires
            old(self).wf(),
        ensures
            final(self).wf(),
            final(self)@ == peek_state(old(self)@),
            outcome_view(r) == peek_value(old(self)@),
    {
        if self.peeked.is_none() {
            let ghost rest = self@.rest;
            let mut pos = self.pos;
            while pos < self.input.len() && is_white_space(self.input[pos])
                invariant
                    self.wf(),
                    self.pos <= pos <= self.input.len(),
                    self@.rest == rest,
                    trim_start(self.input@.skip(pos as int)) == trim_start(rest),
                decreases self.input.len() - pos,
            {
                assert(self.input@.skip(pos as int).drop_first() =~= self.input@.skip(pos + 1));
                pos = pos + 1;
            }
            self.pos = pos;
            assert(trim_start(rest) == self.input@.skip(pos as int));
            if pos == self.input.len() {
                assert(self.input@.skip(pos as int) =~= Seq::<char>::empty());
                return None;
            }
            let c = self.input[pos];
            let outcome = if is_symbol_char(c) {
                Ok(self.read_symbol())
            } else {
                self.pos = pos + 1;
                let mut text = String::new();
                push_char(&mut text, c);
                Err(CompileError::UnknownToken(Token::Symbol(text)))
            };
            self.peeked = Some(outcome);
            assert(self.input@.skip(self.pos as int) =~= trim_start(rest).skip(
                token_len(trim_start(rest)),
            ));
        }
        match &self.peeked {
            Some(r) => Some(duplicate_result(r)),
            None => None,
        }
    }

    /// The next outcome, left in place, where a token is required: the end of
    /// the input is `UnexpectedEnd`.
    pub fn peek_result(&mut self) -> (r: Result<Token, CompileError>)
        requires
            old(self).wf(),
        ensures
            final(self).wf(),
            final(self)@ == peek_state(old(self)@),
            result_view(r) == required(peek_value(old(self)@)),
    {
        match self.peek() {
            Some(r) => r,
            None => Err(CompileError::UnexpectedEnd),
        }
    }

    /// Takes the next outcome where a token is required: the end of the
    /// input is `UnexpectedEnd`. Nothing is held back afterwards.
    pub fn next_result(&mut self) -> (r: Result<Token, CompileError>)
        requires
            old(self).wf(),
        ensures
            final(self).wf(),
            final(self)@ == advance_state(old(self)@),
            result_view(r) == required(peek_value(old(self)@)),
    {
        let result = self.peek_result();
        self.peeked = None;
        result
    }

    /// Takes the next outcome: `None` at the end of the input. Nothing is
    /// held back afterwards.
    pub fn next(&mut self) -> (r: Option<Result<Token, CompileError>>)
        requires
            old(self).wf(),
        ensures
            final(self).wf(),
            final(self)@ == advance_state(old(self)@),
            outcome_view(r) == peek_value(old(self)@),
    {
        let option = self.peek();
        self.peeked = None;
        option
    }
}

} // verus!
