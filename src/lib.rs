//! A one-token-lookahead lexer for a small expression language.
use vstd::prelude::*;

pub mod chars;
pub mod lexer;
pub mod scan;
pub mod token;

pub use lexer::Lexer;
pub use token::{Token, TokenView, token_text};

verus! {

/// An error of lexing or of the parsing that consumes the tokens.
#[derive(Clone, PartialEq, Debug)]
pub enum CompileError {
    /// A character that no token starts with; it is carried as a one-character symbol.
    UnknownToken(Token),
    /// A token that the grammar does not allow where it stands; raised by parsers.
    UnexpectedToken(Token),
    /// The input ended where a token was required.
    UnexpectedEnd,
}

/// The model of a [`CompileError`].
pub enum CompileErrorView {
    UnknownToken(TokenView),
    UnexpectedToken(TokenView),
    UnexpectedEnd,
}

impl View for CompileError {
    type V = CompileErrorView;

    open spec fn view(&self) -> CompileErrorView {
        match self {
            CompileError::UnknownToken(t) => CompileErrorView::UnknownToken(t@),
            CompileError::UnexpectedToken(t) => CompileErrorView::UnexpectedToken(t@),
            CompileError::UnexpectedEnd => CompileErrorView::UnexpectedEnd,
        }
    }
}

/// How an error reads in a diagnostic; `number_text` renders a number's value.
pub open spec fn error_text(e: CompileErrorView, number_text: Seq<char>) -> Seq<char> {
    match e {
        CompileErrorView::UnknownToken(t) => "Unknown "@ + token_text(t, number_text),
        CompileErrorView::UnexpectedToken(t) => "Unexpected "@ + token_text(t, number_text),
        CompileErrorView::UnexpectedEnd => "Unexpected end"@,
    }
}

impl CompileError {
    /// A copy of this error.
    pub fn duplicate(&self) -> (r: CompileError)
        ensures
            r == *self,
    {
        match self {
            CompileError::UnknownToken(t) => CompileError::UnknownToken(t.duplicate()),
            CompileError::UnexpectedToken(t) => CompileError::UnexpectedToken(t.duplicate()),
            CompileError::UnexpectedEnd => CompileError::UnexpectedEnd,
        }
    }

    /// The error as a diagnostic: `Unknown <token>`, `Unexpected <token>` or
    /// `Unexpected end`. The caller renders a number's value as `number_text`.
    pub fn describe(&self, number_text: &str) -> (r: String)
        ensures
            r@ == error_text(self@, number_text@),
    {
        match self {
            CompileError::UnknownToken(t) => {
                let mut r = String::from_str("Unknown ");
                r.append(t.describe(number_text).as_str());
                r
            },
            CompileError::UnexpectedToken(t) => {
                let mut r = String::from_str("Unexpected ");
                r.append(t.describe(number_text).as_str());
                r
            },
            CompileError::UnexpectedEnd => String::from_str("Unexpected end"),
        }
    }
}

} // verus!
