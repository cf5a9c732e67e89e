//! Tokens and their mathematical model.
use vstd::prelude::*;

verus! {

/// One lexical unit of source text.
#[derive(Clone, PartialEq, Debug)]
pub enum Token {
    /// A numeric literal, held as the bit pattern of its IEEE-754 binary64 value.
    Number(u64),
    /// An identifier.
    Name(String),
    /// One or two punctuation characters forming an operator or delimiter.
    Symbol(String),
}

/// The model of a [`Token`]: strings are seen as their characters.
pub enum TokenView {
    Number(u64),
    Name(Seq<char>),
    Symbol(Seq<char>),
}

impl View for Token {
    type V = TokenView;

    open spec fn view(&self) -> TokenView {
        match self {
            Token::Number(bits) => TokenView::Number(*bits),
            Token::Name(s) => TokenView::Name(s@),
            Token::Symbol(s) => TokenView::Symbol(s@),
        }
    }
}

/// How a token is named in a diagnostic; `number_text` renders a number's value.
pub open spec fn token_text(t: TokenView, number_text: Seq<char>) -> Seq<char> {
    match t {
        TokenView::Number(_) => "number "@ + number_text,
        TokenView::Name(s) => "name '"@ + s + "'"@,
        TokenView::Symbol(s) => "symbol '"@ + s + "'"@,
    }
}

/// Relies on String::push: the character is appended at the end.
#[verifier::external_body]
pub(crate) fn push_char(s: &mut String, c: char)
    ensures
        final(s)@ == old(s)@.push(c),
{
    s.push(c);
}

/// The text `"<prefix>'<body>'"`.
fn quoted(prefix: &str, body: &String) -> (r: String)
    ensures
        r@ == prefix@ + body@ + "'"@,
{
    let mut r = String::from_str(prefix);
    r.append(body.as_str());
    r.append("'");
    r
}

impl Token {
    /// A copy of this token.
    pub fn duplicate(&self) -> (r: Token)
        ensures
            r == *self,
    {
        match self {
            Token::Number(bits) => Token::Number(*bits),
            Token::Name(s) => Token::Name(s.clone()),
            Token::Symbol(s) => Token::Symbol(s.clone()),
        }
    }

    /// The token as named in a diagnostic: `number <n>`, `name '<s>'` or
    /// `symbol '<s>'`. The caller renders a number's value as `number_text`.
    pub fn describe(&self, number_text: &str) -> (r: String)
        ensures
            r@ == token_text(self@, number_text@),
    {
        match self {
            Token::Number(_) => {
                let mut r = String::from_str("number ");
                r.append(number_text);
                r
            },
            Token::Name(s) => quoted("name '", s),
            Token::Symbol(s) => quoted("symbol '", s),
        }
    }
}

} // verus!
