use lexer::chars::{is_symbol_char, is_white_space};
use lexer::{CompileError, Lexer, Token};

fn sym(s: &str) -> Token {
    Token::Symbol(s.to_string())
}

fn drain(input: &str) -> Vec<Result<Token, CompileError>> {
    let mut l = Lexer::new(input);
    let mut out = Vec::new();
    while let Some(r) = l.next() {
        out.push(r);
    }
    out
}

#[test]
fn plus_then_end() {
    let mut l = Lexer::new("+");
    assert_eq!(l.next(), Some(Ok(sym("+"))));
    assert_eq!(l.next(), None);
}

#[test]
fn less_equal_then_end() {
    let mut l = Lexer::new("<=");
    assert_eq!(l.next(), Some(Ok(sym("<="))));
    assert_eq!(l.next(), None);
}

#[test]
fn less_then_name_character() {
    let mut l = Lexer::new("<x");
    assert_eq!(l.next(), Some(Ok(sym("<"))));
    assert_eq!(l.next(), Some(Err(CompileError::UnknownToken(sym("x")))));
    assert_eq!(l.next(), None);
}

#[test]
fn unknown_character_is_read() {
    let mut l = Lexer::new("@");
    assert_eq!(l.next(), Some(Err(CompileError::UnknownToken(sym("@")))));
    assert_eq!(l.next(), None);
    assert_eq!(l.next_result(), Err(CompileError::UnexpectedEnd));
}

#[test]
fn unknown_character_then_symbol() {
    assert_eq!(
        drain("@+"),
        vec![Err(CompileError::UnknownToken(sym("@"))), Ok(sym("+"))]
    );
}

#[test]
fn surrounding_white_space_is_skipped() {
    let mut l = Lexer::new("  <-  ");
    assert_eq!(l.next(), Some(Ok(sym("<-"))));
    assert_eq!(l.next(), None);
}

#[test]
fn white_space_only_is_end() {
    for input in ["", " ", "   ", "\t\n\r", "\u{3000}\u{a0} \u{2028}"] {
        let mut l = Lexer::new(input);
        assert_eq!(l.peek(), None);
        assert_eq!(l.peek_result(), Err(CompileError::UnexpectedEnd));
        assert_eq!(l.next(), None);
        assert_eq!(l.next(), None);
        assert_eq!(l.next_result(), Err(CompileError::UnexpectedEnd));
        assert!(drain(input).is_empty());
    }
}

#[test]
fn peek_twice_reports_the_same() {
    let mut l = Lexer::new(" >= +");
    let first = l.peek();
    let second = l.peek();
    assert_eq!(first, Some(Ok(sym(">="))));
    assert_eq!(first, second);
    assert_eq!(l.peek_result(), Ok(sym(">=")));
    assert_eq!(l.next(), Some(Ok(sym(">="))));
    assert_eq!(l.next(), Some(Ok(sym("+"))));
    assert_eq!(l.next(), None);
}

#[test]
fn peek_of_an_error_is_held() {
    let mut l = Lexer::new("$ ]");
    assert_eq!(l.peek(), Some(Err(CompileError::UnknownToken(sym("$")))));
    assert_eq!(l.peek(), Some(Err(CompileError::UnknownToken(sym("$")))));
    assert_eq!(l.next_result(), Err(CompileError::UnknownToken(sym("$"))));
    assert_eq!(l.next_result(), Ok(sym("]")));
}

#[test]
fn peek_then_advance_neither_skips_nor_repeats() {
    let input = "( a <> b ) # <= > = ?";
    let mut plain = Lexer::new(input);
    let mut peeking = Lexer::new(input);
    loop {
        let seen = peeking.peek();
        let taken = peeking.next();
        assert_eq!(seen, taken);
        assert_eq!(plain.next(), taken);
        if taken.is_none() {
            break;
        }
    }
}

#[test]
fn two_character_symbols_alone() {
    for s in ["<-", "<=", "<>", ">="] {
        let mut l = Lexer::new(s);
        assert_eq!(l.next_result(), Ok(sym(s)));
        assert_eq!(l.next(), None);
    }
}

#[test]
fn leading_character_followed_by_another() {
    assert_eq!(drain("<<"), vec![Ok(sym("<")), Ok(sym("<"))]);
    assert_eq!(drain("<+"), vec![Ok(sym("<")), Ok(sym("+"))]);
    assert_eq!(drain("< ="), vec![Ok(sym("<")), Ok(sym("="))]);
    assert_eq!(drain(">>"), vec![Ok(sym(">")), Ok(sym(">"))]);
    assert_eq!(drain(">-"), vec![Ok(sym(">")), Ok(sym("-"))]);
    assert_eq!(drain("><"), vec![Ok(sym(">")), Ok(sym("<"))]);
    assert_eq!(drain("<"), vec![Ok(sym("<"))]);
    assert_eq!(drain(">"), vec![Ok(sym(">"))]);
}

#[test]
fn other_symbols_are_single_characters() {
    assert_eq!(drain("=="), vec![Ok(sym("=")), Ok(sym("="))]);
    assert_eq!(drain("->"), vec![Ok(sym("-")), Ok(sym(">"))]);
    assert_eq!(drain("&&"), vec![Ok(sym("&")), Ok(sym("&"))]);
    assert_eq!(drain("||"), vec![Ok(sym("|")), Ok(sym("|"))]);
}

#[test]
fn every_symbol_character() {
    let all = "[],.+-*/=<>&|()?:#";
    let expected: Vec<Result<Token, CompileError>> =
        all.chars().map(|c| Ok(sym(&c.to_string()))).collect();
    let spaced: String = all.chars().map(|c| format!("{} ", c)).collect();
    assert_eq!(drain(&spaced), expected);
    for c in all.chars() {
        assert!(is_symbol_char(c));
    }
}

#[test]
fn digits_and_letters_are_unknown() {
    assert_eq!(
        drain("1a"),
        vec![
            Err(CompileError::UnknownToken(sym("1"))),
            Err(CompileError::UnknownToken(sym("a")))
        ]
    );
    assert!(!is_symbol_char('a'));
    assert!(!is_symbol_char('@'));
    assert!(!is_symbol_char(' '));
}

#[test]
fn unknown_non_ascii_character() {
    assert_eq!(
        drain("é<"),
        vec![Err(CompileError::UnknownToken(sym("é"))), Ok(sym("<"))]
    );
}

#[test]
fn white_space_agrees_with_unicode() {
    for n in 0u32..=0x10FFFF {
        if let Some(c) = char::from_u32(n) {
            assert_eq!(is_white_space(c), c.is_whitespace(), "code point {:x}", n);
        }
    }
}

#[test]
fn token_descriptions() {
    assert_eq!(sym("<=").describe("0"), "symbol '<='");
    assert_eq!(Token::Name("foo".to_string()).describe("0"), "name 'foo'");
    assert_eq!(Token::Number(2.5f64.to_bits()).describe("2.5"), "number 2.5");
}

#[test]
fn error_descriptions() {
    assert_eq!(
        CompileError::UnknownToken(sym("@")).describe(""),
        "Unknown symbol '@'"
    );
    assert_eq!(
        CompileError::UnexpectedToken(Token::Name("x".to_string())).describe(""),
        "Unexpected name 'x'"
    );
    assert_eq!(CompileError::UnexpectedEnd.describe(""), "Unexpected end");
}

#[test]
fn duplicates_are_equal() {
    let t = Token::Name("abc".to_string());
    assert_eq!(t.duplicate(), t);
    let e = CompileError::UnexpectedToken(Token::Number(7));
    assert_eq!(e.duplicate(), e);
}
