//! Character classes used by the scanner.
use vstd::prelude::*;

verus! {

/// The code points with the Unicode `White_Space` property.
pub open spec fn white_space_char(c: char) -> bool {
    let n = c as u32;
    ||| 0x9 <= n <= 0xd
    ||| n == 0x20
    ||| n == 0x85
    ||| n == 0xa0
    ||| n == 0x1680
    ||| 0x2000 <= n <= 0x200a
    ||| n == 0x2028
    ||| n == 0x2029
    ||| n == 0x202f
    ||| n == 0x205f
    ||| n == 0x3000
}

/// The characters that start a symbol: `[ ] , . + - * / = < > & | ( ) ? : #`.
pub open spec fn symbol_char(c: char) -> bool {
    ||| c == '['
    ||| c == ']'
    ||| c == ','
    ||| c == '.'
    ||| c == '+'
    ||| c == '-'
    ||| c == '*'
    ||| c == '/'
    ||| c == '='
    ||| c == '<'
    ||| c == '>'
    ||| c == '&'
    ||| c == '|'
    ||| c == '('
    ||| c == ')'
    ||| c == '?'
    ||| c == ':'
    ||| c == '#'
}

/// Whether `c` is white space, by the Unicode `White_Space` property.
pub fn is_white_space(c: char) -> (r: bool)
    ensures
        r == white_space_char(c),
{
    let n = c as u32;
    (0x9 <= n && n <= 0xd) || n == 0x20 || n == 0x85 || n == 0xa0 || n == 0x1680
        || (0x2000 <= n && n <= 0x200a) || n == 0x2028 || n == 0x2029 || n == 0x202f
        || n == 0x205f || n == 0x3000
}

/// Whether `c` is one of the characters that start a symbol.
pub fn is_symbol_char(c: char) -> (r: bool)
    ensures
        r == symbol_char(c),
{
    match c {
        '[' | ']' | ',' | '.' | '+' | '-' | '*' | '/' | '=' | '<' | '>' | '&' | '|' | '('
        | ')' | '?' | ':' | '#' => true,
        _ => false,
    }
}

} // verus!
