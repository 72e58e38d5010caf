//! The bounds within which a body is handed to the JSON parser.
//!
//! The parser keeps the names of the objects it is inside of in one buffer
//! with 16-bit positions, counts the digits of an exponent in a machine word,
//! and mistakes a comma before a closing brace for the end of the enclosing
//! value. A body is parsed only if one pass over its bytes shows that none of
//! this can happen: objects and arrays nest at most `MAX_DEPTH` deep, a name
//! takes at most `MAX_NAME` bytes, an exponent has at most
//! `MAX_EXPONENT_DIGITS` digits, and no comma stands before a closing brace.
//! No well-formed JSON text is refused for the last reason.

use vstd::prelude::*;

verus! {

/// How deep objects and arrays may nest.
pub const MAX_DEPTH: usize = 128;

/// How many bytes the text of a name may take between its quotes.
pub const MAX_NAME: usize = 511;

/// How many digits an exponent may have.
pub const MAX_EXPONENT_DIGITS: usize = 9;

/// How many bytes a body may have.
pub const MAX_BODY: usize = 4294967295;

pub const QUOTE: u8 = 34;

pub const BACKSLASH: u8 = 92;

pub const COLON: u8 = 58;

pub const COMMA: u8 = 44;

pub const OPEN_BRACE: u8 = 123;

pub const CLOSE_BRACE: u8 = 125;

pub const OPEN_BRACKET: u8 = 91;

pub const CLOSE_BRACKET: u8 = 93;

pub const LOWER_E: u8 = 101;

pub const UPPER_E: u8 = 69;

pub const PLUS: u8 = 43;

pub const MINUS: u8 = 45;

/// What one pass over a body knows after some of its bytes.
#[derive(Clone, Copy, Debug)]
pub struct Scan {
    /// The last byte was inside a string literal.
    pub in_string: bool,
    /// The last byte was a backslash inside a string literal.
    pub escaped: bool,
    /// The bytes of the current or last string literal, counted up to one
    /// more than `MAX_NAME`.
    pub literal: usize,
    /// A string literal has ended and only white space has followed.
    pub closed: bool,
    /// A comma has been read and only white space has followed.
    pub after_comma: bool,
    /// An `e` or `E` has been read outside a string, and only signs and
    /// digits have followed.
    pub in_exponent: bool,
    /// The digits read since that `e` or `E`.
    pub digits: usize,
    /// The objects and arrays that are open.
    pub depth: usize,
    /// No bound was exceeded so far.
    pub ok: bool,
}

/// The state before the first byte.
pub open spec fn start() -> Scan {
    Scan {
        in_string: false,
        escaped: false,
        literal: 0,
        closed: false,
        after_comma: false,
        in_exponent: false,
        digits: 0,
        depth: 0,
        ok: true,
    }
}

/// The white space that the parser skips.
pub open spec fn is_white(b: u8) -> bool {
    b == 32 || b == 10 || b == 9 || b == 13
}

/// A decimal digit.
pub open spec fn is_digit(b: u8) -> bool {
    48 <= b <= 57
}

/// A literal's length after one more byte, counted up to `MAX_NAME + 1`.
pub open spec fn grown(literal: usize) -> usize {
    if literal <= MAX_NAME {
        (literal + 1) as usize
    } else {
        literal
    }
}

/// The depth after a closing brace or bracket.
pub open spec fn lowered(depth: usize) -> usize {
    if depth > 0 {
        (depth - 1) as usize
    } else {
        depth
    }
}

/// The state after a byte outside a string literal that is no white space
/// and that follows nothing of interest.
pub open spec fn cleared(s: Scan) -> Scan {
    Scan { closed: false, after_comma: false, in_exponent: false, digits: 0, ..s }
}

/// The state after one more byte.
///
/// Inside a string literal every byte counts towards the literal's length,
/// a backslash takes the next byte with it, and a quote ends the literal.
/// Outside, a colon after a literal makes that literal a name, which must
/// not be longer than `MAX_NAME`; an opening brace or bracket must not go
/// deeper than `MAX_DEPTH`; a closing brace must not follow a comma; and a
/// digit of an exponent must not be one more than `MAX_EXPONENT_DIGITS`.
/// Once a bound is exceeded the state stays as it is.
pub open spec fn step(s: Scan, b: u8) -> Scan {
    if !s.ok {
        s
    } else if s.in_string {
        if s.escaped {
            Scan { escaped: false, literal: grown(s.literal), ..s }
        } else if b == BACKSLASH {
            Scan { escaped: true, literal: grown(s.literal), ..s }
        } else if b == QUOTE {
            Scan { in_string: false, closed: true, ..s }
        } else {
            Scan { literal: grown(s.literal), ..s }
        }
    } else if is_white(b) {
        Scan { in_exponent: false, digits: 0, ..s }
    } else if b == QUOTE {
        Scan { in_string: true, escaped: false, literal: 0, ..cleared(s) }
    } else if b == COLON {
        Scan { ok: !s.closed || s.literal <= MAX_NAME, ..cleared(s) }
    } else if b == COMMA {
        Scan { after_comma: true, ..cleared(s) }
    } else if b == OPEN_BRACE || b == OPEN_BRACKET {
        if s.depth < MAX_DEPTH {
            Scan { depth: (s.depth + 1) as usize, ..cleared(s) }
        } else {
            Scan { ok: false, ..cleared(s) }
        }
    } else if b == CLOSE_BRACE {
        Scan { ok: !s.after_comma, depth: lowered(s.depth), ..cleared(s) }
    } else if b == CLOSE_BRACKET {
        Scan { depth: lowered(s.depth), ..cleared(s) }
    } else if b == LOWER_E || b == UPPER_E {
        Scan { in_exponent: true, ..cleared(s) }
    } else if (b == PLUS || b == MINUS) && s.in_exponent && s.digits == 0 {
        Scan { in_exponent: true, ..cleared(s) }
    } else if is_digit(b) && s.in_exponent {
        if s.digits < MAX_EXPONENT_DIGITS {
            Scan { in_exponent: true, digits: (s.digits + 1) as usize, ..cleared(s) }
        } else {
            Scan { ok: false, ..cleared(s) }
        }
    } else {
        cleared(s)
    }
}

/// The state after the first `upto` bytes of a body.
pub open spec fn scan(bytes: Seq<u8>, upto: int) -> Scan
    decreases upto,
{
    if upto <= 0 {
        start()
    } else {
        step(scan(bytes, upto - 1), bytes[upto - 1])
    }
}

/// Whether a body is within the bounds: it is not longer than `MAX_BODY`,
/// and a pass over all its bytes exceeds no bound.
pub open spec fn within_limits(bytes: Seq<u8>) -> bool {
    bytes.len() <= MAX_BODY && scan(bytes, bytes.len() as int).ok
}

/// The state after one more byte.
pub fn advance(s: Scan, b: u8) -> (r: Scan)
    ensures
        r == step(s, b),
{
    let grown: usize = if s.literal <= MAX_NAME {
        s.literal + 1
    } else {
        s.literal
    };
    let lowered: usize = if s.depth > 0 {
        s.depth - 1
    } else {
        s.depth
    };
    let cleared = Scan { closed: false, after_comma: false, in_exponent: false, digits: 0, ..s };
    if !s.ok {
        s
    } else if s.in_string {
        if s.escaped {
            Scan { escaped: false, literal: grown, ..s }
        } else if b == BACKSLASH {
            Scan { escaped: true, literal: grown, ..s }
        } else if b == QUOTE {
            Scan { in_string: false, closed: true, ..s }
        } else {
            Scan { literal: grown, ..s }
        }
    } else if b == 32 || b == 10 || b == 9 || b == 13 {
        Scan { in_exponent: false, digits: 0, ..s }
    } else if b == QUOTE {
        Scan { in_string: true, escaped: false, literal: 0, ..cleared }
    } else if b == COLON {
        Scan { ok: !s.closed || s.literal <= MAX_NAME, ..cleared }
    } else if b == COMMA {
        Scan { after_comma: true, ..cleared }
    } else if b == OPEN_BRACE || b == OPEN_BRACKET {
        if s.depth < MAX_DEPTH {
            Scan { depth: s.depth + 1, ..cleared }
        } else {
            Scan { ok: false, ..cleared }
        }
    } else if b == CLOSE_BRACE {
        Scan { ok: !s.after_comma, depth: lowered, ..cleared }
    } else if b == CLOSE_BRACKET {
        Scan { depth: lowered, ..cleared }
    } else if b == LOWER_E || b == UPPER_E {
        Scan { in_exponent: true, ..cleared }
    } else if (b == PLUS || b == MINUS) && s.in_exponent && s.digits == 0 {
        Scan { in_exponent: true, ..cleared }
    } else if 48 <= b && b <= 57 && s.in_exponent {
        if s.digits < MAX_EXPONENT_DIGITS {
            Scan { in_exponent: true, digits: s.digits + 1, ..cleared }
        } else {
            Scan { ok: false, ..cleared }
        }
    } else {
        cleared
    }
}

/// Tests whether a body is within the bounds.
pub fn check_limits(bytes: &[u8]) -> (r: bool)
    ensures
        r == within_limits(bytes@),
{
    if bytes.len() > MAX_BODY {
        return false;
    }
    let mut s = Scan {
        in_string: false,
        escaped: false,
        literal: 0,
        closed: false,
        after_comma: false,
        in_exponent: false,
        digits: 0,
        depth: 0,
        ok: true,
    };
    let mut i: usize = 0;
    while i < bytes.len()
        invariant
            i <= bytes.len(),
            s == scan(bytes@, i as int),
        decreases bytes.len() - i,
    {
        s = advance(s, bytes[i]);
        i += 1;
    }
    s.ok
}

} // verus!
