//! Classification of a single input byte.
//!
//! Each byte either maps to a `(code, requires_shift)` pair or is rejected
//! with a typed failure. The decision order is fixed: the 7-bit range check
//! comes first, then uppercase letters, lowercase letters, digits, and
//! finally the punctuation table.

use vstd::prelude::*;

verus! {

/// Failure kinds of classification.
#[derive(Debug, PartialEq, Eq, Structural)]
pub enum ErrorCodes {
    /// The byte is in the supported range but has no key mapping.
    NotFound,
    /// The byte lies outside the supported ASCII range.
    OutOfRange,
}

/// Exclusive upper bound of the supported byte range.
pub const ASCII_LIMIT: u8 = 127;

/// Smallest supported byte; it doubles as the distance from a lowercase
/// letter to its uppercase key code.
pub const ASCII_MIN_AND_CASE_OFFSET: u8 = 32;

/// The fixed punctuation table: the key code for each mapped symbol byte,
/// and whether the symbol needs the shift key on a QWERTY layout.
pub open spec fn table_lookup(b: u8) -> Option<(u8, bool)> {
    // Shift not required
    if b == 0x2A { Some((0x6A, false)) }        // '*' -> multiply key
    else if b == 0x2D { Some((0x6D, false)) }   // '-' -> subtract key
    else if b == 0x3D { Some((0xBB, false)) }   // '=' -> oem plus key
    else if b == 0x2E { Some((0xBE, false)) }   // '.' -> oem period key
    else if b == 0x2F { Some((0x6F, false)) }   // '/' -> divide key
    else if b == 0x20 { Some((0x20, false)) }   // ' ' -> space key
    else if b == 0x3B { Some((0xBA, false)) }   // ';' -> oem 1 key
    else if b == 0x60 { Some((0xC0, false)) }   // '`' -> oem 3 key
    else if b == 0x5B { Some((0xDB, false)) }   // '[' -> oem 4 key
    else if b == 0x5C { Some((0xDC, false)) }   // '\' -> oem 5 key
    else if b == 0x5D { Some((0xDD, false)) }   // ']' -> oem 6 key
    else if b == 0x27 { Some((0xDE, false)) }   // '\'' -> oem 7 key
    else if b == 0x2C { Some((0xBC, false)) }   // ',' -> oem comma key
    // Shift required
    else if b == 0x21 { Some((0x31, true)) }    // '!' -> shifted '1' key
    else if b == 0x40 { Some((0x32, true)) }    // '@' -> shifted '2' key
    else if b == 0x23 { Some((0x33, true)) }    // '#' -> shifted '3' key
    else if b == 0x24 { Some((0x34, true)) }    // '$' -> shifted '4' key
    else if b == 0x25 { Some((0x35, true)) }    // '%' -> shifted '5' key
    else if b == 0x5E { Some((0x36, true)) }    // '^' -> shifted '6' key
    else if b == 0x26 { Some((0x37, true)) }    // '&' -> shifted '7' key
    else if b == 0x28 { Some((0x39, true)) }    // '(' -> shifted '9' key
    else if b == 0x29 { Some((0x30, true)) }    // ')' -> shifted '0' key
    else if b == 0x2B { Some((0xBB, true)) }    // '+' -> shifted oem plus key
    else if b == 0x3A { Some((0xBA, true)) }    // ':' -> shifted oem 1 key
    else if b == 0x3F { Some((0xBF, true)) }    // '?' -> shifted oem 2 key
    else if b == 0x7E { Some((0xC0, true)) }    // '~' -> shifted oem 3 key
    else if b == 0x7B { Some((0xDB, true)) }    // '{' -> shifted oem 4 key
    else if b == 0x7D { Some((0xDD, true)) }    // '}' -> shifted oem 6 key
    else if b == 0x7C { Some((0xDC, true)) }    // '|' -> shifted oem 5 key
    else if b == 0x22 { Some((0xDE, true)) }    // '"' -> shifted oem 7 key
    else if b == 0x3C { Some((0xBC, true)) }    // '<' -> shifted oem comma key
    else if b == 0x3E { Some((0xBE, true)) }    // '>' -> shifted oem period key
    else if b == 0x5F { Some((0xBD, true)) }    // '_' -> shifted oem minus key
    else { None }
}

/// What `classify` decides for one byte, in the fixed priority order.
pub open spec fn classify(b: u8) -> Result<(u8, bool), ErrorCodes> {
    if b >= ASCII_LIMIT || b < ASCII_MIN_AND_CASE_OFFSET {
        Err(ErrorCodes::OutOfRange)
    } else if 0x41 <= b && b <= 0x5A {
        // Uppercase letters map to their own value and need shift.
        Ok((b, true))
    } else if 0x61 <= b && b <= 0x7A {
        // Lowercase letters map to the uppercase code, no shift.
        Ok((((b - ASCII_MIN_AND_CASE_OFFSET) as u8), false))
    } else if 0x30 <= b && b <= 0x39 {
        // Digits map to their own value, no shift.
        Ok((b, false))
    } else {
        match table_lookup(b) {
            Some(pair) => Ok(pair),
            None => Err(ErrorCodes::NotFound),
        }
    }
}

/// The bytes of the punctuation table, written out as a set of literals so
/// that statements about coverage do not lean on `table_lookup` itself.
pub open spec fn punctuation_byte(b: u8) -> bool {
    b == 0x20 || b == 0x21 || b == 0x22 || b == 0x23 || b == 0x24 || b == 0x25
        || b == 0x26 || b == 0x27 || b == 0x28 || b == 0x29 || b == 0x2A
        || b == 0x2B || b == 0x2C || b == 0x2D || b == 0x2E || b == 0x2F
        || b == 0x3A || b == 0x3B || b == 0x3C || b == 0x3D || b == 0x3E
        || b == 0x3F || b == 0x40 || b == 0x5B || b == 0x5C || b == 0x5D
        || b == 0x5E || b == 0x5F || b == 0x60 || b == 0x7B || b == 0x7C
        || b == 0x7D || b == 0x7E
}

/// The bytes for which classification is owed a `(code, requires_shift)`
/// answer: letters, digits, and the punctuation table.
pub open spec fn supported_byte(b: u8) -> bool {
    (0x41 <= b && b <= 0x5A) || (0x61 <= b && b <= 0x7A)
        || (0x30 <= b && b <= 0x39) || punctuation_byte(b)
}

/// Classification succeeds exactly on the supported bytes; every other byte
/// fails, with the kind fixed by the range rule: outside `[32, 127)` the
/// failure is `OutOfRange`, inside it `NotFound`.
pub proof fn lemma_classification_total(b: u8)
    ensures
        supported_byte(b) <==> classify(b) is Ok,
        b >= ASCII_LIMIT || b < ASCII_MIN_AND_CASE_OFFSET ==> classify(b) == Err::<(u8, bool),
            ErrorCodes>(ErrorCodes::OutOfRange),
        ASCII_MIN_AND_CASE_OFFSET <= b && b < ASCII_LIMIT && !supported_byte(b) ==> classify(b)
            == Err::<(u8, bool), ErrorCodes>(ErrorCodes::NotFound),
{
}

/// Decide which category one byte falls into.
pub fn classify_byte(b: u8) -> (r: Result<(u8, bool), ErrorCodes>)
    ensures
        r == classify(b),
{
    if b >= ASCII_LIMIT || b < ASCII_MIN_AND_CASE_OFFSET {
        Err(ErrorCodes::OutOfRange)
    } else if 0x41 <= b && b <= 0x5A {
        Ok((b, true))
    } else if 0x61 <= b && b <= 0x7A {
        Ok((b - ASCII_MIN_AND_CASE_OFFSET, false))
    } else if 0x30 <= b && b <= 0x39 {
        Ok((b, false))
    } else {
        match lookup_punctuation(b) {
            Some(pair) => Ok(pair),
            None => Err(ErrorCodes::NotFound),
        }
    }
}

/// Look one byte up in the punctuation table.
pub fn lookup_punctuation(b: u8) -> (r: Option<(u8, bool)>)
    ensures
        r == table_lookup(b),
{
    match b {
        0x2A => Some((0x6A, false)),
        0x2D => Some((0x6D, false)),
        0x3D => Some((0xBB, false)),
        0x2E => Some((0xBE, false)),
        0x2F => Some((0x6F, false)),
        0x20 => Some((0x20, false)),
        0x3B => Some((0xBA, false)),
        0x60 => Some((0xC0, false)),
        0x5B => Some((0xDB, false)),
        0x5C => Some((0xDC, false)),
        0x5D => Some((0xDD, false)),
        0x27 => Some((0xDE, false)),
        0x2C => Some((0xBC, false)),
        0x21 => Some((0x31, true)),
        0x40 => Some((0x32, true)),
        0x23 => Some((0x33, true)),
        0x24 => Some((0x34, true)),
        0x25 => Some((0x35, true)),
        0x5E => Some((0x36, true)),
        0x26 => Some((0x37, true)),
        0x28 => Some((0x39, true)),
        0x29 => Some((0x30, true)),
        0x2B => Some((0xBB, true)),
        0x3A => Some((0xBA, true)),
        0x3F => Some((0xBF, true)),
        0x7E => Some((0xC0, true)),
        0x7B => Some((0xDB, true)),
        0x7D => Some((0xDD, true)),
        0x7C => Some((0xDC, true)),
        0x22 => Some((0xDE, true)),
        0x3C => Some((0xBC, true)),
        0x3E => Some((0xBE, true)),
        0x5F => Some((0xBD, true)),
        _ => None,
    }
}

} // verus!
