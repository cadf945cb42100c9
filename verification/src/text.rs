//! Contracts for the standard-library text routines that the glyph packer
//! calls and that come without a specification of their own.

use vstd::prelude::*;

verus! {

/// Whether `code` is a Unicode scalar value: a code point up to U+10FFFF
/// that is not a surrogate.
pub open spec fn is_scalar_value(code: u32) -> bool {
    code <= 0xD7FF || (0xE000 <= code && code <= 0x10FFFF)
}

/// `char::from_u32`: believed, not proved. The standard library documents
/// that it yields the character with the given code exactly when the code
/// is a Unicode scalar value, and `None` otherwise.
pub assume_specification[ char::from_u32 ](code: u32) -> (found: Option<char>)
    ensures
        is_scalar_value(code) ==> found == Some(code as char),
        !is_scalar_value(code) ==> found.is_none(),
;

/// `String::push`: believed, not proved. The standard library documents
/// that it appends the given character to the end of the string.
pub assume_specification[ String::push ](text: &mut String, c: char)
    ensures
        final(text)@ == old(text)@.push(c),
;

} // verus!
