//! Character classes of the DSRV token grammar.
//!
//! `\s` and `\d` in the grammar are the Unicode classes `White_Space` and
//! `Decimal_Number` (Unicode 16.0.0); identifiers are ASCII.

use vstd::prelude::*;

verus! {

/// Unicode `White_Space` property.
pub open spec fn is_unicode_whitespace(c: char) -> bool {
    let v = c as u32;
    (0x9 <= v && v <= 0xD)
    || v == 0x20
    || v == 0x85
    || v == 0xA0
    || v == 0x1680
    || (0x2000 <= v && v <= 0x200A)
    || (0x2028 <= v && v <= 0x2029)
    || v == 0x202F
    || v == 0x205F
    || v == 0x3000
}

/// Executable test of [`is_unicode_whitespace`].
pub fn is_unicode_whitespace_exec(c: char) -> (r: bool)
    ensures
        r == is_unicode_whitespace(c),
{
    let v: u32 = c as u32;
    (0x9 <= v && v <= 0xD)
    || v == 0x20
    || v == 0x85
    || v == 0xA0
    || v == 0x1680
    || (0x2000 <= v && v <= 0x200A)
    || (0x2028 <= v && v <= 0x2029)
    || v == 0x202F
    || v == 0x205F
    || v == 0x3000
}

/// Unicode general category `Nd` (decimal number).
pub open spec fn is_decimal_digit(c: char) -> bool {
    let v = c as u32;
    (0x30 <= v && v <= 0x39)
    || (0x660 <= v && v <= 0x669)
    || (0x6F0 <= v && v <= 0x6F9)
    || (0x7C0 <= v && v <= 0x7C9)
    || (0x966 <= v && v <= 0x96F)
    || (0x9E6 <= v && v <= 0x9EF)
    || (0xA66 <= v && v <= 0xA6F)
    || (0xAE6 <= v && v <= 0xAEF)
    || (0xB66 <= v && v <= 0xB6F)
    || (0xBE6 <= v && v <= 0xBEF)
    || (0xC66 <= v && v <= 0xC6F)
    || (0xCE6 <= v && v <= 0xCEF)
    || (0xD66 <= v && v <= 0xD6F)
    || (0xDE6 <= v && v <= 0xDEF)
    || (0xE50 <= v && v <= 0xE59)
    || (0xED0 <= v && v <= 0xED9)
    || (0xF20 <= v && v <= 0xF29)
    || (0x1040 <= v && v <= 0x1049)
    || (0x1090 <= v && v <= 0x1099)
    || (0x17E0 <= v && v <= 0x17E9)
    || (0x1810 <= v && v <= 0x1819)
    || (0x1946 <= v && v <= 0x194F)
    || (0x19D0 <= v && v <= 0x19D9)
    || (0x1A80 <= v && v <= 0x1A89)
    || (0x1A90 <= v && v <= 0x1A99)
    || (0x1B50 <= v && v <= 0x1B59)
    || (0x1BB0 <= v && v <= 0x1BB9)
    || (0x1C40 <= v && v <= 0x1C49)
    || (0x1C50 <= v && v <= 0x1C59)
    || (0xA620 <= v && v <= 0xA629)
    || (0xA8D0 <= v && v <= 0xA8D9)
    || (0xA900 <= v && v <= 0xA909)
    || (0xA9D0 <= v && v <= 0xA9D9)
    || (0xA9F0 <= v && v <= 0xA9F9)
    || (0xAA50 <= v && v <= 0xAA59)
    || (0xABF0 <= v && v <= 0xABF9)
    || (0xFF10 <= v && v <= 0xFF19)
    || (0x104A0 <= v && v <= 0x104A9)
    || (0x10D30 <= v && v <= 0x10D39)
    || (0x10D40 <= v && v <= 0x10D49)
    || (0x11066 <= v && v <= 0x1106F)
    || (0x110F0 <= v && v <= 0x110F9)
    || (0x11136 <= v && v <= 0x1113F)
    || (0x111D0 <= v && v <= 0x111D9)
    || (0x112F0 <= v && v <= 0x112F9)
    || (0x11450 <= v && v <= 0x11459)
    || (0x114D0 <= v && v <= 0x114D9)
    || (0x11650 <= v && v <= 0x11659)
    || (0x116C0 <= v && v <= 0x116C9)
    || (0x116D0 <= v && v <= 0x116E3)
    || (0x11730 <= v && v <= 0x11739)
    || (0x118E0 <= v && v <= 0x118E9)
    || (0x11950 <= v && v <= 0x11959)
    || (0x11BF0 <= v && v <= 0x11BF9)
    || (0x11C50 <= v && v <= 0x11C59)
    || (0x11D50 <= v && v <= 0x11D59)
    || (0x11DA0 <= v && v <= 0x11DA9)
    || (0x11F50 <= v && v <= 0x11F59)
    || (0x16130 <= v && v <= 0x16139)
    || (0x16A60 <= v && v <= 0x16A69)
    || (0x16AC0 <= v && v <= 0x16AC9)
    || (0x16B50 <= v && v <= 0x16B59)
    || (0x16D70 <= v && v <= 0x16D79)
    || (0x1CCF0 <= v && v <= 0x1CCF9)
    || (0x1D7CE <= v && v <= 0x1D7FF)
    || (0x1E140 <= v && v <= 0x1E149)
    || (0x1E2F0 <= v && v <= 0x1E2F9)
    || (0x1E4F0 <= v && v <= 0x1E4F9)
    || (0x1E5F1 <= v && v <= 0x1E5FA)
    || (0x1E950 <= v && v <= 0x1E959)
    || (0x1FBF0 <= v && v <= 0x1FBF9)
}

/// Executable test of [`is_decimal_digit`].
pub fn is_decimal_digit_exec(c: char) -> (r: bool)
    ensures
        r == is_decimal_digit(c),
{
    let v: u32 = c as u32;
    (0x30 <= v && v <= 0x39)
    || (0x660 <= v && v <= 0x669)
    || (0x6F0 <= v && v <= 0x6F9)
    || (0x7C0 <= v && v <= 0x7C9)
    || (0x966 <= v && v <= 0x96F)
    || (0x9E6 <= v && v <= 0x9EF)
    || (0xA66 <= v && v <= 0xA6F)
    || (0xAE6 <= v && v <= 0xAEF)
    || (0xB66 <= v && v <= 0xB6F)
    || (0xBE6 <= v && v <= 0xBEF)
    || (0xC66 <= v && v <= 0xC6F)
    || (0xCE6 <= v && v <= 0xCEF)
    || (0xD66 <= v && v <= 0xD6F)
    || (0xDE6 <= v && v <= 0xDEF)
    || (0xE50 <= v && v <= 0xE59)
    || (0xED0 <= v && v <= 0xED9)
    || (0xF20 <= v && v <= 0xF29)
    || (0x1040 <= v && v <= 0x1049)
    || (0x1090 <= v && v <= 0x1099)
    || (0x17E0 <= v && v <= 0x17E9)
    || (0x1810 <= v && v <= 0x1819)
    || (0x1946 <= v && v <= 0x194F)
    || (0x19D0 <= v && v <= 0x19D9)
    || (0x1A80 <= v && v <= 0x1A89)
    || (0x1A90 <= v && v <= 0x1A99)
    || (0x1B50 <= v && v <= 0x1B59)
    || (0x1BB0 <= v && v <= 0x1BB9)
    || (0x1C40 <= v && v <= 0x1C49)
    || (0x1C50 <= v && v <= 0x1C59)
    || (0xA620 <= v && v <= 0xA629)
    || (0xA8D0 <= v && v <= 0xA8D9)
    || (0xA900 <= v && v <= 0xA909)
    || (0xA9D0 <= v && v <= 0xA9D9)
    || (0xA9F0 <= v && v <= 0xA9F9)
    || (0xAA50 <= v && v <= 0xAA59)
    || (0xABF0 <= v && v <= 0xABF9)
    || (0xFF10 <= v && v <= 0xFF19)
    || (0x104A0 <= v && v <= 0x104A9)
    || (0x10D30 <= v && v <= 0x10D39)
    || (0x10D40 <= v && v <= 0x10D49)
    || (0x11066 <= v && v <= 0x1106F)
    || (0x110F0 <= v && v <= 0x110F9)
    || (0x11136 <= v && v <= 0x1113F)
    || (0x111D0 <= v && v <= 0x111D9)
    || (0x112F0 <= v && v <= 0x112F9)
    || (0x11450 <= v && v <= 0x11459)
    || (0x114D0 <= v && v <= 0x114D9)
    || (0x11650 <= v && v <= 0x11659)
    || (0x116C0 <= v && v <= 0x116C9)
    || (0x116D0 <= v && v <= 0x116E3)
    || (0x11730 <= v && v <= 0x11739)
    || (0x118E0 <= v && v <= 0x118E9)
    || (0x11950 <= v && v <= 0x11959)
    || (0x11BF0 <= v && v <= 0x11BF9)
    || (0x11C50 <= v && v <= 0x11C59)
    || (0x11D50 <= v && v <= 0x11D59)
    || (0x11DA0 <= v && v <= 0x11DA9)
    || (0x11F50 <= v && v <= 0x11F59)
    || (0x16130 <= v && v <= 0x16139)
    || (0x16A60 <= v && v <= 0x16A69)
    || (0x16AC0 <= v && v <= 0x16AC9)
    || (0x16B50 <= v && v <= 0x16B59)
    || (0x16D70 <= v && v <= 0x16D79)
    || (0x1CCF0 <= v && v <= 0x1CCF9)
    || (0x1D7CE <= v && v <= 0x1D7FF)
    || (0x1E140 <= v && v <= 0x1E149)
    || (0x1E2F0 <= v && v <= 0x1E2F9)
    || (0x1E4F0 <= v && v <= 0x1E4F9)
    || (0x1E5F1 <= v && v <= 0x1E5FA)
    || (0x1E950 <= v && v <= 0x1E959)
    || (0x1FBF0 <= v && v <= 0x1FBF9)
}

} // verus!
