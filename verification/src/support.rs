//! Specifications for the few std operations this crate uses that vstd does
//! not yet specify.
use vstd::prelude::*;

verus! {

/// Relies on `String::push`: appends exactly the given character.
pub assume_specification[ std::string::String::push ](s: &mut String, c: char)
    ensures
        final(s)@ == old(s)@.push(c),
;

/// Relies on `char::from_u32`: `Some` exactly for Unicode scalar values,
/// that is everything below 0x110000 except the surrogate range.
pub assume_specification[ char::from_u32 ](v: u32) -> (r: Option<char>)
    ensures
        r == (if v < 0xD800 || (0xE000 <= v && v < 0x110000) {
            Some(v as char)
        } else {
            None::<char>
        }),
;

} // verus!
