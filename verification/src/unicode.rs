//! The one std function the interpreter needs that vstd does not
//! specify: turning a decoded code point into a `char`.

use vstd::prelude::*;

verus! {

/// Relies on `char::from_u32` of std: it returns `Some` exactly for the
/// Unicode scalar values (code points up to 0x10FFFF that are not UTF-16
/// surrogates), and the character it returns has that code point.
pub assume_specification[ char::from_u32 ](v: u32) -> (r: Option<char>)
    ensures
        (r is Some) <==> (v < 0xd800 || (0xe000 <= v && v <= 0x10ffff)),
        (r is Some) ==> r->0 == v as char,
;

} // verus!
