//! What std's conversions into `String` and `Vec<u8>` give, for the
//! conversions that the message constructors meet most: a value into its own
//! type, and a string slice into a `String`.

use vstd::prelude::*;

verus! {

/// std's blanket `impl<T> From<T> for T`, whose documentation says it
/// returns the argument unchanged. Through `Into`, this is what `text` does
/// with a `String` and what `binary` does with a `Vec<u8>`.
pub assume_specification<X>[ <X as std::convert::From<X>>::from ](t: X) -> (r: X)
    ensures
        r == t,
;

/// std's `impl From<&str> for String`: a `String` with the same characters
/// as the slice.
pub assume_specification<'a, 'b>[ <std::string::String as std::convert::From<&'a str>>::from ](
    s: &'b str,
) -> (r: std::string::String)
    ensures
        r@ == s@,
;

} // verus!
