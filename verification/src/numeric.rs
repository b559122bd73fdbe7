//! Contracts for the methods of `u8` and `u16` that the instructions call and
//! that vstd leaves without a specification. Each states what the standard
//! library documentation of the method says.

use vstd::prelude::*;

verus! {

/// `u8::overflowing_add`: the sum wrapped to 8 bits, and whether the
/// mathematical sum exceeded `u8::MAX`.
pub assume_specification[ <u8>::overflowing_add ](x: u8, y: u8) -> (r: (u8, bool))
    ensures
        r.0 == (x + y) % 256,
        r.1 == (x + y > u8::MAX),
;

/// `u8::overflowing_sub`: the difference wrapped to 8 bits, and whether the
/// mathematical difference was negative.
pub assume_specification[ <u8>::overflowing_sub ](x: u8, y: u8) -> (r: (u8, bool))
    ensures
        r.0 == (x - y) % 256,
        r.1 == (x - y < 0),
;

/// `u16::overflowing_add`: the sum wrapped to 16 bits, and whether the
/// mathematical sum exceeded `u16::MAX`.
pub assume_specification[ <u16>::overflowing_add ](x: u16, y: u16) -> (r: (u16, bool))
    ensures
        r.0 == (x + y) % 65536,
        r.1 == (x + y > u16::MAX),
;

/// `u8::rotate_left`: the bits shifted out on the left come back in on the right.
pub assume_specification[ <u8>::rotate_left ](x: u8, n: u32) -> (r: u8)
    ensures
        r == (x << (n % 8)) | (x >> ((8 - n % 8) % 8)),
;

/// `u8::rotate_right`: the bits shifted out on the right come back in on the left.
pub assume_specification[ <u8>::rotate_right ](x: u8, n: u32) -> (r: u8)
    ensures
        r == (x >> (n % 8)) | (x << ((8 - n % 8) % 8)),
;

} // verus!
