//! Integer conversions at the engine's interface.
//!
//! The engine speaks in C integers. A value that does not fit the type on
//! the other side keeps its low bits, as a cast does; the functions here
//! say in arithmetic what that gives.

use libc::c_int;
use vstd::prelude::*;

verus! {

/// The low 32 bits of `n`, read as a signed number.
pub open spec fn low_c_int(n: int) -> c_int {
    let low = n % 0x1_0000_0000;
    if low < 0x8000_0000 {
        low as c_int
    } else {
        (low - 0x1_0000_0000) as c_int
    }
}

/// The low 32 bits of `n`, read as an unsigned number.
pub open spec fn low_u32(n: int) -> u32 {
    (n % 0x1_0000_0000) as u32
}

/// The low 8 bits of `n`.
pub open spec fn low_u8(n: int) -> u8 {
    (n % 256) as u8
}

/// A C integer widened to a machine word with its sign: a negative number
/// counts down from the top of the range.
pub open spec fn sign_extended(n: c_int) -> usize {
    if n >= 0 {
        n as usize
    } else {
        (usize::MAX + 1 + n) as usize
    }
}

/// A cell coordinate, or any other machine word, as the C integer that the
/// engine takes.
pub(crate) fn c_int_of_usize(n: usize) -> (r: c_int)
    ensures
        r == low_c_int(n as int),
        n <= c_int::MAX ==> r == n,
{
    proof {
        let wide: u64 = n as u64;
        let low: u32 = (wide % 0x1_0000_0000) as u32;
        assert((n as i32) == (wide as i32)) by (bit_vector)
            requires
                wide == n,
        ;
        assert((wide as i32) == (low as i32)) by (bit_vector)
            requires
                low == wide % 0x1_0000_0000,
        ;
        assert(low < 0x8000_0000 ==> (low as i32) == low) by (bit_vector);
        assert(low >= 0x8000_0000 ==> (low as i32) == low - 0x1_0000_0000) by (bit_vector);
    }
    #[verifier::truncate]
    (n as c_int)
}

/// A 32-bit count as the C integer that the engine takes.
pub(crate) fn c_int_of_u32(n: u32) -> (r: c_int)
    ensures
        r == low_c_int(n as int),
        n <= c_int::MAX ==> r == n,
{
    assert(n < 0x8000_0000 ==> (n as i32) == n) by (bit_vector);
    assert(n >= 0x8000_0000 ==> (n as i32) == n - 0x1_0000_0000) by (bit_vector);
    #[verifier::truncate]
    (n as c_int)
}

/// A C integer of the engine as an unsigned 32-bit number.
pub(crate) fn u32_of_i32(n: i32) -> (r: u32)
    ensures
        r == low_u32(n as int),
        n >= 0 ==> r == n,
{
    assert(n >= 0 ==> (n as u32) == n) by (bit_vector);
    assert(n < 0 ==> (n as u32) == n + 0x1_0000_0000) by (bit_vector);
    #[verifier::truncate]
    (n as u32)
}

/// A C integer of the engine as a machine word.
pub(crate) fn usize_of_c_int(n: c_int) -> (r: usize)
    ensures
        r == sign_extended(n),
        n >= 0 ==> r == n,
{
    if n >= 0 {
        n as usize
    } else {
        let below: usize = (-(n + 1)) as usize;
        usize::MAX - below
    }
}

/// The low byte of a status of the engine that is not negative.
pub(crate) fn u8_of_c_int(n: c_int) -> (r: u8)
    requires
        n >= 0,
    ensures
        r == low_u8(n as int),
        n <= u8::MAX ==> r == n,
{
    assert(n >= 0 ==> (n as u8) == n % 256) by (bit_vector);
    #[verifier::truncate]
    (n as u8)
}

} // verus!
