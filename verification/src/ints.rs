//! Conversions between Rust integers and the C integers of the verbs interface.

use vstd::prelude::*;

verus! {

/// The two's complement reading of the low 32 bits of `n` as a C `int`.
pub open spec fn c_int(n: int) -> int {
    let low = n % 0x1_0000_0000;
    if low < 0x8000_0000 {
        low
    } else {
        low - 0x1_0000_0000
    }
}

/// The low 32 bits of `n` as an unsigned number.
pub open spec fn c_uint(n: int) -> int {
    n % 0x1_0000_0000
}

/// Casts to a C `int`.
pub fn u32_to_c_int(n: u32) -> (r: i32)
    ensures
        r == c_int(n as int),
{
    assert(n < 0x8000_0000u32 ==> (n as i32) as int == n) by (bit_vector);
    assert(n >= 0x8000_0000u32 ==> (n as i32) as int == n - 0x1_0000_0000) by (bit_vector);
    n as i32
}

/// Casts a C `int` to an unsigned number.
pub fn c_int_to_u32(n: i32) -> (r: u32)
    ensures
        r == c_uint(n as int),
{
    assert(n >= 0i32 ==> (n as u32) as int == n) by (bit_vector);
    assert(n < 0i32 ==> (n as u32) as int == n + 0x1_0000_0000) by (bit_vector);
    n as u32
}

/// Casts to an unsigned number of 32 bits.
pub fn usize_to_u32(n: usize) -> (r: u32)
    ensures
        r == c_uint(n as int),
{
    let wide: u64 = n as u64;
    assert((wide as u32) as int == wide % 0x1_0000_0000u64) by (bit_vector);
    wide as u32
}

/// Casts to a C `int`.
pub fn usize_to_c_int(n: usize) -> (r: i32)
    ensures
        r == c_int(n as int),
{
    u32_to_c_int(usize_to_u32(n))
}

/// A C `int` has the value of the number that it was made of where it can, and
/// one that differs from it by a multiple of 2 to the 32 where it cannot. No
/// other number between its bounds does.
pub proof fn law_c_int_keeps_the_low_bits(n: int, other: i32)
    ensures
        i32::MIN <= c_int(n) <= i32::MAX,
        (c_int(n) - n) % 0x1_0000_0000 == 0,
        i32::MIN <= n <= i32::MAX ==> c_int(n) == n,
        (other - n) % 0x1_0000_0000 == 0 ==> c_int(n) == other,
{
}

/// An unsigned number of 32 bits has the value of the number that it was made
/// of where it can, and one that differs from it by a multiple of 2 to the 32
/// where it cannot. No other number between its bounds does.
pub proof fn law_c_uint_keeps_the_low_bits(n: int, other: u32)
    ensures
        0 <= c_uint(n) <= u32::MAX,
        (c_uint(n) - n) % 0x1_0000_0000 == 0,
        0 <= n <= u32::MAX ==> c_uint(n) == n,
        (other - n) % 0x1_0000_0000 == 0 ==> c_uint(n) == other,
{
}

/// A cast keeps every number that the target type can hold, and no cast turns a
/// number of 32 bits into that of another.
pub proof fn law_casts_keep_what_fits(n: u32, size: usize, a: i32, b: i32, c: u32, d: u32)
    requires
        call_ensures(u32_to_c_int, (n,), a),
        call_ensures(c_int_to_u32, (a,), d),
        call_ensures(usize_to_c_int, (size,), b),
        call_ensures(usize_to_u32, (size,), c),
    ensures
        n <= i32::MAX ==> a == n,
        d == n,
        size <= i32::MAX ==> b == size,
        size <= u32::MAX ==> c == size,
        (b - size) % 0x1_0000_0000 == 0,
        (c - size) % 0x1_0000_0000 == 0,
{
}

} // verus!
