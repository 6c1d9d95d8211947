//! Counts as the device's toolkit takes them, in one or two bytes.

use vstd::prelude::*;

verus! {

/// A count in one byte. A larger count loses its upper part.
pub fn count_u8(n: usize) -> (r: u8)
    ensures
        r == n % 256,
{
    assert(n as u8 == n % 256) by (bit_vector);
    n as u8
}

/// A count in two bytes. A larger count loses its upper part.
pub fn count_u16(n: usize) -> (r: u16)
    ensures
        r == n % 65536,
{
    assert(n as u16 == n % 65536) by (bit_vector);
    n as u16
}

/// A count is kept where it fits into its byte or two, and counts that differ by a
/// whole range of the bytes come out alike.
pub proof fn law_counts_are_cut_to_their_width(n: usize, m: usize, byte: u8, next: u8, two: u16)
    requires
        call_ensures(count_u8, (n,), byte),
        call_ensures(count_u8, (m,), next),
        call_ensures(count_u16, (n,), two),
    ensures
        n <= 255 ==> byte == n,
        n <= 65535 ==> two == n,
        m == n + 256 ==> next == byte,
        byte as int == n as int % 256,
        two as int == n as int % 65536,
{
}

} // verus!
