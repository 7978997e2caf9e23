//! Bit-level readings of register values, shared by the backends.
//!
//! A register is a fixed-width unsigned integer; these helpers name single
//! bits and two-bit fields of one, and prove how the read-modify-write
//! patterns of the backends change them.

use vstd::prelude::*;

verus! {

/// Bit `i` of an 8-bit register.
pub open spec fn bit8(x: u8, i: int) -> bool {
    (x >> (i as u8)) & 1 == 1
}

/// Bit `i` of a 32-bit register.
pub open spec fn bit32(x: u32, i: int) -> bool {
    (x >> (i as u32)) & 1 == 1
}

/// The two-bit field of a 32-bit register that starts at bit `2 * i`.
pub open spec fn field2(x: u32, i: int) -> u32 {
    (x >> ((2 * i) as u32)) & 3
}

/// Setting one bit of an 8-bit register leaves every other bit alone.
pub proof fn lemma_bit8_set(x: u8, p: u8, y: u8)
    requires
        p < 8,
        y == x | (1u8 << p),
    ensures
        forall|i: int| 0 <= i < 8 ==> bit8(y, i) == (i == p as int || bit8(x, i)),
{
    assert forall|i: int| 0 <= i < 8 implies bit8(y, i) == (i == p as int || bit8(x, i)) by {
        let iu = i as u8;
        assert((y >> iu) & 1 == (if iu == p {
            1u8
        } else {
            (x >> iu) & 1
        }) && ((x >> iu) & 1 == 1 || (x >> iu) & 1 == 0)) by (bit_vector)
            requires
                iu < 8,
                p < 8,
                y == x | (1u8 << p),
        ;
    }
}

/// Clearing one bit of an 8-bit register leaves every other bit alone.
pub proof fn lemma_bit8_clear(x: u8, p: u8, y: u8)
    requires
        p < 8,
        y == x & !(1u8 << p),
    ensures
        forall|i: int| 0 <= i < 8 ==> bit8(y, i) == (i != p as int && bit8(x, i)),
{
    assert forall|i: int| 0 <= i < 8 implies bit8(y, i) == (i != p as int && bit8(x, i)) by {
        let iu = i as u8;
        assert((y >> iu) & 1 == (if iu == p {
            0u8
        } else {
            (x >> iu) & 1
        }) && ((x >> iu) & 1 == 1 || (x >> iu) & 1 == 0)) by (bit_vector)
            requires
                iu < 8,
                p < 8,
                y == x & !(1u8 << p),
        ;
    }
}

/// Setting one bit of a 32-bit register leaves every other bit alone.
pub proof fn lemma_bit32_set(x: u32, p: u8, y: u32)
    requires
        p < 32,
        y == x | (1u32 << p),
    ensures
        forall|i: int| 0 <= i < 32 ==> bit32(y, i) == (i == p as int || bit32(x, i)),
{
    assert forall|i: int| 0 <= i < 32 implies bit32(y, i) == (i == p as int || bit32(x, i)) by {
        let iu = i as u32;
        assert((y >> iu) & 1 == (if iu == p as u32 {
            1u32
        } else {
            (x >> iu) & 1
        }) && ((x >> iu) & 1 == 1 || (x >> iu) & 1 == 0)) by (bit_vector)
            requires
                iu < 32,
                p < 32,
                y == x | (1u32 << p),
        ;
    }
}

/// Clearing one bit of a 32-bit register leaves every other bit alone.
pub proof fn lemma_bit32_clear(x: u32, p: u8, y: u32)
    requires
        p < 32,
        y == x & !(1u32 << p),
    ensures
        forall|i: int| 0 <= i < 32 ==> bit32(y, i) == (i != p as int && bit32(x, i)),
{
    assert forall|i: int| 0 <= i < 32 implies bit32(y, i) == (i != p as int && bit32(x, i)) by {
        let iu = i as u32;
        assert((y >> iu) & 1 == (if iu == p as u32 {
            0u32
        } else {
            (x >> iu) & 1
        }) && ((x >> iu) & 1 == 1 || (x >> iu) & 1 == 0)) by (bit_vector)
            requires
                iu < 32,
                p < 32,
                y == x & !(1u32 << p),
        ;
    }
}

/// A 16-bit value splits into its high and low byte.
pub proof fn lemma_u16_split(x: u16)
    ensures
        (x >> 8) < 256,
        (x & 0xff) < 256,
        (x >> 8) * 256 + (x & 0xff) == x,
        (x >> 8) == x / 256,
        (x & 0xff) == x % 256,
{
    assert((x >> 8) < 256 && (x & 0xff) < 256 && (x >> 8) * 256 + (x & 0xff) == x && (x >> 8) == x
        / 256 && (x & 0xff) == x % 256) by (bit_vector);
}

/// A byte survives the round trip through the low bits of a 32-bit register.
pub proof fn lemma_u8_in_u32(x: u8)
    ensures
        (x as u32) & 0xff == x as u32,
        ((x as u32) & 0xff) as u8 == x,
        (x as u32) as u8 == x,
{
    assert((x as u32) & 0xff == x as u32 && ((x as u32) & 0xff) as u8 == x && (x as u32) as u8
        == x) by (bit_vector);
}

/// The low byte of a 32-bit register is below 256.
pub proof fn lemma_low_byte_bound(x: u32)
    ensures
        x & 0xff < 256,
{
    assert(x & 0xff < 256) by (bit_vector);
}

/// Or-ing a mask into a 32-bit register sets the mask's bits and leaves the
/// rest alone.
pub proof fn lemma_bit32_or(x: u32, m: u32, y: u32)
    requires
        y == x | m,
    ensures
        forall|i: int| 0 <= i < 32 ==> bit32(y, i) == (bit32(x, i) || bit32(m, i)),
{
    assert forall|i: int| 0 <= i < 32 implies bit32(y, i) == (bit32(x, i) || bit32(m, i)) by {
        let iu = i as u32;
        assert((y >> iu) & 1 == (((x >> iu) & 1) | ((m >> iu) & 1)) && ((x >> iu) & 1 == 1 || (x
            >> iu) & 1 == 0) && ((m >> iu) & 1 == 1 || (m >> iu) & 1 == 0) && (0u32 | 0 == 0 && 0u32
            | 1 == 1 && 1u32 | 0 == 1 && 1u32 | 1 == 1)) by (bit_vector)
            requires
                iu < 32,
                y == x | m,
        ;
    }
}

/// Writing the two-bit field at `2 * p` to `v` leaves every other two-bit
/// field alone.
pub proof fn lemma_field2_write(x: u32, p: u8, v: u32, y: u32)
    requires
        p < 16,
        v < 4,
        y == (x & !(3u32 << (2 * p))) | (v << (2 * p)),
    ensures
        forall|i: int|
            0 <= i < 16 ==> field2(y, i) == (if i == p as int {
                v
            } else {
                field2(x, i)
            }),
{
    assert forall|i: int| 0 <= i < 16 implies field2(y, i) == (if i == p as int {
        v
    } else {
        field2(x, i)
    }) by {
        let iu = (2 * i) as u32;
        assert((y >> iu) & 3 == (if iu == 2 * (p as u32) {
            v
        } else {
            (x >> iu) & 3
        })) by (bit_vector)
            requires
                iu < 32,
                iu % 2 == 0,
                p < 16,
                v < 4,
                y == (x & !(3u32 << ((2 * (p as u32))))) | (v << (2 * (p as u32))),
        ;
    }
}

} // verus!
