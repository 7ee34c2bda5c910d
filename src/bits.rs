//! Bit-range views of a raw 32-bit response code.
use vstd::prelude::*;

verus! {

/// The bits `lsb..=msb` of `raw`, shifted down to bit 0.
pub open spec fn bit_field(raw: u32, msb: u32, lsb: u32) -> u32
    recommends
        lsb <= msb < 32,
{
    (raw >> lsb) & (0xffff_ffffu32 >> ((31 - (msb - lsb)) as u32))
}

/// Whether bit `index` of `raw` is set.
pub open spec fn bit_set(raw: u32, index: u32) -> bool
    recommends
        index < 32,
{
    (raw >> index) & 1u32 == 1u32
}

/// Relies on `bitfield::BitRange::<u32>::bit_range` for `u32`: it shifts out
/// the bits above `msb`, then those below `lsb`, and panics on a range that
/// does not satisfy `lsb <= msb < 32`.
#[verifier::external_body]
pub(crate) fn bit_range(raw: u32, msb: usize, lsb: usize) -> (r: u32)
    requires
        lsb <= msb < 32,
    ensures
        r == bit_field(raw, msb as u32, lsb as u32),
{
    bitfield::BitRange::<u32>::bit_range(&raw, msb, lsb)
}

/// Relies on `bitfield::Bit::bit` for `u32`: it reads the one-bit range
/// `index..=index` and compares it with zero, and panics on `index >= 32`.
#[verifier::external_body]
pub(crate) fn bit(raw: u32, index: usize) -> (r: bool)
    requires
        index < 32,
    ensures
        r == bit_set(raw, index as u32),
{
    bitfield::Bit::bit(&raw, index)
}

} // verus!
