//! The 12-bit signed immediate of this target's arithmetic-with-immediate
//! instructions, and the 16-byte stack alignment helper.

use vstd::prelude::*;

verus! {

/// A signed immediate that fits the 12-bit encoding field: -2048 ..= 2047.
#[derive(Clone, Copy, PartialEq, Eq, Structural, Debug)]
pub struct Imm12 {
    pub bits: i16,
}

impl Imm12 {
    pub open spec fn well_formed(self) -> bool {
        -2048 <= self.bits && self.bits <= 2047
    }

    pub fn zero() -> (r: Imm12)
        ensures
            r.bits == 0,
            r.well_formed(),
    {
        Imm12 { bits: 0 }
    }

    /// Whether the value, read as a 64-bit sign pattern, fits the 12-bit
    /// signed field: values 0..=2047 or the top range that sign-extends
    /// from -2048..=-1.
    pub open spec fn spec_fits_in_imm12(val: u64) -> bool {
        val <= 2047 || val >= 0xffff_ffff_ffff_f800
    }

    /// The signed reading of a 64-bit pattern that fits the field.
    pub open spec fn spec_from_u64(val: u64) -> Imm12 {
        if val <= 2047 {
            Imm12 { bits: val as i16 }
        } else {
            Imm12 { bits: (val - 0x1_0000_0000_0000_0000) as i16 }
        }
    }

    pub fn maybe_from_u64(val: u64) -> (r: Option<Imm12>)
        ensures
            r.is_some() <==> Imm12::spec_fits_in_imm12(val),
            r.is_some() ==> r.unwrap() == Imm12::spec_from_u64(val) && r.unwrap().well_formed(),
    {
        if val <= 2047 {
            Some(Imm12 { bits: val as i16 })
        } else if val >= 0xffff_ffff_ffff_f800 {
            let low: u64 = val - 0xffff_ffff_ffff_f000;
            assert(0x800 <= low && low <= 0xfff);
            Some(Imm12 { bits: (low as i16) - 4096 })
        } else {
            None
        }
    }

    pub fn from_bits(bits: i16) -> (r: Imm12)
        requires
            -2048 <= bits && bits <= 2047,
        ensures
            r == (Imm12 { bits }),
    {
        Imm12 { bits }
    }

    pub fn as_i16(self) -> (r: i16)
        ensures
            r == self.bits,
    {
        self.bits
    }

    /// The negated immediate. The most negative value has no negation in
    /// the field, so it is excluded.
    pub fn negate(self) -> (r: Imm12)
        requires
            self.well_formed(),
            self.bits != -2048,
        ensures
            r.bits == -self.bits,
            r.well_formed(),
    {
        Imm12 { bits: -self.bits }
    }
}

/// The value rounded up to the next multiple of 16.
pub open spec fn spec_align16(x: int) -> int {
    if x % 16 == 0 {
        x
    } else {
        x + (16 - x % 16)
    }
}

pub proof fn lemma_align16_props(x: int)
    requires
        x >= 0,
    ensures
        spec_align16(x) % 16 == 0,
        x <= spec_align16(x) && spec_align16(x) < x + 16,
{
}

/// Round a byte count up to the 16-byte stack alignment.
pub fn align16_u64(x: u64) -> (r: u64)
    requires
        x + 16 <= u64::MAX,
    ensures
        r == spec_align16(x as int),
{
    let rem: u64 = x % 16;
    if rem == 0 {
        x
    } else {
        x + (16 - rem)
    }
}

/// Round a byte count up to the 16-byte stack alignment.
pub fn align16_u32(x: u32) -> (r: u32)
    requires
        x + 16 <= u32::MAX,
    ensures
        r == spec_align16(x as int),
{
    let rem: u32 = x % 16;
    if rem == 0 {
        x
    } else {
        x + (16 - rem)
    }
}

} // verus!
