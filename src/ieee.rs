use vstd::prelude::*;

verus! {

/// The sign bit of a binary64 bit pattern.
pub open spec fn sign_field(b: u64) -> u64 {
    b >> 63u64
}

/// The eleven exponent bits of a binary64 bit pattern.
pub open spec fn exponent_field(b: u64) -> u64 {
    (b >> 52u64) & 0x7ffu64
}

/// The fifty-two significand bits of a binary64 bit pattern.
pub open spec fn significand_field(b: u64) -> u64 {
    b & 0xf_ffff_ffff_ffffu64
}

/// The pattern encodes a NaN.
pub open spec fn is_nan(b: u64) -> bool {
    exponent_field(b) == 0x7ff && significand_field(b) != 0
}

/// The pattern encodes +0.0 or -0.0, the values that compare equal to 0.0.
pub open spec fn is_zero(b: u64) -> bool {
    exponent_field(b) == 0 && significand_field(b) == 0
}

/// The pattern encodes a value that compares less than 0.0: the sign is set
/// and the value is neither a NaN nor a zero (-0.0 is not less than 0.0).
pub open spec fn is_negative(b: u64) -> bool {
    sign_field(b) == 1 && !is_nan(b) && !is_zero(b)
}

/// Whether the number with bit pattern `b` equals 0.0.
pub fn is_zero_bits(b: u64) -> (r: bool)
    ensures
        r == is_zero(b),
{
    (b >> 52u64) & 0x7ffu64 == 0 && b & 0xf_ffff_ffff_ffffu64 == 0
}

/// Whether the number with bit pattern `b` is less than 0.0.
pub fn is_negative_bits(b: u64) -> (r: bool)
    ensures
        r == is_negative(b),
{
    let exponent = (b >> 52u64) & 0x7ffu64;
    let significand = b & 0xf_ffff_ffff_ffffu64;
    let nan = exponent == 0x7ffu64 && significand != 0;
    let zero = exponent == 0 && significand == 0;
    b >> 63u64 == 1 && !nan && !zero
}

} // verus!
