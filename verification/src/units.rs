//! Pixel arithmetic: saturating sums, fractions in thousandths, and the
//! clamped padding rule shared by scenes and containers.

use vstd::prelude::*;

verus! {

/// The fraction that stands for the whole extent: fractions are thousandths.
pub const FULL: u32 = 1000;

/// `v` brought into the range of `i64`.
pub open spec fn clip(v: int) -> int {
    if v > i64::MAX as int {
        i64::MAX as int
    } else if v < i64::MIN as int {
        i64::MIN as int
    } else {
        v
    }
}

/// `frac` thousandths of `extent`, rounded toward zero.
pub open spec fn spec_portion(frac: u32, extent: int) -> int {
    if extent >= 0 {
        (frac as int * extent) / 1000
    } else {
        -((frac as int * (-extent)) / 1000)
    }
}

/// The padding rule: `frac` thousandths of `extent`, raised to at least `low`,
/// then lowered to at most `high`. Where `low > high` the result is `high`.
pub open spec fn spec_pad(extent: int, frac: u32, low: u32, high: u32) -> int {
    let raw = clip(spec_portion(frac, extent));
    let raised = if raw < low as int { low as int } else { raw };
    if raised > high as int { high as int } else { raised }
}

/// The sum of two coordinates, saturating at the ends of `i64`.
pub fn sat_add(a: i64, b: i64) -> (r: i64)
    ensures
        r as int == clip(a as int + b as int),
{
    let wide: i128 = a as i128 + b as i128;
    if wide > i64::MAX as i128 {
        i64::MAX
    } else if wide < i64::MIN as i128 {
        i64::MIN
    } else {
        wide as i64
    }
}

/// The difference of two coordinates, saturating at the ends of `i64`.
pub fn sat_sub(a: i64, b: i64) -> (r: i64)
    ensures
        r as int == clip(a as int - b as int),
{
    let wide: i128 = a as i128 - b as i128;
    if wide > i64::MAX as i128 {
        i64::MAX
    } else if wide < i64::MIN as i128 {
        i64::MIN
    } else {
        wide as i64
    }
}

/// `frac` thousandths of `extent`, rounded toward zero and saturating.
pub fn portion(frac: u32, extent: i64) -> (r: i64)
    ensures
        r as int == clip(spec_portion(frac, extent as int)),
{
    if extent >= 0 {
        let size: u128 = extent as u128;
        assert(frac as int * size as int <= 0xffff_ffff * 0x7fff_ffff_ffff_ffff) by (nonlinear_arith)
            requires
                0 <= frac as int <= 0xffff_ffff,
                0 <= size as int <= 0x7fff_ffff_ffff_ffff,
        ;
        let scaled: u128 = (frac as u128 * size) / 1000;
        if scaled > i64::MAX as u128 {
            i64::MAX
        } else {
            scaled as i64
        }
    } else {
        let size: u128 = (-(extent as i128)) as u128;
        assert(frac as int * size as int <= 0xffff_ffff * 0x8000_0000_0000_0000) by (nonlinear_arith)
            requires
                0 <= frac as int <= 0xffff_ffff,
                0 <= size as int <= 0x8000_0000_0000_0000,
        ;
        let scaled: u128 = (frac as u128 * size) / 1000;
        if scaled > 0x8000_0000_0000_0000u128 {
            i64::MIN
        } else {
            let back: i128 = -(scaled as i128);
            back as i64
        }
    }
}

/// The padding for one axis: see [`spec_pad`].
pub fn pad(extent: i64, frac: u32, low: u32, high: u32) -> (r: i64)
    ensures
        r as int == spec_pad(extent as int, frac, low, high),
{
    let raw: i64 = portion(frac, extent);
    let raised: i64 = if raw < low as i64 { low as i64 } else { raw };
    if raised > high as i64 { high as i64 } else { raised }
}

/// A fraction of an extent lies between zero and the extent, whatever the
/// extent's sign, as long as the fraction is at most the whole.
pub proof fn lemma_portion_within(frac: u32, extent: int)
    requires
        frac <= FULL,
    ensures
        extent >= 0 ==> 0 <= spec_portion(frac, extent) <= extent,
        extent <= 0 ==> extent <= spec_portion(frac, extent) <= 0,
{
    if extent >= 0 {
        assert(0 <= frac as int * extent <= 1000 * extent) by (nonlinear_arith)
            requires
                0 <= frac as int <= 1000,
                extent >= 0,
        ;
    } else {
        assert(0 <= frac as int * (-extent) <= 1000 * (-extent)) by (nonlinear_arith)
            requires
                0 <= frac as int <= 1000,
                extent < 0,
        ;
    }
}

} // verus!
