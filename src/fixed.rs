use vstd::prelude::*;

verus! {

/// One plane unit: coordinates are multiples of `2^-56`.
pub const ONE: i64 = 0x0100_0000_0000_0000;

/// One pixel per plane unit: scales are multiples of `2^-16`.
pub const SCALE_ONE: i64 = 0x1_0000;

/// The largest magnitude a plane coordinate may have (16 plane units).
pub const COORD_LIMIT: i64 = 0x1000_0000_0000_0000;

/// The fixed-point value nearest below `num / den`.
pub open spec fn ratio_spec(num: int, den: int) -> int {
    (num * ONE) / den
}

/// The fixed-point value `floor(num / den)` plane units, for a quotient of
/// magnitude at most 64.
pub fn ratio(num: i64, den: i64) -> (r: i64)
    requires
        den > 0,
        -64 * den <= num <= 64 * den,
    ensures
        r == ratio_spec(num as int, den as int),
        -64 * ONE <= r <= 64 * ONE,
{
    let scaled: i128 = num as i128 * ONE as i128;
    proof {
        assert(-64 * den * ONE <= scaled <= 64 * den * ONE) by (nonlinear_arith)
            requires
                scaled == num * ONE,
                -64 * den <= num <= 64 * den,
        ;
        assert(-64 * ONE <= (scaled as int) / (den as int) <= 64 * ONE) by (nonlinear_arith)
            requires
                -64 * den * ONE <= scaled <= 64 * den * ONE,
                den > 0,
        ;
    }
    let q = scaled.checked_div_euclid(den as i128).unwrap();
    q as i64
}

} // verus!
