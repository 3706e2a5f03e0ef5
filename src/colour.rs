use vstd::prelude::*;

verus! {

/// One unit of colour intensity: channels count billionths.
pub const CHANNEL_ONE: i128 = 1_000_000_000;

/// The floor of the colour scalar, in millionths (`0.05`).
pub const SCALAR_FLOOR: i64 = 50_000;

/// A colour; each channel counts billionths and is not clamped to `0 ..= 1`.
#[derive(Clone, Copy, Debug, PartialEq, Eq, Structural)]
pub struct Rgba {
    pub r: i128,
    pub g: i128,
    pub b: i128,
    pub a: i128,
}

/// Opaque black.
pub open spec fn black() -> Rgba {
    Rgba { r: 0, g: 0, b: 0, a: CHANNEL_ONE }
}

/// The colour of a count below the cap: the modulation
/// `count / 100 * max(scalar, 0.05)` weighted `2.4`, `2.0`, `3.0` on the
/// three channels. With `scalar` in millionths and channels in billionths
/// each weight times ten is exact.
pub open spec fn shade(count: int, scalar: int) -> Rgba {
    let s = if scalar > SCALAR_FLOOR { scalar } else { SCALAR_FLOOR as int };
    Rgba { r: (count * s * 24) as i128, g: (count * s * 20) as i128, b: (count * s * 30) as i128, a: CHANNEL_ONE }
}

/// The colour of a pixel with escape-time `count` under cap `limit`, for the
/// colour scalar `scalar` (in millionths): black for a saturated count.
pub open spec fn colour_spec(count: int, scalar: int, limit: int) -> Rgba {
    if count == limit {
        black()
    } else {
        shade(count, scalar)
    }
}

/// The colour of a pixel with escape-time `count` under cap `limit`.
pub fn colour(count: u32, scalar: i64, limit: u32) -> (c: Rgba)
    ensures
        c == colour_spec(count as int, scalar as int, limit as int),
        count == limit ==> c == black(),
        count == 0 ==> c == black(),
{
    if count == limit {
        return Rgba { r: 0, g: 0, b: 0, a: CHANNEL_ONE };
    }
    let s: i128 = if scalar > SCALAR_FLOOR { scalar as i128 } else { SCALAR_FLOOR as i128 };
    let n = count as i128;
    proof {
        assert(0 <= n * s <= 0x1_0000_0000 * 0x8000_0000_0000_0000) by (nonlinear_arith)
            requires
                0 <= n < 0x1_0000_0000,
                0 < s < 0x8000_0000_0000_0000,
        ;
        assert(n == 0 ==> n * s == 0) by (nonlinear_arith);
    }
    let m = n * s;
    Rgba { r: m * 24, g: m * 20, b: m * 30, a: CHANNEL_ONE }
}

/// The colour buffer of a grid: each count mapped by `colour`.
pub fn colours(grid: &Vec<Vec<u32>>, scalar: i64, limit: u32) -> (out: Vec<Vec<Rgba>>)
    ensures
        out@.len() == grid@.len(),
        forall|i: int| 0 <= i < grid@.len() ==> #[trigger] out@[i]@.len() == grid@[i]@.len(),
        forall|i: int, j: int| 0 <= i < grid@.len() && 0 <= j < grid@[i]@.len()
            ==> out@[i]@[j] == colour_spec(grid@[i]@[j] as int, scalar as int, limit as int),
{
    let mut out: Vec<Vec<Rgba>> = Vec::with_capacity(grid.len());
    let mut i: usize = 0;
    while i < grid.len()
        invariant
            i <= grid@.len(),
            out@.len() == i,
            forall|k: int| 0 <= k < i ==> #[trigger] out@[k]@.len() == grid@[k]@.len(),
            forall|k: int, j: int| 0 <= k < i && 0 <= j < grid@[k]@.len()
                ==> out@[k]@[j] == colour_spec(grid@[k]@[j] as int, scalar as int, limit as int),
        decreases grid@.len() - i,
    {
        let row = &grid[i];
        let mut line: Vec<Rgba> = Vec::with_capacity(row.len());
        let mut j: usize = 0;
        while j < row.len()
            invariant
                j <= row@.len(),
                line@.len() == j,
                forall|m: int| 0 <= m < j ==> line@[m] == colour_spec(row@[m] as int, scalar as int, limit as int),
            decreases row@.len() - j,
        {
            line.push(colour(row[j], scalar, limit));
            j = j + 1;
        }
        out.push(line);
        i = i + 1;
    }
    out
}

} // verus!
