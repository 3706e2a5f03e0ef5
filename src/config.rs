use vstd::prelude::*;
use crate::fixed::{COORD_LIMIT, ONE, SCALE_ONE};
use crate::viewport::Viewport;

verus! {

/// The zoom of the first frame, `0.10` rounded down.
pub const INITIAL_ZOOM: i64 = 7_205_759_403_792_793;

/// The colour scalar of the first frame, `2.0` in millionths.
pub const INITIAL_SCALAR: i64 = 2_000_000;

/// The colour step of the first frame, `0.01` in millionths.
pub const INITIAL_STEP: i64 = 10_000;

/// Half the width of the first rectangle: two plane units.
pub const RADIUS_RE: i64 = 0x200_0000_0000_0000;

/// Half the height of the first rectangle: one plane unit.
pub const RADIUS_IM: i64 = 0x100_0000_0000_0000;

/// What the zoom is set up from: the point it closes in on, the half-extents
/// of the first rectangle (fixed-point), and the pixels per plane unit.
#[derive(Clone, Copy, Debug, PartialEq, Eq, Structural)]
pub struct Config {
    pub anchor_re: i64,
    pub anchor_im: i64,
    pub radius_re: i64,
    pub radius_im: i64,
    pub graph_scale: u32,
}

/// Why a configuration cannot start.
#[derive(Clone, Copy, Debug, PartialEq, Eq, Structural)]
pub enum ConfigError {
    /// `graph_scale` is zero.
    ScaleNotPositive,
    /// A radius is not positive, the rectangle leaves the coordinate range,
    /// or it is over 64 times as high as it is wide.
    OutOfRange,
    /// The grid would have no columns or no rows.
    EmptyGrid,
    /// The grid would have more than `u32::MAX` columns or rows.
    GridTooLarge,
}

/// The grid and the first viewport of a configuration.
#[derive(Clone, Copy, Debug, PartialEq, Eq, Structural)]
pub struct Setup {
    pub viewport: Viewport,
    pub rows: u32,
    pub cols: u32,
}

/// `x * scale` in pixels, rounded to the nearest whole pixel, halves away
/// from zero.
pub open spec fn round_px(x: int, scale: int) -> int {
    if x >= 0 {
        (x * scale + ONE / 2) / (ONE as int)
    } else {
        -((-x * scale + ONE / 2) / (ONE as int))
    }
}

impl Config {
    /// The configuration with the standard half-extents (two plane units
    /// across, one up and down).
    pub fn new(anchor_re: i64, anchor_im: i64, graph_scale: u32) -> (c: Config)
        ensures
            c == (Config { anchor_re, anchor_im, radius_re: RADIUS_RE, radius_im: RADIUS_IM, graph_scale }),
    {
        Config { anchor_re, anchor_im, radius_re: RADIUS_RE, radius_im: RADIUS_IM, graph_scale }
    }

    /// The radii are positive, the first rectangle lies within the coordinate
    /// range, and it is at most 64 times as high as it is wide.
    pub open spec fn in_range(&self) -> bool {
        &&& self.radius_re > 0
        &&& self.radius_im > 0
        &&& -COORD_LIMIT <= self.anchor_re - self.radius_re
        &&& self.anchor_re + self.radius_re <= COORD_LIMIT
        &&& -COORD_LIMIT <= self.anchor_im - self.radius_im
        &&& self.anchor_im + self.radius_im <= COORD_LIMIT
        &&& self.radius_im <= 64 * self.radius_re
    }

    /// The number of pixel columns: the rounded pixel position of the right
    /// edge less that of the left edge.
    pub open spec fn domain(&self) -> int {
        round_px(self.anchor_re + self.radius_re, self.graph_scale as int) - round_px(
            self.anchor_re - self.radius_re,
            self.graph_scale as int,
        )
    }

    /// The number of pixel rows, from the top and bottom edges.
    pub open spec fn range(&self) -> int {
        round_px(self.anchor_im + self.radius_im, self.graph_scale as int) - round_px(
            self.anchor_im - self.radius_im,
            self.graph_scale as int,
        )
    }

    /// The first viewport: the rectangle around the anchor, `graph_scale`
    /// pixels per unit on both axes, zoom `0.10`, scalar `2.0`, step `0.01`.
    pub open spec fn initial_viewport(&self) -> Viewport {
        Viewport {
            re_min: (self.anchor_re - self.radius_re) as i64,
            re_max: (self.anchor_re + self.radius_re) as i64,
            im_min: (self.anchor_im - self.radius_im) as i64,
            im_max: (self.anchor_im + self.radius_im) as i64,
            re_scale: (self.graph_scale * SCALE_ONE) as i64,
            im_scale: (self.graph_scale * SCALE_ONE) as i64,
            zoom: INITIAL_ZOOM,
            aspect: ((2 * self.radius_im * ONE) / (2 * self.radius_re)) as i64,
            scalar: INITIAL_SCALAR,
            step_factor: INITIAL_STEP,
            paused: false,
        }
    }

    /// Checks the configuration and derives the grid shape and the first
    /// viewport from it.
    pub fn start(&self) -> (r: Result<Setup, ConfigError>)
        ensures
            self.graph_scale == 0 ==> r == Err::<Setup, ConfigError>(ConfigError::ScaleNotPositive),
            self.graph_scale > 0 && !self.in_range() ==> r == Err::<Setup, ConfigError>(
                ConfigError::OutOfRange,
            ),
            self.graph_scale > 0 && self.in_range() && (self.domain() <= 0 || self.range() <= 0)
                ==> r == Err::<Setup, ConfigError>(ConfigError::EmptyGrid),
            self.graph_scale > 0 && self.in_range() && self.domain() > 0 && self.range() > 0 && (
            self.domain() > u32::MAX || self.range() > u32::MAX) ==> r == Err::<Setup, ConfigError>(
                ConfigError::GridTooLarge,
            ),
            r is Ok <==> self.graph_scale > 0 && self.in_range() && 0 < self.domain() <= u32::MAX && 0
                < self.range() <= u32::MAX,
            r matches Ok(s) ==> s.viewport == self.initial_viewport() && s.viewport.wf() && s.cols
                == self.domain() && s.rows == self.range(),
    {
        if self.graph_scale == 0 {
            return Err(ConfigError::ScaleNotPositive);
        }
        let (are, aim) = (self.anchor_re as i128, self.anchor_im as i128);
        let (rre, rim) = (self.radius_re as i128, self.radius_im as i128);
        let limit = COORD_LIMIT as i128;
        if !(rre > 0 && rim > 0 && -limit <= are - rre && are + rre <= limit && -limit <= aim - rim
            && aim + rim <= limit && rim <= 64 * rre) {
            return Err(ConfigError::OutOfRange);
        }
        let scale = self.graph_scale;
        let domain = round_pixels(self.anchor_re + self.radius_re, scale) - round_pixels(
            self.anchor_re - self.radius_re,
            scale,
        );
        let range = round_pixels(self.anchor_im + self.radius_im, scale) - round_pixels(
            self.anchor_im - self.radius_im,
            scale,
        );
        if domain <= 0 || range <= 0 {
            return Err(ConfigError::EmptyGrid);
        }
        if domain > u32::MAX as i128 || range > u32::MAX as i128 {
            return Err(ConfigError::GridTooLarge);
        }
        let aspect = crate::fixed::ratio(2 * self.radius_im, 2 * self.radius_re);
        proof {
            assert(0 <= (2 * self.radius_im) * ONE) by (nonlinear_arith)
                requires
                    self.radius_im > 0,
            ;
            vstd::arithmetic::div_mod::lemma_div_pos_is_pos((2 * self.radius_im) * ONE, 2 * self.radius_re);
        }
        let viewport = Viewport {
            re_min: self.anchor_re - self.radius_re,
            re_max: self.anchor_re + self.radius_re,
            im_min: self.anchor_im - self.radius_im,
            im_max: self.anchor_im + self.radius_im,
            re_scale: scale as i64 * SCALE_ONE,
            im_scale: scale as i64 * SCALE_ONE,
            zoom: INITIAL_ZOOM,
            aspect,
            scalar: INITIAL_SCALAR,
            step_factor: INITIAL_STEP,
            paused: false,
        };
        Ok(Setup { viewport, rows: range as u32, cols: domain as u32 })
    }
}

/// `x * scale` rounded to whole pixels (see `round_px`), for a coordinate in range.
fn round_pixels(x: i64, scale: u32) -> (r: i128)
    requires
        -COORD_LIMIT <= x <= COORD_LIMIT,
    ensures
        r == round_px(x as int, scale as int),
        -COORD_LIMIT * 0x1_0000_0000 <= r <= COORD_LIMIT * 0x1_0000_0000,
{
    let half: i128 = ONE as i128 / 2;
    let magnitude: i128 = if x >= 0 { x as i128 } else { -(x as i128) };
    proof {
        assert(0 <= magnitude * scale <= COORD_LIMIT * 0xFFFF_FFFF) by (nonlinear_arith)
            requires
                0 <= magnitude <= COORD_LIMIT,
                0 <= scale <= 0xFFFF_FFFF,
        ;
        vstd::arithmetic::div_mod::lemma_div_pos_is_pos(magnitude * scale + half, ONE as int);
        vstd::arithmetic::div_mod::lemma_div_nonincreasing(magnitude * scale + half, ONE as int);
    }
    let q = (magnitude * scale as i128 + half).checked_div_euclid(ONE as i128).unwrap();
    if x >= 0 {
        q
    } else {
        -q
    }
}

} // verus!
