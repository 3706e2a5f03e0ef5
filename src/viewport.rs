use vstd::prelude::*;
use crate::escape::{escape_count, escape_time};
use crate::fixed::{COORD_LIMIT, ONE, SCALE_ONE};
use crate::parallel::rows_in_parallel;

verus! {

/// `ONE * SCALE_ONE`: a pixel index times this, divided by a scale, is a
/// fixed-point plane offset.
pub const PIXEL_NUMERATOR: i128 = 0x100_0000_0000_0000_0000;

/// The colour step for the next frame, chosen by the first threshold that
/// `scalar` exceeds, from the largest down; the previous step when none is.
pub open spec fn step_for(scalar: int, previous: int) -> int {
    if scalar > 230_000 {
        10_000
    } else if scalar > 10_000 {
        1_000
    } else if scalar > 500 {
        100
    } else if scalar > 50 {
        10
    } else if scalar > 5 {
        1
    } else {
        previous
    }
}

/// How the rows of a grid are shared out: one after another on the calling
/// thread, or across a worker pool. Both give the same grid.
#[derive(Clone, Copy, Debug, PartialEq, Eq, Structural)]
pub enum Strategy {
    Sequential,
    Parallel,
}

/// The visible rectangle of the complex plane and the colour-animation state.
///
/// Plane values (`re_min` .. `im_max`, `zoom`, `aspect`) are fixed-point
/// multiples of `1 / ONE`; the scales are pixels per plane unit in multiples
/// of `1 / SCALE_ONE`; `scalar` and `step_factor` count millionths.
#[derive(Clone, Copy, Debug, PartialEq, Eq, Structural)]
pub struct Viewport {
    pub re_min: i64,
    pub re_max: i64,
    pub im_min: i64,
    pub im_max: i64,
    pub re_scale: i64,
    pub im_scale: i64,
    /// How far each real edge moves inward on the next frame.
    pub zoom: i64,
    /// Height over width of the first rectangle; scales `zoom` for the
    /// imaginary edges.
    pub aspect: i64,
    pub scalar: i64,
    pub step_factor: i64,
    pub paused: bool,
}

/// The colour step for the next frame (see `step_for`).
pub fn next_step(scalar: i64, previous: i64) -> (r: i64)
    ensures
        r == step_for(scalar as int, previous as int),
{
    if scalar > 230_000 {
        10_000
    } else if scalar > 10_000 {
        1_000
    } else if scalar > 500 {
        100
    } else if scalar > 50 {
        10
    } else if scalar > 5 {
        1
    } else {
        previous
    }
}

/// A well-formed viewport stays well-formed from frame to frame.
pub proof fn lemma_advanced_wf(v: Viewport)
    requires
        v.wf(),
    ensures
        v.advanced().wf(),
        v.advanced().scalar <= v.scalar,
{
    if !v.paused && v.can_advance() {
        assert(0 <= v.zoom * v.aspect) by (nonlinear_arith)
            requires
                0 <= v.zoom,
                0 <= v.aspect,
        ;
        vstd::arithmetic::div_mod::lemma_div_pos_is_pos(v.zoom * v.aspect, ONE as int);
        let w = v.re_max - v.re_min;
        let h = v.im_max - v.im_min;
        assert(v.re_scale * w >= v.next_width()) by (nonlinear_arith)
            requires
                v.re_scale >= 1,
                w >= v.next_width() >= 1,
        ;
        assert(v.im_scale * h >= v.next_height()) by (nonlinear_arith)
            requires
                v.im_scale >= 1,
                h >= v.next_height() >= 1,
        ;
        vstd::arithmetic::div_mod::lemma_div_is_ordered(v.next_width(), v.re_scale * w, v.next_width());
        vstd::arithmetic::div_mod::lemma_div_is_ordered(v.next_height(), v.im_scale * h, v.next_height());
        vstd::arithmetic::div_mod::lemma_div_by_self(v.next_width());
        vstd::arithmetic::div_mod::lemma_div_by_self(v.next_height());
        vstd::arithmetic::div_mod::lemma_div_pos_is_pos(v.zoom * 95, 100);
        vstd::arithmetic::div_mod::lemma_div_nonincreasing(v.zoom * 95, 100);
    }
}

impl Viewport {
    /// The rectangle is non-empty and within range, the scales positive,
    /// and the zoom and colour step never negative.
    pub open spec fn wf(&self) -> bool {
        &&& -COORD_LIMIT <= self.re_min < self.re_max <= COORD_LIMIT
        &&& -COORD_LIMIT <= self.im_min < self.im_max <= COORD_LIMIT
        &&& self.re_scale > 0
        &&& self.im_scale > 0
        &&& 0 <= self.zoom <= COORD_LIMIT
        &&& 0 <= self.aspect <= 64 * ONE
        &&& self.step_factor >= 0
    }

    /// Real part of the plane point of pixel column `col`: `col / re_scale + re_min`.
    pub open spec fn pixel_re(&self, col: int) -> int {
        self.re_min + (col * PIXEL_NUMERATOR) / (self.re_scale as int)
    }

    /// Imaginary part of the plane point of pixel row `row`: `row / im_scale + im_min`.
    pub open spec fn pixel_im(&self, row: int) -> int {
        self.im_min + (row * PIXEL_NUMERATOR) / (self.im_scale as int)
    }

    /// The escape-time count of the pixel at `row`, `col`.
    pub open spec fn pixel_count(&self, row: int, col: int, limit: nat) -> nat {
        escape_count(self.pixel_re(col), self.pixel_im(row), limit)
    }

    /// `r` holds the counts of the `cols` pixels of row `row`, in column order.
    pub open spec fn is_row_of(&self, r: Seq<u32>, row: int, cols: nat, limit: nat) -> bool {
        &&& r.len() == cols
        &&& forall|j: int| 0 <= j < cols ==> r[j] == self.pixel_count(row, j, limit)
    }

    /// `g` holds the rows `0 .. rows` of the grid, each `cols` wide.
    pub open spec fn is_grid_of(&self, g: Seq<Vec<u32>>, rows: nat, cols: nat, limit: nat) -> bool {
        &&& g.len() == rows
        &&& forall|i: int| 0 <= i < rows ==> self.is_row_of(#[trigger] g[i]@, i, cols, limit)
    }

    /// How far each imaginary edge moves inward on the next frame.
    pub open spec fn im_zoom(&self) -> int {
        (self.zoom * self.aspect) / (ONE as int)
    }

    /// The width of the rectangle after the next frame.
    pub open spec fn next_width(&self) -> int {
        self.re_max - self.re_min - 2 * self.zoom
    }

    /// The height of the rectangle after the next frame.
    pub open spec fn next_height(&self) -> int {
        self.im_max - self.im_min - 2 * self.im_zoom()
    }

    /// `re_scale` times `width / next_width`, rounded down.
    pub open spec fn next_re_scale(&self) -> int {
        self.re_scale * (self.re_max - self.re_min) / self.next_width()
    }

    /// `im_scale` times `height / next_height`, rounded down.
    pub open spec fn next_im_scale(&self) -> int {
        self.im_scale * (self.im_max - self.im_min) / self.next_height()
    }

    /// `scalar` less the next colour step, held at `i64::MIN`.
    pub open spec fn next_scalar(&self) -> int {
        let s = self.scalar - step_for(self.scalar as int, self.step_factor as int);
        if s < i64::MIN {
            i64::MIN as int
        } else {
            s
        }
    }

    /// The next frame keeps a rectangle at least one unit wide and high, and
    /// scales that fit: past this point the zoom has degenerated.
    pub open spec fn can_advance(&self) -> bool {
        &&& self.next_width() >= 1
        &&& self.next_height() >= 1
        &&& self.next_re_scale() <= i64::MAX
        &&& self.next_im_scale() <= i64::MAX
    }

    /// The viewport of the next frame: edges moved inward by the zoom, scales
    /// corrected for the narrower rectangle, zoom decayed by `0.95`, and the
    /// colour scalar stepped down.
    pub open spec fn stepped(&self) -> Viewport {
        Viewport {
            re_min: (self.re_min + self.zoom) as i64,
            re_max: (self.re_max - self.zoom) as i64,
            im_min: (self.im_min + self.im_zoom()) as i64,
            im_max: (self.im_max - self.im_zoom()) as i64,
            re_scale: self.next_re_scale() as i64,
            im_scale: self.next_im_scale() as i64,
            zoom: (self.zoom * 95 / 100) as i64,
            aspect: self.aspect,
            scalar: self.next_scalar() as i64,
            step_factor: step_for(self.scalar as int, self.step_factor as int) as i64,
            paused: self.paused,
        }
    }

    /// What `advance` leaves: unchanged while paused or once the zoom has
    /// degenerated, the next frame otherwise.
    pub open spec fn advanced(&self) -> Viewport {
        if self.paused || !self.can_advance() {
            *self
        } else {
            self.stepped()
        }
    }

    /// Moves the viewport on by one frame; does nothing while paused, and
    /// freezes once another frame would leave a degenerate rectangle.
    pub fn advance(&mut self)
        requires
            old(self).wf(),
        ensures
            *final(self) == old(self).advanced(),
            final(self).wf(),
            final(self).scalar <= old(self).scalar,
            old(self).paused ==> *final(self) == *old(self),
    {
        proof {
            lemma_advanced_wf(*self);
        }
        if self.paused {
            return;
        }
        let zoom = self.zoom as i128;
        proof {
            assert(0 <= zoom * self.aspect <= COORD_LIMIT * (64 * ONE)) by (nonlinear_arith)
                requires
                    0 <= zoom <= COORD_LIMIT,
                    0 <= self.aspect <= 64 * ONE,
            ;
            vstd::arithmetic::div_mod::lemma_div_pos_is_pos(zoom * self.aspect, ONE as int);
            vstd::arithmetic::div_mod::lemma_div_nonincreasing(zoom * self.aspect, ONE as int);
        }
        let im_zoom = (zoom * self.aspect as i128).checked_div_euclid(ONE as i128).unwrap();
        let width = self.re_max as i128 - self.re_min as i128;
        let height = self.im_max as i128 - self.im_min as i128;
        let next_width = width - 2 * zoom;
        let next_height = height - 2 * im_zoom;
        if next_width < 1 || next_height < 1 {
            return;
        }
        proof {
            assert(0 <= self.re_scale * width <= 0x8000_0000_0000_0000 * (2 * COORD_LIMIT)) by (nonlinear_arith)
                requires
                    0 < self.re_scale < 0x8000_0000_0000_0000,
                    0 < width <= 2 * COORD_LIMIT,
            ;
            assert(0 <= self.im_scale * height <= 0x8000_0000_0000_0000 * (2 * COORD_LIMIT)) by (nonlinear_arith)
                requires
                    0 < self.im_scale < 0x8000_0000_0000_0000,
                    0 < height <= 2 * COORD_LIMIT,
            ;
            vstd::arithmetic::div_mod::lemma_div_nonincreasing(self.re_scale * width, next_width as int);
            vstd::arithmetic::div_mod::lemma_div_nonincreasing(self.im_scale * height, next_height as int);
            vstd::arithmetic::div_mod::lemma_div_pos_is_pos(self.re_scale * width, next_width as int);
            vstd::arithmetic::div_mod::lemma_div_pos_is_pos(self.im_scale * height, next_height as int);
        }
        let re_scale = (self.re_scale as i128 * width).checked_div_euclid(next_width).unwrap();
        let im_scale = (self.im_scale as i128 * height).checked_div_euclid(next_height).unwrap();
        if re_scale > i64::MAX as i128 || im_scale > i64::MAX as i128 {
            return;
        }
        let step = next_step(self.scalar, self.step_factor);
        self.re_min = (self.re_min as i128 + zoom) as i64;
        self.re_max = (self.re_max as i128 - zoom) as i64;
        self.im_min = (self.im_min as i128 + im_zoom) as i64;
        self.im_max = (self.im_max as i128 - im_zoom) as i64;
        self.re_scale = re_scale as i64;
        self.im_scale = im_scale as i64;
        self.zoom = (zoom * 95).checked_div_euclid(100).unwrap() as i64;
        self.scalar = if self.scalar >= i64::MIN + step {
            self.scalar - step
        } else {
            i64::MIN
        };
        self.step_factor = step;
    }

    /// One frame: while paused, nothing; otherwise the grid of this viewport,
    /// computed before the viewport moves on by one frame.
    pub fn update(&mut self, rows: u32, cols: u32, limit: u32, strategy: Strategy) -> (g: Option<Vec<Vec<u32>>>)
        requires
            old(self).wf(),
        ensures
            *final(self) == old(self).advanced(),
            final(self).wf(),
            old(self).paused ==> g.is_none() && *final(self) == *old(self),
            !old(self).paused ==> g.is_some() && old(self).is_grid_of(
                g.unwrap()@,
                rows as nat,
                cols as nat,
                limit as nat,
            ),
    {
        if self.paused {
            return None;
        }
        let g = self.compute(rows, cols, limit, strategy);
        self.advance();
        Some(g)
    }

    /// Flips between paused and running; nothing else changes.
    pub fn toggle_pause(&mut self)
        ensures
            *final(self) == (Viewport { paused: !old(self).paused, ..*old(self) }),
    {
        self.paused = !self.paused;
    }

    /// The plane point of the pixel at `row`, `col`.
    pub fn pixel_point(&self, row: u32, col: u32) -> (r: (i128, i128))
        requires
            self.wf(),
        ensures
            r.0 == self.pixel_re(col as int),
            r.1 == self.pixel_im(row as int),
    {
        let re_offset = (col as i128 * PIXEL_NUMERATOR).checked_div_euclid(self.re_scale as i128);
        let im_offset = (row as i128 * PIXEL_NUMERATOR).checked_div_euclid(self.im_scale as i128);
        proof {
            assert(0 <= col * PIXEL_NUMERATOR <= 0x1_0000_0000 * PIXEL_NUMERATOR) by (nonlinear_arith)
                requires
                    0 <= col < 0x1_0000_0000,
            ;
            assert(0 <= row * PIXEL_NUMERATOR <= 0x1_0000_0000 * PIXEL_NUMERATOR) by (nonlinear_arith)
                requires
                    0 <= row < 0x1_0000_0000,
            ;
            vstd::arithmetic::div_mod::lemma_div_pos_is_pos(col * PIXEL_NUMERATOR, self.re_scale as int);
            vstd::arithmetic::div_mod::lemma_div_nonincreasing(col * PIXEL_NUMERATOR, self.re_scale as int);
            vstd::arithmetic::div_mod::lemma_div_pos_is_pos(row * PIXEL_NUMERATOR, self.im_scale as int);
            vstd::arithmetic::div_mod::lemma_div_nonincreasing(row * PIXEL_NUMERATOR, self.im_scale as int);
        }
        (self.re_min as i128 + re_offset.unwrap(), self.im_min as i128 + im_offset.unwrap())
    }

    /// The escape-time counts of the `cols` pixels of row `row`.
    pub fn row_counts(&self, row: u32, cols: u32, limit: u32) -> (r: Vec<u32>)
        requires
            self.wf(),
        ensures
            self.is_row_of(r@, row as int, cols as nat, limit as nat),
    {
        let mut r: Vec<u32> = Vec::with_capacity(cols as usize);
        let mut col: u32 = 0;
        while col < cols
            invariant
                self.wf(),
                col <= cols,
                r@.len() == col,
                forall|j: int| 0 <= j < col ==> r@[j] == self.pixel_count(row as int, j, limit as nat),
            decreases cols - col,
        {
            let (c_re, c_im) = self.pixel_point(row, col);
            r.push(escape_time(c_re, c_im, limit));
            col = col + 1;
        }
        r
    }

    /// The escape-time grid of this viewport: `rows` rows of `cols` counts,
    /// row `i` column `j` holding the count of the pixel at `i`, `j`.
    /// Every count lies in `0 ..= limit`, and the strategy does not change
    /// the result.
    pub fn compute(&self, rows: u32, cols: u32, limit: u32, strategy: Strategy) -> (g: Vec<Vec<u32>>)
        requires
            self.wf(),
        ensures
            self.is_grid_of(g@, rows as nat, cols as nat, limit as nat),
            forall|i: int, j: int| 0 <= i < rows && 0 <= j < cols ==> g@[i]@[j] <= limit,
    {
        let g = match strategy {
            Strategy::Sequential => {
                let mut g: Vec<Vec<u32>> = Vec::with_capacity(rows as usize);
                let mut row: u32 = 0;
                while row < rows
                    invariant
                        self.wf(),
                        row <= rows,
                        self.is_grid_of(g@, row as nat, cols as nat, limit as nat),
                    decreases rows - row,
                {
                    let r = self.row_counts(row, cols, limit);
                    g.push(r);
                    row = row + 1;
                }
                g
            },
            Strategy::Parallel => rows_in_parallel(self, rows, cols, limit),
        };
        assert forall|i: int, j: int| 0 <= i < rows && 0 <= j < cols implies g@[i]@[j] <= limit by {
            assert(self.is_row_of(g@[i]@, i, cols as nat, limit as nat));
            crate::escape::lemma_count_within_cap(self.pixel_re(j), self.pixel_im(i), limit as nat);
        }
        g
    }
}

} // verus!
