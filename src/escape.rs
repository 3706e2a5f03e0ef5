use vstd::prelude::*;
use crate::fixed::ONE;

verus! {

/// `4` in units of `ONE^2`: an orbit point escapes once `|z|^2` reaches it.
pub const ESCAPE_NORM: i128 = 0x4_0000_0000_0000_0000_0000_0000_0000;

/// `|z|^2` of a fixed-point point, in units of `ONE^2`.
pub open spec fn norm_sq(re: int, im: int) -> int {
    re * re + im * im
}

/// Whether the orbit point `z` lies outside the escape radius 2.
pub open spec fn is_escaped(re: int, im: int) -> bool {
    norm_sq(re, im) >= ESCAPE_NORM
}

/// Real part of `z*z + c`, the product rounded down to a fixed-point value.
pub open spec fn next_re(z_re: int, z_im: int, c_re: int) -> int {
    (z_re * z_re - z_im * z_im) / (ONE as int) + c_re
}

/// Imaginary part of `z*z + c`, the product rounded down to a fixed-point value.
pub open spec fn next_im(z_re: int, z_im: int, c_im: int) -> int {
    (2 * z_re * z_im) / (ONE as int) + c_im
}

/// The iteration count reached from orbit point `z` after `count` updates:
/// the orbit stops at the cap `limit` or once `z` escapes.
pub open spec fn escape_from(c_re: int, c_im: int, z_re: int, z_im: int, count: nat, limit: nat) -> nat
    decreases limit - count,
{
    if count >= limit || is_escaped(z_re, z_im) {
        count
    } else {
        escape_from(
            c_re,
            c_im,
            next_re(z_re, z_im, c_re),
            next_im(z_re, z_im, c_im),
            count + 1,
            limit,
        )
    }
}

/// The escape-time count of `c`: the orbit of `z <- z*z + c` starts at 0.
pub open spec fn escape_count(c_re: int, c_im: int, limit: nat) -> nat {
    escape_from(c_re, c_im, 0, 0, 0, limit)
}

proof fn lemma_escape_from_bounded(c_re: int, c_im: int, z_re: int, z_im: int, count: nat, limit: nat)
    ensures
        escape_from(c_re, c_im, z_re, z_im, count, limit) <= if count >= limit { count } else { limit },
        count <= escape_from(c_re, c_im, z_re, z_im, count, limit),
    decreases limit - count,
{
    if count < limit && !is_escaped(z_re, z_im) {
        lemma_escape_from_bounded(
            c_re,
            c_im,
            next_re(z_re, z_im, c_re),
            next_im(z_re, z_im, c_im),
            count + 1,
            limit,
        );
    }
}

/// Every escape-time count lies between 0 and the iteration cap.
pub proof fn lemma_count_within_cap(c_re: int, c_im: int, limit: nat)
    ensures
        0 <= escape_count(c_re, c_im, limit) <= limit,
{
    lemma_escape_from_bounded(c_re, c_im, 0, 0, 0, limit);
}

proof fn lemma_square_at_least(x: int, b: int)
    requires
        b > 0,
        x >= b || x <= -b,
    ensures
        x * x >= b * b,
{
    assert(x * x >= b * b) by (nonlinear_arith)
        requires
            b > 0,
            x >= b || x <= -b,
    ;
}

proof fn lemma_square_below(x: int, b: int)
    requires
        -b < x < b,
    ensures
        0 <= x * x < b * b,
{
    assert(0 <= x * x < b * b) by (nonlinear_arith)
        requires
            -b < x < b,
    ;
}

proof fn lemma_inside_radius(re: int, im: int)
    requires
        !is_escaped(re, im),
    ensures
        0 <= re * re < ESCAPE_NORM,
        0 <= im * im < ESCAPE_NORM,
        -2 * ONE < re < 2 * ONE,
        -2 * ONE < im < 2 * ONE,
        -ESCAPE_NORM < re * re - im * im < ESCAPE_NORM,
        -ESCAPE_NORM < 2 * re * im < ESCAPE_NORM,
{
    assert(re * re >= 0 && im * im >= 0) by (nonlinear_arith);
    if re >= 2 * ONE || re <= -2 * ONE {
        lemma_square_at_least(re, 0x200_0000_0000_0000);
    }
    if im >= 2 * ONE || im <= -2 * ONE {
        lemma_square_at_least(im, 0x200_0000_0000_0000);
    }
    assert((re - im) * (re - im) >= 0 && (re + im) * (re + im) >= 0) by (nonlinear_arith);
    assert(-(re * re + im * im) <= 2 * re * im <= re * re + im * im) by (nonlinear_arith)
        requires
            (re - im) * (re - im) >= 0,
            (re + im) * (re + im) >= 0,
    ;
}

/// Tests `|z|^2 >= 4` without overflow, for any representable `z`.
fn escaped(re: i128, im: i128) -> (r: bool)
    ensures
        r == is_escaped(re as int, im as int),
{
    let two: i128 = 0x200_0000_0000_0000;
    assert(two == 2 * ONE);
    if re >= two || re <= -two {
        proof {
            lemma_square_at_least(re as int, 0x200_0000_0000_0000);
            assert(im * im >= 0) by (nonlinear_arith);
        }
        true
    } else if im >= two || im <= -two {
        proof {
            lemma_square_at_least(im as int, 0x200_0000_0000_0000);
            assert(re * re >= 0) by (nonlinear_arith);
        }
        true
    } else {
        proof {
            lemma_square_below(re as int, 0x200_0000_0000_0000);
            lemma_square_below(im as int, 0x200_0000_0000_0000);
        }
        re * re + im * im >= ESCAPE_NORM
    }
}

/// Rounds a product of two fixed-point values down to a fixed-point value.
fn scale_down(x: i128) -> (r: i128)
    requires
        -ESCAPE_NORM < x < ESCAPE_NORM,
    ensures
        r == x as int / (ONE as int),
        -4 * ONE <= r <= 4 * ONE,
{
    x.checked_div_euclid(ONE as i128).unwrap()
}

/// The escape-time count of the point `c`: how many updates `z <- z*z + c`,
/// starting from `z = 0`, run before `|z|^2 >= 4` or the cap `limit` is met.
pub fn escape_time(c_re: i128, c_im: i128, limit: u32) -> (r: u32)
    ensures
        r == escape_count(c_re as int, c_im as int, limit as nat),
        r <= limit,
{
    let mut z_re: i128 = 0;
    let mut z_im: i128 = 0;
    let mut count: u32 = 0;
    while count < limit && !escaped(z_re, z_im)
        invariant
            count <= limit,
            escape_from(c_re as int, c_im as int, z_re as int, z_im as int, count as nat, limit as nat)
                == escape_count(c_re as int, c_im as int, limit as nat),
            count == 0 ==> z_re == 0 && z_im == 0,
            count == 1 ==> z_re == c_re && z_im == c_im,
            count >= 2 ==> -2 * ONE < c_re < 2 * ONE && -2 * ONE < c_im < 2 * ONE,
            count >= 2 ==> -6 * ONE < z_re < 6 * ONE && -6 * ONE < z_im < 6 * ONE,
        decreases limit - count,
    {
        proof {
            lemma_inside_radius(z_re as int, z_im as int);
        }
        let sq = scale_down(z_re * z_re - z_im * z_im);
        let cross = scale_down(2 * z_re * z_im);
        proof {
            if count == 0 {
                assert(sq == 0 && cross == 0);
            }
        }
        z_re = sq + c_re;
        z_im = cross + c_im;
        count = count + 1;
    }
    count
}

} // verus!
