use vstd::prelude::*;
use vstd::arithmetic::power::pow;
use crate::escape::lemma_count_within_cap;
use crate::viewport::{lemma_advanced_wf, Viewport};

verus! {

/// The viewport after `t` calls of `advance`.
pub open spec fn frames(v: Viewport, t: nat) -> Viewport
    decreases t,
{
    if t == 0 {
        v
    } else {
        frames(v, (t - 1) as nat).advanced()
    }
}

/// `advance` moves `v` on: it is running and the zoom has not degenerated.
pub open spec fn moves(v: Viewport) -> bool {
    !v.paused && v.can_advance()
}

/// Every frame of a well-formed viewport is well-formed.
pub proof fn lemma_frames_wf(v: Viewport, t: nat)
    requires
        v.wf(),
    ensures
        frames(v, t).wf(),
    decreases t,
{
    if t > 0 {
        lemma_frames_wf(v, (t - 1) as nat);
        lemma_advanced_wf(frames(v, (t - 1) as nat));
    }
}

/// The zoom decays geometrically by `0.95` a frame: after `t` frames that each
/// moved the viewport, `zoom` lies at most `zoom_0 * 0.95^t` and less than
/// 20 fixed-point units below it, whatever `t`.
pub proof fn lemma_zoom_decay(v: Viewport, t: nat)
    requires
        v.wf(),
        forall|k: nat| k < t ==> #[trigger] moves(frames(v, k)),
    ensures
        frames(v, t).zoom * pow(100, t) <= v.zoom * pow(95, t),
        v.zoom * pow(95, t) < (frames(v, t).zoom + 20) * pow(100, t),
    decreases t,
{
    reveal(pow);
    if t > 0 {
        let s = (t - 1) as nat;
        lemma_zoom_decay(v, s);
        assert(moves(frames(v, s)));
        let z = frames(v, s).zoom as int;
        let next = frames(v, t).zoom as int;
        assert(next == z * 95 / 100);
        vstd::arithmetic::div_mod::lemma_fundamental_div_mod(z * 95, 100);
        let p = pow(100, s);
        let a = v.zoom * pow(95, s);
        vstd::arithmetic::power::lemma_pow_positive(100, s);
        assert(pow(100, t) == 100 * p);
        assert(pow(95, t) == 95 * pow(95, s));
        assert(v.zoom * pow(95, t) == 95 * a) by (nonlinear_arith)
            requires
                pow(95, t) == 95 * pow(95, s),
                a == v.zoom * pow(95, s),
        ;
        assert(next * (100 * p) <= 95 * a && 95 * a < (next + 20) * (100 * p)) by (nonlinear_arith)
            requires
                100 * next <= 95 * z < 100 * next + 100,
                z * p <= a < (z + 20) * p,
                p > 0,
        ;
    }
}

/// The colour scalar never grows: frame `t` has at most the scalar of any
/// earlier frame `s`.
pub proof fn lemma_scalar_non_increasing(v: Viewport, s: nat, t: nat)
    requires
        v.wf(),
        s <= t,
    ensures
        frames(v, t).scalar <= frames(v, s).scalar,
    decreases t - s,
{
    if s < t {
        let u = (t - 1) as nat;
        lemma_scalar_non_increasing(v, s, u);
        lemma_frames_wf(v, u);
        lemma_advanced_wf(frames(v, u));
    }
}

/// Two grids computed from one unchanged viewport are identical.
pub proof fn lemma_compute_reproducible(
    v: Viewport,
    g1: Seq<Vec<u32>>,
    g2: Seq<Vec<u32>>,
    rows: nat,
    cols: nat,
    limit: nat,
)
    requires
        v.is_grid_of(g1, rows, cols, limit),
        v.is_grid_of(g2, rows, cols, limit),
    ensures
        g1.len() == g2.len(),
        forall|i: int| 0 <= i < g1.len() ==> g1[i]@ == g2[i]@,
{
    assert forall|i: int| 0 <= i < g1.len() implies g1[i]@ == g2[i]@ by {
        assert(v.is_row_of(g1[i]@, i, cols, limit));
        assert(v.is_row_of(g2[i]@, i, cols, limit));
        assert(g1[i]@ =~= g2[i]@);
    }
}

/// Every count of a grid of any frame lies in `0 ..= limit`.
pub proof fn lemma_grid_within_cap(v: Viewport, g: Seq<Vec<u32>>, rows: nat, cols: nat, limit: nat)
    requires
        v.is_grid_of(g, rows, cols, limit),
    ensures
        forall|i: int, j: int| 0 <= i < rows && 0 <= j < cols ==> 0 <= #[trigger] g[i]@[j] <= limit,
{
    assert forall|i: int, j: int| 0 <= i < rows && 0 <= j < cols implies 0 <= #[trigger] g[i]@[j] <= limit by {
        assert(v.is_row_of(g[i]@, i, cols, limit));
        lemma_count_within_cap(v.pixel_re(j), v.pixel_im(i), limit);
    }
}

} // verus!
