use mandelbrot_zoom::colour::{colour, colours, Rgba, CHANNEL_ONE};
use mandelbrot_zoom::config::{Config, ConfigError, INITIAL_SCALAR, INITIAL_ZOOM};
use mandelbrot_zoom::escape::escape_time;
use mandelbrot_zoom::fixed::{ratio, ONE, SCALE_ONE};
use mandelbrot_zoom::viewport::{next_step, Strategy, Viewport};

const ANCHOR_RE: f64 = 0.3602404434376143632361252444495453084826;
const ANCHOR_IM: f64 = -0.641313061064803174860375015179302066579;

fn to_fixed(x: f64) -> i64 {
    (x * ONE as f64) as i64
}

/// The viewport `re in [-2, 2]`, `im in [-1.5, 1.5]`, 100 pixels per unit
/// (a 400 by 300 grid).
fn plain_viewport() -> Viewport {
    Viewport {
        re_min: -2 * ONE,
        re_max: 2 * ONE,
        im_min: ratio(-3, 2),
        im_max: ratio(3, 2),
        re_scale: 100 * SCALE_ONE,
        im_scale: 100 * SCALE_ONE,
        zoom: INITIAL_ZOOM,
        aspect: ratio(3, 4),
        scalar: INITIAL_SCALAR,
        step_factor: 10_000,
        paused: false,
    }
}

fn standard_config() -> Config {
    Config::new(to_fixed(ANCHOR_RE), to_fixed(ANCHOR_IM), 100)
}

#[test]
fn origin_pixel_saturates() {
    let v = plain_viewport();
    let (re, im) = v.pixel_point(150, 200);
    assert_eq!((re, im), (0, 0));
    assert_eq!(escape_time(re, im, 100), 100);
}

#[test]
fn far_pixel_escapes_after_one_update() {
    let v = plain_viewport();
    let (re, im) = v.pixel_point(350, 400);
    assert_eq!((re, im), (2 * ONE as i128, 2 * ONE as i128));
    assert_eq!(escape_time(re, im, 100), 1);
}

#[test]
fn period_two_pixel_saturates() {
    let v = plain_viewport();
    let (re, im) = v.pixel_point(150, 100);
    assert_eq!((re, im), (-(ONE as i128), 0));
    assert_eq!(escape_time(re, im, 100), 100);
}

#[test]
fn scenario_cells_in_computed_grid() {
    let v = plain_viewport();
    let g = v.compute(300, 400, 100, Strategy::Sequential);
    assert_eq!(g.len(), 300);
    assert!(g.iter().all(|row| row.len() == 400));
    assert_eq!(g[150][200], 100);
    assert_eq!(g[150][100], 100);
    assert_eq!(g[0][0], 1);
}

#[test]
fn escape_time_edge_cases() {
    assert_eq!(escape_time(0, 0, 0), 0);
    assert_eq!(escape_time(0, 0, 1200), 1200);
    assert_eq!(escape_time(i64::MAX as i128, i64::MIN as i128, 50), 1);
    // c = 1: the orbit runs 0, 1, 2, 5; |2|^2 = 4 already escapes.
    assert_eq!(escape_time(ONE as i128, 0, 100), 2);
    // c = 0.5: 0, 0.5, 0.75, 1.0625, 1.62890625, 3.15...
    assert_eq!(escape_time(ratio(1, 2) as i128, 0, 100), 5);
}

#[test]
fn counts_stay_within_cap() {
    let v = plain_viewport();
    for limit in [0u32, 1, 7, 30] {
        let g = v.compute(30, 40, limit, Strategy::Parallel);
        assert!(g.iter().flatten().all(|&c| c <= limit));
    }
}

#[test]
fn compute_is_reproducible() {
    let v = plain_viewport();
    let a = v.compute(60, 80, 50, Strategy::Sequential);
    let b = v.compute(60, 80, 50, Strategy::Sequential);
    assert_eq!(a, b);
}

#[test]
fn parallel_matches_sequential() {
    let v = plain_viewport();
    let a = v.compute(75, 100, 64, Strategy::Sequential);
    let b = v.compute(75, 100, 64, Strategy::Parallel);
    assert_eq!(a, b);
    assert_eq!(b[0][0], 1);
    assert!(b.iter().flatten().any(|&c| c > 1 && c < 64));
}

#[test]
fn standard_config_shape() {
    let s = standard_config().start().unwrap();
    assert_eq!((s.cols, s.rows), (400, 200));
    assert_eq!(s.viewport.re_scale, 100 * SCALE_ONE);
    assert_eq!(s.viewport.re_max - s.viewport.re_min, 4 * ONE);
    assert_eq!(s.viewport.aspect, ONE / 2);
    assert_eq!(s.viewport.zoom, INITIAL_ZOOM);
    assert_eq!(s.viewport.scalar, 2_000_000);
    assert!(!s.viewport.paused);
}

#[test]
fn anchor_cell_saturates_on_first_frame() {
    let s = standard_config().start().unwrap();
    let g = s.viewport.compute(s.rows, s.cols, 1200, Strategy::Parallel);
    assert_eq!(g[100][200], 1200);
}

#[test]
fn config_errors() {
    let mut c = standard_config();
    c.graph_scale = 0;
    assert_eq!(c.start().err(), Some(ConfigError::ScaleNotPositive));
    let mut c = standard_config();
    c.radius_re = 0;
    assert_eq!(c.start().err(), Some(ConfigError::OutOfRange));
    let c = Config::new(15 * ONE, 0, 100);
    assert_eq!(c.start().err(), Some(ConfigError::OutOfRange));
    let mut c = Config::new(0, 0, 1);
    c.radius_re = ONE / 8;
    assert_eq!(c.start().err(), Some(ConfigError::EmptyGrid));
    let c = Config::new(0, 0, u32::MAX);
    assert_eq!(c.start().err(), Some(ConfigError::GridTooLarge));
}

#[test]
fn zoom_decays_geometrically() {
    let mut v = standard_config().start().unwrap().viewport;
    for t in 1..=200 {
        v.advance();
        let expected = 0.10 * 0.95f64.powi(t) * ONE as f64;
        assert!((v.zoom as f64 - expected).abs() <= 21.0, "frame {}", t);
    }
}

#[test]
fn rectangle_shrinks_and_scale_grows() {
    let mut v = standard_config().start().unwrap().viewport;
    let before = v;
    v.advance();
    assert_eq!(v.re_min, before.re_min + INITIAL_ZOOM);
    assert_eq!(v.re_max, before.re_max - INITIAL_ZOOM);
    assert_eq!(v.im_min, before.im_min + INITIAL_ZOOM / 2);
    assert_eq!(v.zoom, (INITIAL_ZOOM as i128 * 95 / 100) as i64);
    // re_scale * 4 / 3.8
    let grown = (100 * SCALE_ONE) as f64 / 0.95;
    assert!((v.re_scale as f64 - grown).abs() <= 2.0);
}

#[test]
fn scalar_never_grows() {
    let mut v = standard_config().start().unwrap().viewport;
    v.advance();
    assert_eq!(v.scalar, 1_990_000);
    assert_eq!(v.step_factor, 10_000);
    let mut last = v.scalar;
    for _ in 0..400 {
        v.advance();
        assert!(v.scalar <= last);
        last = v.scalar;
    }
}

#[test]
fn step_ladder() {
    assert_eq!(next_step(2_000_000, 7), 10_000);
    assert_eq!(next_step(230_000, 7), 1_000);
    assert_eq!(next_step(10_001, 7), 1_000);
    assert_eq!(next_step(10_000, 7), 100);
    assert_eq!(next_step(501, 7), 100);
    assert_eq!(next_step(51, 7), 10);
    assert_eq!(next_step(6, 7), 1);
    assert_eq!(next_step(5, 7), 7);
    assert_eq!(next_step(-3, 1), 1);
}

#[test]
fn paused_viewport_stays_put() {
    let mut v = plain_viewport();
    v.toggle_pause();
    assert!(v.paused);
    let before = v;
    v.advance();
    assert_eq!(v.re_min, before.re_min);
    assert_eq!(v.zoom, before.zoom);
    assert_eq!(v.scalar, before.scalar);
    assert!(v.update(30, 40, 10, Strategy::Parallel).is_none());
    assert_eq!(v.re_scale, before.re_scale);
    assert_eq!(v.step_factor, before.step_factor);
    v.toggle_pause();
    assert!(!v.paused);
}

#[test]
fn update_computes_before_advancing() {
    let mut v = plain_viewport();
    let before = v;
    let g = v.update(30, 40, 20, Strategy::Parallel).unwrap();
    assert_eq!(g, before.compute(30, 40, 20, Strategy::Sequential));
    assert_eq!(v.re_min, before.re_min + INITIAL_ZOOM);
    assert_eq!(v.scalar, before.scalar - 10_000);
}

#[test]
fn degenerate_zoom_freezes() {
    let mut v = plain_viewport();
    v.zoom = 2 * ONE;
    let before = v;
    v.advance();
    assert_eq!((v.re_min, v.re_max, v.zoom, v.scalar), (before.re_min, before.re_max, before.zoom, before.scalar));
    assert_eq!(v.re_scale, before.re_scale);
}

#[test]
fn saturated_count_is_black() {
    let black = Rgba { r: 0, g: 0, b: 0, a: CHANNEL_ONE };
    assert_eq!(colour(1200, 2_000_000, 1200), black);
    assert_eq!(colour(1200, -5, 1200), black);
    assert_eq!(colour(0, 2_000_000, 1200), black);
    assert_eq!(colour(0, 3, 1200), black);
}

#[test]
fn colour_modulation_values() {
    // count 50, scalar 2.0: modulation 1.0
    let c = colour(50, 2_000_000, 100);
    assert_eq!((c.r, c.g, c.b, c.a), (2_400_000_000, 2_000_000_000, 3_000_000_000, CHANNEL_ONE));
    // a scalar under 0.05 counts as 0.05: modulation 0.5 * 0.05
    let d = colour(50, 10_000, 100);
    assert_eq!((d.r, d.g, d.b), (60_000_000, 50_000_000, 75_000_000));
    let e = colour(50, 50_001, 100);
    assert_eq!(e.r, 50 * 50_001 * 24);
}

#[test]
fn colour_buffer_follows_grid() {
    let grid = vec![vec![0u32, 50, 100], vec![100, 10]];
    let out = colours(&grid, 2_000_000, 100);
    assert_eq!(out.len(), 2);
    assert_eq!(out[0].len(), 3);
    assert_eq!(out[1].len(), 2);
    assert_eq!(out[0][1], colour(50, 2_000_000, 100));
    assert_eq!(out[1][0].r, 0);
    assert_eq!(out[1][1].g, 10 * 2_000_000 * 20);
}

#[test]
fn ratio_rounds_down() {
    assert_eq!(ratio(1, 2), ONE / 2);
    assert_eq!(ratio(-3, 2), -3 * (ONE / 2));
    assert_eq!(ratio(1, 3), ONE / 3);
    assert_eq!(ratio(-1, 3), -(ONE / 3) - 1);
}
