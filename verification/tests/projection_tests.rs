use fluxcore_ng::frac::Frac;
use fluxcore_ng::projection::Projection;

/// Value of `f` equals `n / d`.
fn frac_is(f: &Frac, n: i128, d: i128) -> bool {
    assert!(d > 0);
    f.num * d == n * f.den
}

/// Exact rational helpers over (num, den) pairs for checking results.
fn q_mul(a: (i128, i128), b: (i128, i128)) -> (i128, i128) {
    (a.0 * b.0, a.1 * b.1)
}

fn q_add(a: (i128, i128), b: (i128, i128)) -> (i128, i128) {
    (a.0 * b.1 + b.0 * a.1, a.1 * b.1)
}

fn q_eq(a: (i128, i128), b: (i128, i128)) -> bool {
    a.0 * b.1 == b.0 * a.1
}

#[test]
fn adjust_maps_range_bounds_exactly() {
    let mut p = Projection::new();
    p.adjust_x(0, 3);
    // scale = 2 / 3, delta = -1
    assert!(frac_is(&p.scale_x, 2, 3));
    assert!(frac_is(&p.delta_x, -1, 1));
    // min maps to -1 and max to 1, exactly
    let at_min = q_add(q_mul((p.scale_x.num, p.scale_x.den), (0, 1)), (p.delta_x.num, p.delta_x.den));
    let at_max = q_add(q_mul((p.scale_x.num, p.scale_x.den), (3, 1)), (p.delta_x.num, p.delta_x.den));
    assert!(q_eq(at_min, (-1, 1)));
    assert!(q_eq(at_max, (1, 1)));
    // the z axis maps onto [0, 1] instead
    p.adjust_z(-5, 5);
    let z_min = q_add(q_mul((p.scale_z.num, p.scale_z.den), (-5, 1)), (p.delta_z.num, p.delta_z.den));
    let z_max = q_add(q_mul((p.scale_z.num, p.scale_z.den), (5, 1)), (p.delta_z.num, p.delta_z.den));
    assert!(q_eq(z_min, (0, 1)));
    assert!(q_eq(z_max, (1, 1)));
}

#[test]
fn adjust_degenerate_range_keeps_scale_and_stays_finite() {
    let mut p = Projection::new();
    p.adjust_x(7, 7);
    // scale untouched (still 1), delta = -1 - 7 * 1 = -8, finite
    assert!(frac_is(&p.scale_x, 1, 1));
    assert!(p.delta_x.den > 0);
    assert!(frac_is(&p.delta_x, -8, 1));
    let mut p2 = Projection::new();
    p2.adjust_x(0, 4);
    p2.adjust_x(-2, -2);
    // prior scale 1/2 kept, delta = -1 - (-2) * (1/2) = 0
    assert!(frac_is(&p2.scale_x, 1, 2));
    assert!(frac_is(&p2.delta_x, 0, 1));
}

#[test]
fn zoom_keeps_cursor_point_fixed_exactly() {
    let mut p = Projection::new();
    p.adjust_x(0, 1);
    assert!(frac_is(&p.scale_x, 2, 1));
    assert!(frac_is(&p.delta_x, -1, 1));
    let s_old = (p.scale_x.num, p.scale_x.den);
    let d_old = (p.delta_x.num, p.delta_x.den);
    // cursor at pixel 200 of 800: NDC position -1/2
    let cursor = (-400i128, 800i128);
    // the data point under the cursor before zooming: (p - delta) / s
    let under = (
        (cursor.0 * d_old.1 - d_old.0 * cursor.1) * s_old.1,
        cursor.1 * d_old.1 * s_old.0,
    );
    assert!(q_eq(under, (1, 4)));
    p.scroll_x(1, 200, 800);
    // new scale = 2 * 11/10, not floored
    assert!(frac_is(&p.scale_x, 22, 10));
    // the same data point re-projects exactly onto the cursor
    let img = q_add(
        q_mul((p.scale_x.num, p.scale_x.den), under),
        (p.delta_x.num, p.delta_x.den),
    );
    assert!(q_eq(img, cursor));
}

#[test]
fn zoom_scale_is_floored_at_minimum() {
    let mut p = Projection::new();
    p.adjust_x(0, 1);
    p.scroll_x(-300, 0, 800);
    assert!(frac_is(&p.scale_x, 1, 100000000));
}

#[test]
fn pan_shifts_delta_by_pixel_fraction() {
    let mut p = Projection::new();
    p.adjust_x(0, 1);
    p.move_x(10, 800);
    // delta = -1 + 2 * 10 / 800 = -39/40
    assert!(frac_is(&p.delta_x, -39, 40));
    p.adjust_y(0, 1);
    p.move_y(30, 600);
    // y is flipped: delta = -1 - 2 * 30 / 600 = -11/10
    assert!(frac_is(&p.delta_y, -11, 10));
}

#[test]
fn matrix_carries_coefficients() {
    let mut p = Projection::new();
    p.adjust_x(0, 3);
    let m = p.get_matrix(true);
    assert_eq!(m[0][0].num, p.scale_x.num);
    assert_eq!(m[0][0].den, p.scale_x.den);
    assert!(frac_is(&m[1][1], 1, 1));
    assert!(frac_is(&m[3][3], 1, 1));
    assert!(frac_is(&m[0][1], 0, 1));
    // 2D mode forces the z axis to the identity
    let m2 = p.get_matrix(false);
    assert!(frac_is(&m2[2][2], 1, 1));
    assert!(frac_is(&m2[3][2], 0, 1));
}
