use fluxcore_ng::column::{Cell, Column};
use fluxcore_ng::engine::{Engine, InputEvent, Key};
use fluxcore_ng::frac::Frac;
use fluxcore_ng::pipeline::RenderPhase;

fn column(name: &str, values: &[i64]) -> Column {
    let mut c = Column::new(&name.to_string());
    for v in values {
        c.push(Cell::Value(*v));
    }
    c
}

fn degenerate_column(name: &str, value: i64, rows: usize) -> Column {
    let mut c = Column::new(&name.to_string());
    for _ in 0..rows {
        c.push(Cell::Value(value));
    }
    c
}

fn three_column_engine() -> Engine {
    let cols = vec![
        column("a", &[0, 1, 2, 3]),
        column("b", &[0, 2, 4, 6]),
        degenerate_column("c", 1, 4),
    ];
    Engine::new(800, 600, cols)
}

fn frac_is(f: &Frac, n: i128, d: i128) -> bool {
    assert!(d > 0);
    f.num * d == n * f.den
}

#[test]
fn end_to_end_points_and_projection() {
    let e = three_column_engine();
    assert_eq!(e.m, 3);
    assert_eq!(e.n, 4);
    assert_eq!((e.column_state.x, e.column_state.y, e.column_state.z), (0, 1, 2));
    let pts = e.current_points();
    assert_eq!(pts.len(), 4);
    let expected: [[i64; 3]; 4] = [[0, 0, 1], [1, 2, 1], [2, 4, 1], [3, 6, 1]];
    for (p, want) in pts.iter().zip(expected.iter()) {
        assert_eq!(p.position[0], Cell::Value(want[0]));
        assert_eq!(p.position[1], Cell::Value(want[1]));
        assert_eq!(p.position[2], Cell::Value(want[2]));
    }
    // column 0 has range [0, 3]: scale_x = 2/3
    assert!(frac_is(&e.projection.scale_x, 2, 3));
    // column 2 is degenerate at 1: scale_z keeps its default, and
    // delta_z = -1 * scale_z
    assert!(frac_is(&e.projection.scale_z, 1, 1));
    assert_eq!(
        e.projection.delta_z.num * e.projection.scale_z.den,
        -e.projection.scale_z.num * e.projection.delta_z.den
    );
}

#[test]
fn column_extrema_ignore_missing_cells() {
    let mut c = Column::new(&"v".to_string());
    c.push(Cell::Missing);
    assert!(!c.has_values);
    c.push(Cell::Value(5));
    assert!(c.has_values);
    assert_eq!((c.min, c.max), (5, 5));
    c.push(Cell::Value(-3));
    c.push(Cell::Missing);
    c.push(Cell::Value(10));
    assert_eq!((c.min, c.max), (-3, 10));
    assert_eq!(c.data.len(), 5);
}

#[test]
fn missing_cells_pass_through_points() {
    let mut a = Column::new(&"a".to_string());
    a.push(Cell::Value(1));
    a.push(Cell::Missing);
    let mut b = Column::new(&"b".to_string());
    b.push(Cell::Value(2));
    b.push(Cell::Value(3));
    let cols = vec![a, b];
    let pts = fluxcore_ng::column::points_from_columns(&cols, 0, 1, 1);
    assert_eq!(pts.len(), 2);
    assert_eq!(pts[1].position[0], Cell::Missing);
    assert_eq!(pts[1].position[1], Cell::Value(3));
}

#[test]
fn axis_cycle_returns_after_m_steps() {
    let mut e = three_column_engine();
    for _ in 0..3 {
        e.handle_event(&InputEvent::KeyPressed(Key::Right));
    }
    assert_eq!(e.column_state.x, 0);
    for _ in 0..3 {
        e.handle_event(&InputEvent::KeyPressed(Key::Left));
    }
    assert_eq!(e.column_state.x, 0);
    // wrapping decrements 0 to m - 1 and increments m - 1 to 0
    e.handle_event(&InputEvent::KeyPressed(Key::Up));
    assert_eq!(e.column_state.y, 0);
    e.handle_event(&InputEvent::KeyPressed(Key::Down));
    assert_eq!(e.column_state.y, 1);
    // axis change re-fits the projection to the newly selected column
    e.handle_event(&InputEvent::KeyPressed(Key::Right));
    assert_eq!(e.column_state.x, 1);
    assert!(frac_is(&e.projection.scale_x, 2, 6));
}

#[test]
fn parameter_bounds_hold_under_any_key_sequence() {
    let mut e = three_column_engine();
    let in_bounds = |f: &Frac, lo: i128, hi: i128| f.num >= lo * f.den && f.num <= hi * f.den;
    for i in 0..300 {
        let k = match i % 5 {
            0 | 3 => Key::J,
            1 => Key::K,
            2 => Key::N,
            _ => Key::M,
        };
        e.handle_event(&InputEvent::KeyPressed(k));
        assert!(in_bounds(&e.user_state.pointsize, 2, 100));
        assert!(in_bounds(&e.user_state.gamma, 1, 100));
    }
    // many repeated calls at the boundary clamp exactly
    for _ in 0..100 {
        e.handle_event(&InputEvent::KeyPressed(Key::J));
    }
    assert!(frac_is(&e.user_state.pointsize, 100, 1));
    for _ in 0..200 {
        e.handle_event(&InputEvent::KeyPressed(Key::K));
    }
    assert!(frac_is(&e.user_state.pointsize, 2, 1));
    for _ in 0..200 {
        e.handle_event(&InputEvent::KeyPressed(Key::M));
    }
    assert!(frac_is(&e.user_state.gamma, 1, 1));
}

#[test]
fn reset_restores_defaults_and_refits() {
    let mut e = three_column_engine();
    e.handle_event(&InputEvent::KeyPressed(Key::B));
    e.handle_event(&InputEvent::KeyPressed(Key::J));
    e.handle_event(&InputEvent::KeyPressed(Key::N));
    e.handle_event(&InputEvent::Scroll { dx: 2, dy: 0 });
    assert!(!frac_is(&e.projection.scale_x, 2, 3));
    e.handle_event(&InputEvent::KeyPressed(Key::R));
    assert!(frac_is(&e.user_state.gamma, 10, 1));
    assert!(frac_is(&e.user_state.pointsize, 10, 1));
    assert!(e.user_state.showborder);
    assert!(frac_is(&e.projection.scale_x, 2, 3));
}

#[test]
fn drag_pans_and_updates_mouse() {
    let mut e = three_column_engine();
    e.handle_event(&InputEvent::MouseMoved { x: 100, y: 100 });
    assert_eq!((e.mouse.x, e.mouse.y), (100, 100));
    let delta_before = e.projection.delta_x;
    e.handle_event(&InputEvent::MousePressed);
    e.handle_event(&InputEvent::MouseMoved { x: 140, y: 100 });
    // pan by 40 pixels of 800: delta moves by 2 * 40 / 800 = 1/10
    let d = &e.projection.delta_x;
    assert_eq!(
        d.num * (delta_before.den * 10),
        (delta_before.num * 10 + delta_before.den) * d.den
    );
    e.handle_event(&InputEvent::MouseReleased);
    let delta_after = e.projection.delta_x;
    e.handle_event(&InputEvent::MouseMoved { x: 200, y: 100 });
    assert_eq!(delta_after.num, e.projection.delta_x.num);
    assert_eq!(e.mouse.x, 200);
}

#[test]
fn resize_reallocates_targets_scaled_and_dirties() {
    let mut e = three_column_engine();
    // settle the pipeline to idle first
    e.pipeline.begin_frame(0);
    e.pipeline.begin_frame(501);
    e.pipeline.end_frame();
    assert_eq!(e.pipeline.phase, RenderPhase::Idle);
    e.handle_event(&InputEvent::Resized { width: 400, height: 300 });
    assert_eq!((e.window.width, e.window.height), (400, 300));
    let low = e.window.to_lowres();
    assert_eq!((low.width, low.height), (80, 60));
    assert_eq!(e.pipeline.phase, RenderPhase::Dirty);
}

#[test]
fn batch_stops_at_first_quit() {
    let mut e = three_column_engine();
    let events = vec![
        InputEvent::KeyPressed(Key::B),
        InputEvent::Closed,
        InputEvent::KeyPressed(Key::J),
    ];
    let (rebuild, exit) = e.handle_events(&events);
    assert!(exit);
    assert!(!rebuild);
    // the toggle before the quit was applied, the step after it was not
    assert!(!e.user_state.showborder);
    assert!(frac_is(&e.user_state.pointsize, 10, 1));
}

#[test]
fn batch_reports_geometry_rebuild() {
    let mut e = three_column_engine();
    let events = vec![
        InputEvent::KeyPressed(Key::N),
        InputEvent::KeyPressed(Key::PageDown),
        InputEvent::Other,
    ];
    let (rebuild, exit) = e.handle_events(&events);
    assert!(rebuild);
    assert!(!exit);
    assert_eq!(e.column_state.z, 0);
}

#[test]
fn uniform_values() {
    let e = three_column_engine();
    let inv_n = e.inv_point_count();
    assert_eq!((inv_n.num, inv_n.den), (1, 4));
    let inv_gamma = e.inv_gamma();
    assert!(frac_is(&inv_gamma, 1, 10));
    let ps_low = e.point_size(true);
    // 10 scaled by the low-res factor 1/5
    assert!(frac_is(&ps_low, 2, 1));
    let ps_full = e.point_size(false);
    assert!(frac_is(&ps_full, 10, 1));
    // three columns: the matrix uses the real z axis
    let m = e.matrix();
    assert_eq!((m[2][2].num, m[2][2].den), (e.projection.scale_z.num, e.projection.scale_z.den));
}

#[test]
fn all_missing_column_leaves_axis_untouched() {
    let mut c = Column::new(&"empty".to_string());
    for _ in 0..4 {
        c.push(Cell::Missing);
    }
    assert!(!c.has_values);
    let cols = vec![column("a", &[0, 1, 2, 3]), column("b", &[0, 2, 4, 6]), c];
    let e = Engine::new(800, 600, cols);
    // no bounds to fit: the z axis keeps the identity transform
    assert!(frac_is(&e.projection.scale_z, 1, 1));
    assert!(frac_is(&e.projection.delta_z, 0, 1));
    // x and y are fitted normally
    assert!(frac_is(&e.projection.scale_x, 2, 3));
}

#[test]
fn zoom_out_then_in_restores_scale_value() {
    let mut e = three_column_engine();
    let before = e.projection.scale_x;
    e.handle_event(&InputEvent::Scroll { dx: -3, dy: 0 });
    assert!(!frac_is(&e.projection.scale_x, before.num, before.den));
    e.handle_event(&InputEvent::Scroll { dx: 3, dy: 0 });
    // scaling by (11/10)^-3 then (11/10)^3 is exact far from the floor
    assert!(frac_is(
        &e.projection.scale_x,
        before.num,
        before.den
    ));
}

#[test]
fn two_column_engine_uses_identity_z() {
    let cols = vec![column("a", &[0, 1]), column("b", &[5, 9])];
    let e = Engine::new(800, 600, cols);
    assert_eq!(e.column_state.z, 1);
    let m = e.matrix();
    assert_eq!((m[2][2].num, m[2][2].den), (1, 1));
    assert_eq!(m[3][2].num, 0);
}
