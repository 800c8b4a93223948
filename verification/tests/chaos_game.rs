use chaos_game::geom::{Point, RandomPoint, pow2_i64, BOX_SIZE, EXP_LIMIT};
use chaos_game::state::{is_allowed_next, pick_next_vertex, vertex_color, Color, MainState};

#[test]
fn point_new_fields() {
    let p = Point::new(330, 1447);
    assert_eq!(p.x, 330);
    assert_eq!(p.y, 1447);
}

#[test]
fn random_point_new_fields() {
    let r = RandomPoint::new(800, 0, 0);
    assert_eq!(r.x, 800);
    assert_eq!(r.y, 0);
    assert_eq!(r.exp, 0);
    assert_eq!(r.vertex, 0);
}

#[test]
fn pow2_i64_values() {
    assert_eq!(pow2_i64(0), 1);
    assert_eq!(pow2_i64(1), 2);
    assert_eq!(pow2_i64(10), 1024);
    assert_eq!(pow2_i64(EXP_LIMIT), 1099511627776);
}

#[test]
fn first_midpoint_is_exact_mean() {
    // (800, 0) toward (39, 553): numerators are the plain sums, one more
    // halving in the denominator, so the value is the arithmetic mean.
    let start = RandomPoint::new(800, 0, 0);
    let m = start.midpoint_toward(&Point::new(39, 553), 1);
    assert_eq!(m.x, 839);
    assert_eq!(m.y, 553);
    assert_eq!(m.exp, 1);
    assert_eq!(m.vertex, 1);
    // 839 / 2 == (800 + 39) / 2 exactly.
}

#[test]
fn second_midpoint_deepens_denominator() {
    let start = RandomPoint::new(800, 0, 0);
    let m = start.midpoint_toward(&Point::new(39, 553), 1);
    let m2 = m.midpoint_toward(&Point::new(330, 1447), 2);
    // 839/2 and 330 meet at (839 + 330*2)/4; 553/2 and 1447 at (553 + 1447*2)/4.
    assert_eq!(m2.x, 1499);
    assert_eq!(m2.y, 3447);
    assert_eq!(m2.exp, 2);
    assert_eq!(m2.vertex, 2);
}

#[test]
fn adjacency_rule_table() {
    // Allowed iff the indices differ by neither 1 nor 4 (circular neighbours
    // of a pentagon).
    assert!(is_allowed_next(0, 0));
    assert!(!is_allowed_next(1, 0));
    assert!(is_allowed_next(2, 0));
    assert!(is_allowed_next(3, 0));
    assert!(!is_allowed_next(4, 0));
    assert!(!is_allowed_next(0, 1));
    assert!(is_allowed_next(3, 1));
    assert!(!is_allowed_next(2, 3));
    assert!(!is_allowed_next(4, 3));
    assert!(is_allowed_next(1, 3));
    assert!(!is_allowed_next(0, 4));
    assert!(is_allowed_next(1, 4));
    assert!(is_allowed_next(2, 4));
    assert!(!is_allowed_next(3, 4));
    assert!(is_allowed_next(4, 4));
}

#[test]
fn pick_next_vertex_obeys_rule() {
    for prev in 0..5usize {
        for _ in 0..200 {
            let next = pick_next_vertex(prev);
            assert!(next < 5);
            assert!(is_allowed_next(next, prev));
        }
    }
}

#[test]
fn vertex_colors() {
    assert_eq!(vertex_color(0), Color { r: 0, g: 255, b: 0 });
    assert_eq!(vertex_color(1), Color { r: 0, g: 0, b: 255 });
    assert_eq!(vertex_color(2), Color { r: 255, g: 0, b: 0 });
    assert_eq!(vertex_color(3), Color { r: 255, g: 255, b: 0 });
    assert_eq!(vertex_color(4), Color { r: 0, g: 255, b: 255 });
}

#[test]
fn pentagon_layout() {
    let s = MainState::new();
    assert_eq!(s.point_a, Point { x: 800, y: 0 });
    assert_eq!(s.point_b, Point { x: 39, y: 553 });
    assert_eq!(s.point_c, Point { x: 330, y: 1447 });
    assert_eq!(s.point_d, Point { x: 1270, y: 1447 });
    assert_eq!(s.point_e, Point { x: 1561, y: 553 });
    assert_eq!(s.random, RandomPoint { x: 800, y: 0, exp: 0, vertex: 0 });
}

#[test]
fn apply_step_exact() {
    let mut s = MainState::new();
    let c = s.apply_step(3);
    assert_eq!(c, Color { r: 255, g: 255, b: 0 });
    // (800 + 1270) / 2 and (0 + 1447) / 2, kept as numerators over 2^1.
    assert_eq!(s.random, RandomPoint { x: 2070, y: 1447, exp: 1, vertex: 3 });
}

#[test]
fn update_obeys_rule_and_moves_to_midpoint() {
    let mut s = MainState::new();
    for _ in 0..EXP_LIMIT {
        let prev = s.random;
        let c = s.update();
        let next = s.random.vertex;
        assert!(next < 5);
        assert!(is_allowed_next(next, prev.vertex));
        assert_eq!(c, vertex_color(next));
        let v = match next {
            0 => s.point_a,
            1 => s.point_b,
            2 => s.point_c,
            3 => s.point_d,
            _ => s.point_e,
        };
        let scale = pow2_i64(prev.exp);
        assert_eq!(s.random.exp, prev.exp + 1);
        assert_eq!(s.random.x, prev.x + v.x * scale);
        assert_eq!(s.random.y, prev.y + v.y * scale);
        // The point never leaves the drawing box.
        assert!(0 <= s.random.x && s.random.x <= BOX_SIZE * pow2_i64(s.random.exp));
        assert!(0 <= s.random.y && s.random.y <= BOX_SIZE * pow2_i64(s.random.exp));
    }
}
