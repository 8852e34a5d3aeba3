use donnies_tacos::geom::{aim_velocity, cos_milli, div_trunc, isqrt, rotate_milli, scale_milli,
    sin_milli, Vec2i};

#[test]
fn isqrt_exact_squares() {
    assert_eq!(isqrt(0), 0);
    assert_eq!(isqrt(1), 1);
    assert_eq!(isqrt(15), 3);
    assert_eq!(isqrt(16), 4);
    assert_eq!(isqrt(999_999), 999);
    assert_eq!(isqrt(1_000_000), 1000);
    assert_eq!(isqrt(400_000_000_000_000), 20_000_000);
}

#[test]
fn sine_anchor_points() {
    assert_eq!(sin_milli(0), 0);
    assert_eq!(sin_milli(30), 500);
    assert_eq!(sin_milli(90), 1000);
    assert_eq!(sin_milli(150), 500);
    assert_eq!(sin_milli(180), 0);
    assert_eq!(sin_milli(270), -1000);
    assert_eq!(cos_milli(0), 1000);
    assert_eq!(cos_milli(90), 0);
    assert_eq!(cos_milli(180), -1000);
    assert_eq!(cos_milli(270), 0);
    assert_eq!(cos_milli(120), -500);
}

#[test]
fn sine_stays_in_band() {
    for deg in 0..360 {
        let s = sin_milli(deg);
        let c = cos_milli(deg);
        assert!((-1000..=1000).contains(&s));
        assert!((-1000..=1000).contains(&c));
    }
}

#[test]
fn truncating_division_rounds_toward_zero() {
    assert_eq!(div_trunc(7, 2), 3);
    assert_eq!(div_trunc(-7, 2), -3);
    assert_eq!(div_trunc(999, 1000), 0);
    assert_eq!(div_trunc(-999, 1000), 0);
}

#[test]
fn aim_follows_a_three_four_five_triangle() {
    let from = Vec2i { x: 0, y: 0 };
    let to = Vec2i { x: 3000, y: 4000 };
    let v = aim_velocity(from, to, 1000);
    assert_eq!(v, Vec2i { x: 600, y: 800 });
}

#[test]
fn aim_at_own_position_is_zero() {
    let p = Vec2i { x: 123, y: -456 };
    let v = aim_velocity(p, p, 7000);
    assert_eq!(v, Vec2i { x: 0, y: 0 });
}

#[test]
fn quarter_turn_rotation() {
    let v = Vec2i { x: 1000, y: 0 };
    assert_eq!(rotate_milli(v, 90), Vec2i { x: 0, y: 1000 });
    assert_eq!(rotate_milli(v, 180), Vec2i { x: -1000, y: 0 });
    assert_eq!(rotate_milli(v, 270), Vec2i { x: 0, y: -1000 });
    assert_eq!(rotate_milli(v, 0), v);
}

#[test]
fn scaling_by_sevenfold() {
    let v = Vec2i { x: -500, y: 864 };
    assert_eq!(scale_milli(v, 7000), Vec2i { x: -3500, y: 6048 });
}
