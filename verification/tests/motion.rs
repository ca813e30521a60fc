use gd_specs::{clamp, reflect, velocity_at_bounds, Bounds, Scalar, Velocity};

fn scalar(value: f32) -> Scalar {
    Scalar::from_bits(value.to_bits())
}

fn number(value: Scalar) -> f32 {
    f32::from_bits(value.to_bits())
}

fn samples() -> Vec<f32> {
    vec![
        0.0,
        -0.0,
        1.0,
        -1.0,
        0.5,
        -0.5,
        99.0,
        100.0,
        109.0,
        -312.0,
        1123.0,
        f32::MIN_POSITIVE,
        -f32::MIN_POSITIVE,
        1.0e-45,
        -1.0e-45,
        f32::MAX,
        f32::MIN,
        f32::INFINITY,
        f32::NEG_INFINITY,
        f32::NAN,
        -f32::NAN,
        f32::EPSILON,
        16_777_216.0,
        16_777_218.0,
    ]
}

#[test]
fn the_order_of_the_bits_is_the_order_of_the_numbers() {
    for a in samples() {
        for b in samples() {
            assert_eq!(scalar(a).less_than(&scalar(b)), a < b, "{} < {}", a, b);
        }
    }
}

#[test]
fn not_a_number_is_told_by_its_bits() {
    for a in samples() {
        assert_eq!(scalar(a).is_nan(), a.is_nan(), "{}", a);
    }
}

#[test]
fn the_sign_is_one_bit() {
    for a in samples() {
        assert_eq!(scalar(a).negated().to_bits(), (-a).to_bits(), "{}", a);
        assert_eq!(scalar(a).negated().negated(), scalar(a));
    }
}

#[test]
fn clamping_keeps_a_number_between_the_bounds() {
    for a in samples() {
        let r = number(clamp(scalar(a), scalar(0.0), scalar(100.0)));
        if a.is_nan() {
            assert!(r.is_nan());
        } else {
            assert_eq!(r, a.clamp(0.0, 100.0), "{}", a);
            assert!((0.0..=100.0).contains(&r));
        }
    }
    assert_eq!(number(clamp(scalar(5.0), scalar(5.0), scalar(5.0))), 5.0);
    assert_eq!(number(clamp(scalar(-7.0), scalar(-5.0), scalar(-1.0))), -5.0);
    assert_eq!(number(clamp(scalar(0.0), scalar(-5.0), scalar(-1.0))), -1.0);
}

#[test]
fn a_speed_turns_round_outside_the_bounds_only() {
    let low = scalar(0.0);
    let high = scalar(100.0);
    assert_eq!(number(reflect(scalar(10.0), scalar(109.0), low, high)), -10.0);
    assert_eq!(number(reflect(scalar(-10.0), scalar(-1.0), low, high)), 10.0);
    assert_eq!(number(reflect(scalar(10.0), scalar(100.0), low, high)), 10.0);
    assert_eq!(number(reflect(scalar(10.0), scalar(0.0), low, high)), 10.0);
    assert_eq!(number(reflect(scalar(10.0), scalar(50.0), low, high)), 10.0);
    // A future that is not a number is not outside.
    assert_eq!(number(reflect(scalar(10.0), scalar(f32::NAN), low, high)), 10.0);
}

#[test]
fn an_entity_at_the_edge_turns_round_and_stays_inside() {
    // The box (0, 0, 100, 100), as corners.
    let (x, y, width, height) = (0.0f32, 0.0f32, 100.0f32, 100.0f32);
    let bounds = Bounds {
        x_min: scalar(x),
        y_min: scalar(y),
        x_max: scalar(x + width),
        y_max: scalar(y + height),
    };
    let position = (99.0f32, 50.0f32);
    let velocity = Velocity { x: scalar(10.0), y: scalar(0.0) };
    let delta = 1.0f32;

    // The first system turns the velocity round where the entity would leave the box.
    let future_x = position.0 + number(velocity.x) * delta;
    let future_y = position.1 + number(velocity.y) * delta;
    let velocity = velocity_at_bounds(velocity, scalar(future_x), scalar(future_y), &bounds);
    assert_eq!(number(velocity.x), -10.0);
    assert_eq!(number(velocity.y), 0.0);

    // The second moves the entity and keeps it inside.
    let moved_x = clamp(scalar(position.0 + number(velocity.x)), bounds.x_min, bounds.x_max);
    let moved_y = clamp(scalar(position.1 + number(velocity.y)), bounds.y_min, bounds.y_max);
    assert!((0.0..=100.0).contains(&number(moved_x)));
    assert_eq!(number(moved_x), 89.0);
    assert_eq!(number(moved_y), 50.0);

    // Without the first system the clamp alone keeps the entity inside.
    let pushed = clamp(scalar(99.0 + 10.0), bounds.x_min, bounds.x_max);
    assert_eq!(number(pushed), 100.0);
}
