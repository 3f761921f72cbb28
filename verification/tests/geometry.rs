//! Angle and direction-vector conversions.

use skifree::util::angle_from_vec2;
use skifree::util::vec2_from_angle;
use skifree::util::Angle;
use skifree::util::Vec2;

#[test]
fn can_convert_angle_to_vec2() {
    assert_eq!(vec2_from_angle(Angle { steps: 0 }), Vec2 { x: 0, y: 1000 });
    assert_eq!(vec2_from_angle(Angle { steps: 12 }), Vec2 { x: 0, y: -1000 });
    assert_eq!(vec2_from_angle(Angle { steps: 6 }), Vec2 { x: 1000, y: 0 });
    assert_eq!(vec2_from_angle(Angle { steps: 18 }), Vec2 { x: -1000, y: 0 });
}

#[test]
fn can_convert_vec2_to_angle() {
    assert_eq!(angle_from_vec2(Vec2 { x: 0, y: 1000 }), Angle { steps: 0 });
    assert_eq!(angle_from_vec2(Vec2 { x: 0, y: -1000 }), Angle { steps: 12 });
    assert_eq!(angle_from_vec2(Vec2 { x: 1000, y: 0 }), Angle { steps: 6 });
    assert_eq!(angle_from_vec2(Vec2 { x: -1000, y: 0 }), Angle { steps: 18 });
}

#[test]
fn round_trip_over_two_turns() {
    for steps in -48i64..48i64 {
        let v = vec2_from_angle(Angle { steps });
        let back = angle_from_vec2(v);
        assert_eq!(back.steps, steps.rem_euclid(24));
    }
}

#[test]
fn nearest_angle_of_scaled_vector() {
    // A vector need not come from the table: the nearest heading is found.
    assert_eq!(angle_from_vec2(Vec2 { x: 5, y: 5 }), Angle { steps: 3 });
    assert_eq!(angle_from_vec2(Vec2 { x: -70_000, y: 120_000 }), Angle { steps: 22 });
}
