use raytracer::{dielectric_bounce, Bounce};

#[test]
fn total_internal_reflection_always_reflects() {
    assert_eq!(dielectric_bounce(true, false), Bounce::Reflect);
    assert_eq!(dielectric_bounce(true, true), Bounce::Reflect);
}

#[test]
fn schlick_draw_decides_otherwise() {
    assert_eq!(dielectric_bounce(false, true), Bounce::Reflect);
    assert_eq!(dielectric_bounce(false, false), Bounce::Refract);
}

#[test]
fn glass_from_inside_at_grazing_angle() {
    // Leaving glass of index 1.5 at 60 degrees: 1.5 * sin(60) > 1.
    let ratio = 1.5_f64;
    let sin = (60.0_f64).to_radians().sin();
    assert_eq!(dielectric_bounce(ratio * sin > 1.0, false), Bounce::Reflect);
    // Entering the same glass: 1 / 1.5 * sin(60) < 1, refraction is possible.
    assert_eq!(dielectric_bounce(sin / ratio > 1.0, false), Bounce::Refract);
}
