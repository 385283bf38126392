use ray_tracer::material::{dielectric_bounce, Bounce, MaterialClass};

#[test]
fn lambertian_always_scatters() {
    assert!(MaterialClass::Lambertian.scatters(true));
    assert!(MaterialClass::Lambertian.scatters(false));
}

#[test]
fn metal_scatters_only_away_from_surface() {
    assert!(MaterialClass::Metal.scatters(true));
    assert!(!MaterialClass::Metal.scatters(false));
}

#[test]
fn light_emits_and_never_scatters() {
    assert!(!MaterialClass::DiffuseLight.scatters(true));
    assert!(MaterialClass::DiffuseLight.emits());
    assert!(!MaterialClass::Lambertian.emits());
    assert!(!MaterialClass::Metal.emits());
    assert!(!MaterialClass::Dielectric.emits());
    assert!(MaterialClass::Dielectric.scatters(false));
}

#[test]
fn dielectric_choice() {
    assert_eq!(dielectric_bounce(true, false), Bounce::Reflect);
    assert_eq!(dielectric_bounce(false, true), Bounce::Reflect);
    assert_eq!(dielectric_bounce(false, false), Bounce::Refract);
}
