use ray_tracer::integrator::{Path, PathEvent};

#[test]
fn path_spends_one_bounce_per_scatter() {
    let mut path = Path::new(3);
    let mut casts = 0;
    while path.can_cast() {
        path.record(PathEvent::Scattered);
        casts += 1;
    }
    assert_eq!(casts, 3);
    assert_eq!(path.depth_left(), 0);
    assert!(!path.has_ended());
}

#[test]
fn path_ends_on_miss() {
    let mut path = Path::new(10);
    path.record(PathEvent::Scattered);
    path.record(PathEvent::Miss);
    assert!(path.has_ended());
    assert!(!path.can_cast());
    assert_eq!(path.depth_left(), 9);
}

#[test]
fn path_ends_on_absorption() {
    let mut path = Path::new(2);
    path.record(PathEvent::Absorbed);
    assert!(path.has_ended());
    assert!(!path.can_cast());
    assert_eq!(path.depth_left(), 2);
}

#[test]
fn path_of_depth_zero_casts_nothing() {
    let path = Path::new(0);
    assert!(!path.can_cast());
    assert!(!path.has_ended());
}
