use bevy::math::{Dir3, Vec3};
use kcc::ground::Surface;
use kcc::slide::Slide;

fn slope(x: f32, y: f32) -> Dir3 {
    Dir3::new(Vec3::new(x, y, 0.0)).unwrap()
}

#[test]
fn fresh_slide_wants_a_sweep() {
    let slide = Slide::new(4);
    assert!(slide.wants_sweep());
    assert_eq!(slide.sweeps(), 0);
    assert_eq!(slide.floor(), None);
}

#[test]
fn slide_without_sweeps_allowed_wants_none() {
    let mut slide = Slide::new(0);
    assert!(!slide.wants_sweep());
    assert!(!slide.record(Surface::Walkable(Dir3::Y)));
    assert_eq!(slide.sweeps(), 0);
    assert_eq!(slide.floor(), None);
}

#[test]
fn clear_sweep_ends_the_slide() {
    let mut slide = Slide::new(4);
    slide.settle();
    assert!(!slide.wants_sweep());
    assert_eq!(slide.sweeps(), 0);
}

#[test]
fn blocked_sweep_asks_for_another() {
    let mut slide = Slide::new(4);
    assert!(slide.record(Surface::Steep));
    assert!(slide.wants_sweep());
    assert_eq!(slide.sweeps(), 1);
}

#[test]
fn slide_stops_at_its_limit() {
    let mut slide = Slide::new(3);
    assert!(slide.record(Surface::Steep));
    assert!(slide.record(Surface::Steep));
    assert!(!slide.record(Surface::Steep));
    assert!(!slide.wants_sweep());
    assert_eq!(slide.sweeps(), 3);
}

#[test]
fn report_beyond_the_limit_is_dropped() {
    let mut slide = Slide::new(1);
    assert!(!slide.record(Surface::Steep));
    assert!(!slide.record(Surface::Walkable(Dir3::Y)));
    assert_eq!(slide.sweeps(), 1);
    assert_eq!(slide.floor(), None);
}

#[test]
fn report_after_a_clear_sweep_is_dropped() {
    let mut slide = Slide::new(4);
    assert!(slide.record(Surface::Steep));
    slide.settle();
    assert!(!slide.record(Surface::Walkable(Dir3::Y)));
    assert_eq!(slide.sweeps(), 1);
    assert_eq!(slide.floor(), None);
}

#[test]
fn slide_reports_its_last_walkable_contact() {
    let gentle = slope(0.1, 1.0);
    let gentler = slope(0.05, 1.0);
    let mut slide = Slide::new(8);
    slide.record(Surface::Walkable(gentle));
    slide.record(Surface::Steep);
    assert_eq!(slide.floor(), Some(gentle));
    slide.record(Surface::Walkable(gentler));
    assert_eq!(slide.floor(), Some(gentler));
    slide.settle();
    assert_eq!(slide.floor(), Some(gentler));
    assert_eq!(slide.sweeps(), 3);
}
