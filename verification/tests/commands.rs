use badge_setter::badge::{finish_clear, finish_install, set_badge_count, BadgeAction};
use badge_setter::greeting::greet;

#[test]
fn greet_world() {
    assert_eq!(greet("World"), "Hello, World! You've been greeted from Rust!");
}

#[test]
fn greet_empty_name() {
    assert_eq!(greet(""), "Hello, ! You've been greeted from Rust!");
}

#[test]
fn zero_count_clears_despite_pixels() {
    let r = set_badge_count(true, 0, Some(vec![1, 2, 3, 4]), Some(1), Some(1));
    assert!(matches!(r, Ok(BadgeAction::Clear)));
}

#[test]
fn zero_count_clears_despite_zero_dimensions() {
    let r = set_badge_count(true, 0, Some(vec![]), Some(0), None);
    assert!(matches!(r, Ok(BadgeAction::Clear)));
}

#[test]
fn absent_pixels_clear_like_zero_count() {
    let with_absent = set_badge_count(true, 42, None, Some(8), Some(8));
    let with_zero = set_badge_count(true, 0, None, Some(8), Some(8));
    assert!(matches!(with_absent, Ok(BadgeAction::Clear)));
    assert!(matches!(with_zero, Ok(BadgeAction::Clear)));
}

#[test]
fn zero_width_is_rejected() {
    let r = set_badge_count(true, 3, Some(vec![0; 16]), Some(0), Some(2));
    assert_eq!(r.unwrap_err(), "Invalid image dimensions");
}

#[test]
fn zero_height_is_rejected() {
    let r = set_badge_count(true, 3, Some(vec![0; 16]), Some(2), Some(0));
    assert_eq!(r.unwrap_err(), "Invalid image dimensions");
}

#[test]
fn absent_dimensions_are_rejected() {
    let r = set_badge_count(true, 1, Some(vec![0; 4]), None, None);
    assert_eq!(r.unwrap_err(), "Invalid image dimensions");
}

#[test]
fn valid_update_installs_exact_image() {
    let pixels = vec![10, 20, 30, 40, 50, 60, 70, 80];
    let r = set_badge_count(true, 5, Some(pixels.clone()), Some(2), Some(1));
    match r {
        Ok(BadgeAction::Install(img)) => {
            assert_eq!(img.rgba, pixels);
            assert_eq!(img.width, 2);
            assert_eq!(img.height, 1);
        },
        _ => panic!("expected an install action"),
    }
}

#[test]
fn oversized_buffer_is_passed_through_unmodified() {
    let pixels = vec![7; 64];
    let r = set_badge_count(true, 1, Some(pixels.clone()), Some(1), Some(1));
    match r {
        Ok(BadgeAction::Install(img)) => {
            assert_eq!(img.rgba, pixels);
            assert_eq!(img.width, 1);
            assert_eq!(img.height, 1);
        },
        _ => panic!("expected an install action"),
    }
}

#[test]
fn unsupported_platform_accepts_anything() {
    let rejected_elsewhere = set_badge_count(false, 9, Some(vec![1]), Some(0), None);
    let cleared_elsewhere = set_badge_count(false, 0, None, None, None);
    let installed_elsewhere = set_badge_count(false, 2, Some(vec![1, 2, 3, 4]), Some(1), Some(1));
    assert!(matches!(rejected_elsewhere, Ok(BadgeAction::Skip)));
    assert!(matches!(cleared_elsewhere, Ok(BadgeAction::Skip)));
    assert!(matches!(installed_elsewhere, Ok(BadgeAction::Skip)));
}

#[test]
fn finish_clear_passes_success_through() {
    assert!(finish_clear(Ok(())).is_ok());
}

#[test]
fn finish_clear_wraps_platform_failure() {
    let r = finish_clear(Err("window gone".to_string()));
    assert_eq!(r.unwrap_err(), "Failed to clear overlay icon: window gone");
}

#[test]
fn finish_install_passes_success_through() {
    assert!(finish_install(Ok(())).is_ok());
}

#[test]
fn finish_install_wraps_platform_failure() {
    let r = finish_install(Err("window gone".to_string()));
    assert_eq!(r.unwrap_err(), "Failed to set overlay icon: window gone");
}
