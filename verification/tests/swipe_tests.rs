use swayped::commands::InputCommand;
use swayped::swipe::{
    classify_swipe, swipe_detected, swipe_process, SwaypedSwipeDir, SWIPE_DIST_SCALE,
};

// Deltas in tests are written in device units times the fixed-point scale.
const U: i64 = SWIPE_DIST_SCALE;

#[test]
fn test_noise_below_threshold_yields_nothing() {
    assert_eq!(classify_swipe(0, 0), None);
    assert_eq!(classify_swipe(99 * U, 99 * U), None);
    assert_eq!(classify_swipe(-99 * U, 99 * U), None);
    assert_eq!(classify_swipe(99 * U, -99 * U), None);
    assert_eq!(classify_swipe(-50 * U, -50 * U), None);
}

#[test]
fn test_exactly_threshold_on_one_axis_yields_nothing() {
    // The single-axis cases ask for strictly more than the threshold.
    assert_eq!(classify_swipe(100 * U, 0), None);
    assert_eq!(classify_swipe(-100 * U, 0), None);
    assert_eq!(classify_swipe(0, 100 * U), None);
    assert_eq!(classify_swipe(0, -100 * U), None);
}

#[test]
fn test_single_axis_swipes() {
    assert_eq!(classify_swipe(150 * U, 0), Some(SwaypedSwipeDir::Right));
    assert_eq!(classify_swipe(-150 * U, 0), Some(SwaypedSwipeDir::Left));
    assert_eq!(classify_swipe(0, 150 * U), Some(SwaypedSwipeDir::Down));
    assert_eq!(classify_swipe(0, -150 * U), Some(SwaypedSwipeDir::Up));
    assert_eq!(classify_swipe(101 * U, 99 * U), Some(SwaypedSwipeDir::Right));
}

#[test]
fn test_diagonal_tie_band() {
    // Equal magnitudes lie on the diagonal: no direction.
    assert_eq!(classify_swipe(100 * U, 100 * U), None);
    assert_eq!(classify_swipe(-100 * U, 100 * U), None);
    assert_eq!(classify_swipe(100 * U, -100 * U), None);
    assert_eq!(classify_swipe(-100 * U, -100 * U), None);
    // A ratio of 1.2 is still inside the band: 1.2 < 1/1.2 + tan(22.5°).
    assert_eq!(classify_swipe(120 * U, 100 * U), None);
    assert_eq!(classify_swipe(100 * U, 120 * U), None);
    // A ratio of 1.3 is outside: 1.3 > 1/1.3 + tan(22.5°).
    assert_eq!(classify_swipe(130 * U, 100 * U), Some(SwaypedSwipeDir::Right));
    assert_eq!(classify_swipe(100 * U, 130 * U), Some(SwaypedSwipeDir::Down));
}

#[test]
fn test_dominant_axis_with_margin() {
    assert_eq!(classify_swipe(150 * U, 50 * U), Some(SwaypedSwipeDir::Right));
    assert_eq!(classify_swipe(-300 * U, 100 * U), Some(SwaypedSwipeDir::Left));
    assert_eq!(classify_swipe(100 * U, 300 * U), Some(SwaypedSwipeDir::Down));
    assert_eq!(classify_swipe(100 * U, -300 * U), Some(SwaypedSwipeDir::Up));
}

#[test]
fn test_swipe_detected_maps_direction_and_fingers() {
    assert_eq!(
        swipe_detected(Some(SwaypedSwipeDir::Right), 3),
        Some(InputCommand::SwipeRight(3))
    );
    assert_eq!(
        swipe_detected(Some(SwaypedSwipeDir::Up), 4),
        Some(InputCommand::SwipeUp(4))
    );
    assert_eq!(swipe_detected(None, 3), None);
}

#[test]
fn test_swipe_process_end_to_end() {
    assert_eq!(
        swipe_process(150 * U, 50 * U, 3),
        Some(InputCommand::SwipeRight(3))
    );
    assert_eq!(swipe_process(100 * U, 100 * U, 3), None);
    assert_eq!(
        swipe_process(0, -150 * U, 4),
        Some(InputCommand::SwipeUp(4))
    );
}

#[test]
fn test_display_names() {
    assert_eq!(SwaypedSwipeDir::Up.display(), "UP");
    assert_eq!(SwaypedSwipeDir::Down.display(), "DOWN");
    assert_eq!(SwaypedSwipeDir::Left.display(), "LEFT");
    assert_eq!(SwaypedSwipeDir::Right.display(), "RIGHT");
}
