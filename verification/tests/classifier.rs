use tiltcore::orientation::display_orientation;
use tiltcore::orientation::orientation;
use tiltcore::orientation::Orientation;

// Samples are fixed-point readings in thousandths of the sensor's unit,
// so 9.8 becomes 9800.

#[test]
fn gravity_along_each_axis() {
    assert_eq!(orientation(9800, 100, 100), Orientation::USBUp);
    assert_eq!(orientation(-9800, 0, 0), Orientation::USBDown);
    assert_eq!(orientation(0, 0, 9800), Orientation::RightSideUp);
    assert_eq!(orientation(0, 0, -9800), Orientation::UpsideDown);
    assert_eq!(orientation(0, 9800, 0), Orientation::LEDUp);
    assert_eq!(orientation(0, -9800, 0), Orientation::PowerLEDUp);
}

#[test]
fn classify_is_deterministic() {
    let first = orientation(123, -456, 789);
    let second = orientation(123, -456, 789);
    assert_eq!(first, second);
}

#[test]
fn equal_magnitudes_fall_through_to_z() {
    assert_eq!(orientation(5, 5, 5), Orientation::RightSideUp);
    assert_eq!(orientation(5, -5, -5), Orientation::UpsideDown);
    assert_eq!(orientation(-5, 5, 5), Orientation::RightSideUp);
    assert_eq!(orientation(0, 0, 0), Orientation::RightSideUp);
}

#[test]
fn y_beats_z_only_strictly() {
    assert_eq!(orientation(0, 5, 5), Orientation::RightSideUp);
    assert_eq!(orientation(0, 6, 5), Orientation::LEDUp);
    assert_eq!(orientation(0, -6, 5), Orientation::PowerLEDUp);
}

#[test]
fn x_beats_y_only_strictly() {
    assert_eq!(orientation(5, 5, 0), Orientation::LEDUp);
    assert_eq!(orientation(6, 5, 0), Orientation::USBUp);
    assert_eq!(orientation(-6, 5, 0), Orientation::USBDown);
}

#[test]
fn sign_flip_swaps_paired_labels() {
    assert_eq!(orientation(9800, 100, 100), Orientation::USBUp);
    assert_eq!(orientation(-9800, -100, -100), Orientation::USBDown);
    assert_eq!(orientation(100, 9800, 100), Orientation::LEDUp);
    assert_eq!(orientation(-100, -9800, -100), Orientation::PowerLEDUp);
    assert_eq!(orientation(100, 100, 9800), Orientation::RightSideUp);
    assert_eq!(orientation(-100, -100, -9800), Orientation::UpsideDown);
}

#[test]
fn display_strings_are_the_fixed_table() {
    assert_eq!(display_orientation(Orientation::RightSideUp), "Right side up");
    assert_eq!(display_orientation(Orientation::UpsideDown), "Upside down");
    assert_eq!(display_orientation(Orientation::USBUp), "USB up");
    assert_eq!(display_orientation(Orientation::USBDown), "USB down");
    assert_eq!(display_orientation(Orientation::LEDUp), "LED up");
    assert_eq!(display_orientation(Orientation::PowerLEDUp), "Power LED up");
}
