use double_movement::config::{
    JoystickAngleConfiguration, JoystickKeyMapping, KeyMapping, ServiceConfiguration,
    DEFAULT_LEFT_RIGHT_ANGLE, DEFAULT_UP_DIAGONAL_ANGLE, KEY_ID_A, KEY_ID_D, KEY_ID_S, KEY_ID_W,
};
use double_movement::shaping::UNIT;

#[test]
fn default_angles() {
    let angles = JoystickAngleConfiguration::default();
    assert_eq!(angles.up_diagonal_angle, 670_000);
    assert_eq!(angles.up_diagonal_angle, DEFAULT_UP_DIAGONAL_ANGLE);
    assert!(!angles.use_left_right_angle);
    assert_eq!(angles.left_right_angle, 780_000);
    assert_eq!(angles.left_right_angle, DEFAULT_LEFT_RIGHT_ANGLE);
    assert_eq!(angles.analog_range, (0, UNIT));
    assert!(angles.is_valid());
}

#[test]
fn default_key_mapping() {
    let mapping = KeyMapping::default();
    assert_eq!(
        mapping.left_joystick,
        JoystickKeyMapping {
            up: Some(KEY_ID_W),
            up_two: None,
            left: Some(KEY_ID_A),
            left_two: None,
            down: Some(KEY_ID_S),
            down_two: None,
            right: Some(KEY_ID_D),
            right_two: None,
        }
    );
    assert_eq!((KEY_ID_W, KEY_ID_A, KEY_ID_S, KEY_ID_D), (30, 8, 26, 11));
}

#[test]
fn default_configuration() {
    let config = ServiceConfiguration::default();
    assert_eq!(config.left_joystick_strafing_angles, JoystickAngleConfiguration::default());
    assert_eq!(config.key_mapping, KeyMapping::default());
    assert!(!config.use_analog_input);
    assert!(config.is_valid());
}

#[test]
fn fractions_out_of_range_are_invalid() {
    let valid = JoystickAngleConfiguration::default();
    for fraction in [0, -1, UNIT + 1, i64::MIN, i64::MAX] {
        let general = JoystickAngleConfiguration { up_diagonal_angle: fraction, ..valid };
        assert!(!general.is_valid());
        let second = JoystickAngleConfiguration { left_right_angle: fraction, ..valid };
        assert!(!second.is_valid());
        let config = ServiceConfiguration {
            left_joystick_strafing_angles: second,
            ..ServiceConfiguration::default()
        };
        assert!(!config.is_valid());
    }
}

#[test]
fn fractions_at_the_ends_of_the_range_are_valid() {
    let valid = JoystickAngleConfiguration::default();
    for fraction in [1, UNIT] {
        let angles = JoystickAngleConfiguration {
            up_diagonal_angle: fraction,
            left_right_angle: fraction,
            ..valid
        };
        assert!(angles.is_valid());
    }
}

#[test]
fn missing_parts_take_defaults() {
    let angles = JoystickAngleConfiguration::with_defaults(None, None, None, None);
    assert_eq!(angles, JoystickAngleConfiguration::default());
    let angles = JoystickAngleConfiguration::with_defaults(
        Some(500_000),
        Some(true),
        None,
        Some((100_000, 900_000)),
    );
    assert_eq!(
        angles,
        JoystickAngleConfiguration {
            up_diagonal_angle: 500_000,
            use_left_right_angle: true,
            left_right_angle: 780_000,
            analog_range: (100_000, 900_000),
        }
    );
    let config = ServiceConfiguration::with_defaults(None, None, None);
    assert_eq!(config, ServiceConfiguration::default());
    let config = ServiceConfiguration::with_defaults(Some(angles), None, Some(true));
    assert_eq!(config.left_joystick_strafing_angles, angles);
    assert_eq!(config.key_mapping, KeyMapping::default());
    assert!(config.use_analog_input);
}
