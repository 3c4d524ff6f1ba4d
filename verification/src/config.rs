//! What a session is configured with: the shaping fractions, the key bindings
//! and the choice of input source.

use vstd::prelude::*;
use crate::shaping::{is_fraction, UNIT};

verus! {

/// The general shaping fraction that is used where none is given: 0.67.
pub const DEFAULT_UP_DIAGONAL_ANGLE: i64 = 670_000;

/// The second shaping fraction that is used where none is given: 0.78.
pub const DEFAULT_LEFT_RIGHT_ANGLE: i64 = 780_000;

/// The identifier of the W key in a raw keyboard stream.
pub const KEY_ID_W: u8 = 30;

/// The identifier of the S key in a raw keyboard stream.
pub const KEY_ID_S: u8 = 26;

/// The identifier of the A key in a raw keyboard stream.
pub const KEY_ID_A: u8 = 8;

/// The identifier of the D key in a raw keyboard stream.
pub const KEY_ID_D: u8 = 11;

/// How the diagonals of one stick are shaped. Fractions and the activation
/// window are fixed-point numbers, `UNIT` standing for 1.
#[derive(Clone, Copy, Debug, PartialEq, Eq)]
pub struct JoystickAngleConfiguration {
    /// The general shaping fraction.
    pub up_diagonal_angle: i64,
    /// Whether forward diagonals to the left take the second fraction.
    pub use_left_right_angle: bool,
    /// The second shaping fraction.
    pub left_right_angle: i64,
    /// The activation window of analog keys: where a key starts to count and
    /// where it counts as fully pressed.
    pub analog_range: (i64, i64),
}

impl JoystickAngleConfiguration {
    /// Both fractions are above 0 and at most 1.
    pub open spec fn wf(&self) -> bool {
        &&& is_fraction(self.up_diagonal_angle as int)
        &&& is_fraction(self.left_right_angle as int)
    }

    /// The second fraction, where the asymmetric mode is on.
    pub open spec fn second_fraction(&self) -> Option<i64> {
        if self.use_left_right_angle {
            Some(self.left_right_angle)
        } else {
            None
        }
    }

    /// Tells whether both fractions are above 0 and at most 1.
    pub fn is_valid(&self) -> (valid: bool)
        ensures
            valid == self.wf(),
    {
        0 < self.up_diagonal_angle && self.up_diagonal_angle <= UNIT && 0 < self.left_right_angle
            && self.left_right_angle <= UNIT
    }

    /// The shaping with the parts that are given, and the default for each
    /// part that is not.
    pub fn with_defaults(
        up_diagonal_angle: Option<i64>,
        use_left_right_angle: Option<bool>,
        left_right_angle: Option<i64>,
        analog_range: Option<(i64, i64)>,
    ) -> (config: Self)
        ensures
            config.up_diagonal_angle == match up_diagonal_angle {
                Some(fraction) => fraction,
                None => default_angles().up_diagonal_angle,
            },
            config.use_left_right_angle == match use_left_right_angle {
                Some(enabled) => enabled,
                None => default_angles().use_left_right_angle,
            },
            config.left_right_angle == match left_right_angle {
                Some(fraction) => fraction,
                None => default_angles().left_right_angle,
            },
            config.analog_range == match analog_range {
                Some(window) => window,
                None => default_angles().analog_range,
            },
    {
        JoystickAngleConfiguration {
            up_diagonal_angle: match up_diagonal_angle {
                Some(fraction) => fraction,
                None => DEFAULT_UP_DIAGONAL_ANGLE,
            },
            use_left_right_angle: match use_left_right_angle {
                Some(enabled) => enabled,
                None => false,
            },
            left_right_angle: match left_right_angle {
                Some(fraction) => fraction,
                None => DEFAULT_LEFT_RIGHT_ANGLE,
            },
            analog_range: match analog_range {
                Some(window) => window,
                None => (0, UNIT),
            },
        }
    }
}

/// The shaping that is used where none is configured: the general fraction
/// 0.67, the second fraction 0.78 with the asymmetric mode off, and an
/// activation window over the whole travel of a key.
pub open spec fn default_angles() -> JoystickAngleConfiguration {
    JoystickAngleConfiguration {
        up_diagonal_angle: DEFAULT_UP_DIAGONAL_ANGLE,
        use_left_right_angle: false,
        left_right_angle: DEFAULT_LEFT_RIGHT_ANGLE,
        analog_range: (0i64, UNIT),
    }
}

/// The key bindings that are used where none are configured: W, S, A and D
/// for up, down, left and right, and no second key.
pub open spec fn default_key_mapping() -> KeyMapping {
    KeyMapping {
        left_joystick: JoystickKeyMapping {
            up: Some(KEY_ID_W),
            up_two: None,
            left: Some(KEY_ID_A),
            left_two: None,
            down: Some(KEY_ID_S),
            down_two: None,
            right: Some(KEY_ID_D),
            right_two: None,
        },
    }
}

/// The configuration of a session that was given none: the default shaping
/// and key bindings, read from the keyboard.
pub open spec fn default_configuration() -> ServiceConfiguration {
    ServiceConfiguration {
        left_joystick_strafing_angles: default_angles(),
        key_mapping: default_key_mapping(),
        use_analog_input: false,
    }
}

impl Default for JoystickAngleConfiguration {
    fn default() -> (config: Self)
        ensures
            config == default_angles(),
            config.wf(),
    {
        JoystickAngleConfiguration {
            up_diagonal_angle: DEFAULT_UP_DIAGONAL_ANGLE,
            use_left_right_angle: false,
            left_right_angle: DEFAULT_LEFT_RIGHT_ANGLE,
            analog_range: (0, UNIT),
        }
    }
}

/// The keys bound to the four directions of one stick, up to two for each.
#[derive(Clone, Copy, Debug, PartialEq, Eq)]
pub struct JoystickKeyMapping {
    pub up: Option<u8>,
    pub up_two: Option<u8>,
    pub left: Option<u8>,
    pub left_two: Option<u8>,
    pub down: Option<u8>,
    pub down_two: Option<u8>,
    pub right: Option<u8>,
    pub right_two: Option<u8>,
}

/// The key bindings of the controller.
#[derive(Clone, Copy, Debug, PartialEq, Eq)]
pub struct KeyMapping {
    pub left_joystick: JoystickKeyMapping,
}

impl Default for KeyMapping {
    fn default() -> (mapping: Self)
        ensures
            mapping == default_key_mapping(),
    {
        KeyMapping {
            left_joystick: JoystickKeyMapping {
                up: Some(KEY_ID_W),
                up_two: None,
                left: Some(KEY_ID_A),
                left_two: None,
                down: Some(KEY_ID_S),
                down_two: None,
                right: Some(KEY_ID_D),
                right_two: None,
            },
        }
    }
}

/// The configuration of a session.
#[derive(Clone, Copy, Debug, PartialEq, Eq)]
pub struct ServiceConfiguration {
    pub left_joystick_strafing_angles: JoystickAngleConfiguration,
    pub key_mapping: KeyMapping,
    /// Whether the analog source is read in place of the keyboard.
    pub use_analog_input: bool,
}

impl ServiceConfiguration {
    /// The shaping fractions are in their range.
    pub open spec fn wf(&self) -> bool {
        self.left_joystick_strafing_angles.wf()
    }

    /// Tells whether the shaping fractions are in their range.
    pub fn is_valid(&self) -> (valid: bool)
        ensures
            valid == self.wf(),
    {
        self.left_joystick_strafing_angles.is_valid()
    }

    /// The configuration with the parts that are given, and the default for
    /// each part that is not.
    pub fn with_defaults(
        left_joystick_strafing_angles: Option<JoystickAngleConfiguration>,
        key_mapping: Option<KeyMapping>,
        use_analog_input: Option<bool>,
    ) -> (config: Self)
        ensures
            config.left_joystick_strafing_angles == match left_joystick_strafing_angles {
                Some(angles) => angles,
                None => default_angles(),
            },
            config.key_mapping == match key_mapping {
                Some(mapping) => mapping,
                None => default_key_mapping(),
            },
            config.use_analog_input == match use_analog_input {
                Some(enabled) => enabled,
                None => false,
            },
    {
        ServiceConfiguration {
            left_joystick_strafing_angles: match left_joystick_strafing_angles {
                Some(angles) => angles,
                None => JoystickAngleConfiguration::default(),
            },
            key_mapping: match key_mapping {
                Some(mapping) => mapping,
                None => KeyMapping::default(),
            },
            use_analog_input: match use_analog_input {
                Some(enabled) => enabled,
                None => false,
            },
        }
    }
}

impl Default for ServiceConfiguration {
    fn default() -> (config: Self)
        ensures
            config == default_configuration(),
            config.wf(),
    {
        ServiceConfiguration {
            left_joystick_strafing_angles: JoystickAngleConfiguration::default(),
            key_mapping: KeyMapping::default(),
            use_analog_input: false,
        }
    }
}

} // verus!
