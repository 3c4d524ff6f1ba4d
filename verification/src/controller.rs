//! The state of the sticks: how far each direction is pressed, the stick
//! vector that follows from it, and the reports that carry it to a controller.

use vstd::prelude::*;
use crate::axis::{ds4_axis, float_to_ds4_js_axis, float_to_xusb_js_axis, xusb_axis};
use crate::config::{JoystickAngleConfiguration, JoystickKeyMapping};
use crate::shaping::{applied_fraction, is_axis, process_circular_direction, shaped, UNIT};

verus! {

/// The four directions of a stick.
#[derive(Clone, Copy, Debug, PartialEq, Eq)]
pub enum JoystickDirection {
    Up,
    Down,
    Left,
    Right,
}

/// A value that can tell whether an assignment changed it.
pub trait UpdateValue: Sized {
    /// Stores `value` and tells whether it differs from what was stored.
    fn update(&mut self, value: Self) -> (changed: bool)
        ensures
            *final(self) == value,
            changed == (*old(self) != value),
    ;
}

impl UpdateValue for bool {
    fn update(&mut self, value: bool) -> (changed: bool) {
        if *self != value {
            *self = value;
            true
        } else {
            false
        }
    }
}

/// The reading of an analog key through an activation window: nothing up to
/// `start`, a full press above `end`, and in between the part of the window
/// that the key has travelled, rounded down.
pub open spec fn ranged(value: int, start: int, end: int) -> int {
    if value <= start {
        0
    } else if value > end {
        UNIT as int
    } else {
        ((value - start) * UNIT) / (end - start)
    }
}

/// A reading through a window is always between 0 and 1.
pub proof fn lemma_ranged_within(value: int, start: int, end: int)
    ensures
        0 <= ranged(value, start, end) <= UNIT,
{
    if start < value && value <= end {
        let diff = value - start;
        let span = end - start;
        assert(0 <= (diff * 1_000_000) / span <= 1_000_000) by (nonlinear_arith)
            requires
                0 < diff <= span,
        ;
    }
}

/// How far one direction is pressed: 0 for a released key, `UNIT` for a key
/// that is fully pressed.
#[derive(Debug)]
pub struct JoystickDirectionState(i64);

impl View for JoystickDirectionState {
    type V = int;

    closed spec fn view(&self) -> int {
        self.0 as int
    }
}

impl JoystickDirectionState {
    /// A released direction.
    pub fn new() -> (state: Self)
        ensures
            state@ == 0,
    {
        JoystickDirectionState(0)
    }

    /// Stores an analog reading and tells whether it differs from the last one.
    pub fn update_analog(&mut self, value: i64) -> (changed: bool)
        ensures
            final(self)@ == value,
            changed == (old(self)@ != value),
        no_unwind
    {
        if value != self.0 {
            self.0 = value;
            true
        } else {
            false
        }
    }

    /// Stores a key state, a pressed key as `UNIT`, and tells whether it
    /// differs from what was stored.
    pub fn update_digital(&mut self, value: bool) -> (changed: bool)
        ensures
            final(self)@ == digital_intensity(value),
            changed == (old(self)@ != digital_intensity(value)),
        no_unwind
    {
        self.update_analog(
            if value {
                UNIT
            } else {
                0
            },
        )
    }

    /// What is stored.
    pub fn get(&self) -> (value: i64)
        ensures
            value == self@,
    {
        self.0
    }

    /// What is stored, read through the activation window `analog_range`.
    pub fn get_with_range(&self, analog_range: &(i64, i64)) -> (value: i64)
        ensures
            value == ranged(self@, analog_range.0 as int, analog_range.1 as int),
            0 <= value <= UNIT,
    {
        let range_start = analog_range.0;
        let range_end = analog_range.1;
        let value = self.0;
        proof {
            lemma_ranged_within(value as int, range_start as int, range_end as int);
        }
        if value <= range_start {
            0
        } else if value > range_end {
            UNIT
        } else {
            let diff: u128 = (value as i128 - range_start as i128) as u128;
            let span: u128 = (range_end as i128 - range_start as i128) as u128;
            ((diff * 1_000_000) / span) as i64
        }
    }
}

/// The intensity that stands for a key state.
pub open spec fn digital_intensity(pressed: bool) -> int {
    if pressed {
        UNIT as int
    } else {
        0
    }
}

/// What a stick holds: the intensity of each direction.
pub ghost struct Intensities {
    pub up: int,
    pub down: int,
    pub left: int,
    pub right: int,
}

impl Intensities {
    /// The intensity of one direction.
    pub open spec fn get(self, direction: JoystickDirection) -> int {
        match direction {
            JoystickDirection::Up => self.up,
            JoystickDirection::Down => self.down,
            JoystickDirection::Left => self.left,
            JoystickDirection::Right => self.right,
        }
    }

    /// These intensities with one direction replaced.
    pub open spec fn with(self, direction: JoystickDirection, value: int) -> Intensities {
        match direction {
            JoystickDirection::Up => Intensities { up: value, ..self },
            JoystickDirection::Down => Intensities { down: value, ..self },
            JoystickDirection::Left => Intensities { left: value, ..self },
            JoystickDirection::Right => Intensities { right: value, ..self },
        }
    }

    /// Nothing pressed.
    pub open spec fn released() -> Intensities {
        Intensities { up: 0, down: 0, left: 0, right: 0 }
    }
}

/// Two opposite directions as one signed axis: the stronger one wins, and
/// equal ones cancel.
pub open spec fn combined(positive: int, negative: int) -> int {
    if positive > negative {
        positive
    } else if negative > positive {
        -negative
    } else {
        0
    }
}

/// The key vector of a stick: its intensities read through the activation
/// window and combined axis by axis.
pub open spec fn key_vector(held: Intensities, analog_range: (i64, i64)) -> (int, int) {
    let start = analog_range.0 as int;
    let end = analog_range.1 as int;
    (
        combined(ranged(held.right, start, end), ranged(held.left, start, end)),
        combined(ranged(held.up, start, end), ranged(held.down, start, end)),
    )
}

/// The stick vector of a stick: its key vector, shaped as configured. A stick
/// without a configuration rests at the origin.
pub open spec fn basic_direction(held: Intensities, config: Option<&JoystickAngleConfiguration>) -> (
    int,
    int,
) {
    match config {
        None => (0, 0),
        Some(c) => {
            let (x, y) = key_vector(held, c.analog_range);
            shaped(x, y, applied_fraction(x, y, c.up_diagonal_angle as int, c.second_fraction()))
        },
    }
}

/// Whether `bind` is among the keys that are held down.
pub open spec fn key_held(keys: Seq<u8>, bind: u8) -> bool {
    keys.contains(bind)
}

/// Whether one of up to two bound keys is held down.
pub open spec fn binding_held(keys: Seq<u8>, bind_one: Option<u8>, bind_two: Option<u8>) -> bool {
    ||| (bind_one is Some && key_held(keys, bind_one->0))
    ||| (bind_two is Some && key_held(keys, bind_two->0))
}

/// The intensities that a keyboard gives under a key mapping.
pub open spec fn keyboard_intensities(keys: Seq<u8>, mappings: JoystickKeyMapping) -> Intensities {
    Intensities {
        up: digital_intensity(binding_held(keys, mappings.up, mappings.up_two)),
        down: digital_intensity(binding_held(keys, mappings.down, mappings.down_two)),
        left: digital_intensity(binding_held(keys, mappings.left, mappings.left_two)),
        right: digital_intensity(binding_held(keys, mappings.right, mappings.right_two)),
    }
}

/// One stick: how far each of its four directions is pressed.
#[derive(Debug)]
pub struct JoystickState {
    up: JoystickDirectionState,
    down: JoystickDirectionState,
    left: JoystickDirectionState,
    right: JoystickDirectionState,
}

impl View for JoystickState {
    type V = Intensities;

    closed spec fn view(&self) -> Intensities {
        Intensities { up: self.up@, down: self.down@, left: self.left@, right: self.right@ }
    }
}

impl JoystickState {
    /// A stick at rest.
    pub fn new() -> (state: Self)
        ensures
            state@ == Intensities::released(),
    {
        Self {
            up: JoystickDirectionState::new(),
            down: JoystickDirectionState::new(),
            left: JoystickDirectionState::new(),
            right: JoystickDirectionState::new(),
        }
    }

    /// How far a direction is pressed.
    pub fn get(&self, direction: JoystickDirection) -> (value: i64)
        ensures
            value == self@.get(direction),
    {
        match direction {
            JoystickDirection::Up => self.up.get(),
            JoystickDirection::Down => self.down.get(),
            JoystickDirection::Left => self.left.get(),
            JoystickDirection::Right => self.right.get(),
        }
    }

    /// How far a direction is pressed, read through the activation window
    /// `analog_range`.
    pub fn get_with_range(&self, direction: JoystickDirection, analog_range: &(i64, i64)) -> (value: i64)
        ensures
            value == ranged(self@.get(direction), analog_range.0 as int, analog_range.1 as int),
            0 <= value <= UNIT,
    {
        match direction {
            JoystickDirection::Up => self.up.get_with_range(analog_range),
            JoystickDirection::Down => self.down.get_with_range(analog_range),
            JoystickDirection::Left => self.left.get_with_range(analog_range),
            JoystickDirection::Right => self.right.get_with_range(analog_range),
        }
    }

    /// Tells whether the key `bind` is among `keys`, the keys that are held down.
    pub fn get_key_state(&self, keys: &Vec<u8>, bind: u8) -> (held: bool)
        ensures
            held == key_held(keys@, bind),
        no_unwind
    {
        let mut i: usize = 0;
        while i < keys.len()
            invariant
                i <= keys.len(),
                forall|j: int| 0 <= j < i ==> keys@[j] != bind,
            decreases keys.len() - i,
        {
            if keys[i] == bind {
                return true;
            }
            i += 1;
        }
        false
    }

    /// Stores the key state of one direction and tells whether it changed.
    pub fn set_direction_state_digital(&mut self, direction: JoystickDirection, state: bool) -> (changed:
        bool)
        ensures
            final(self)@ == old(self)@.with(direction, digital_intensity(state)),
            changed == (old(self)@.get(direction) != digital_intensity(state)),
        no_unwind
    {
        match direction {
            JoystickDirection::Up => self.up.update_digital(state),
            JoystickDirection::Down => self.down.update_digital(state),
            JoystickDirection::Left => self.left.update_digital(state),
            JoystickDirection::Right => self.right.update_digital(state),
        }
    }

    /// Stores the analog reading of one direction and tells whether it changed.
    pub fn set_direction_state_analog(&mut self, direction: JoystickDirection, state: i64) -> (changed:
        bool)
        ensures
            final(self)@ == old(self)@.with(direction, state as int),
            changed == (old(self)@.get(direction) != state),
        no_unwind
    {
        match direction {
            JoystickDirection::Up => self.up.update_analog(state),
            JoystickDirection::Down => self.down.update_analog(state),
            JoystickDirection::Left => self.left.update_analog(state),
            JoystickDirection::Right => self.right.update_analog(state),
        }
    }

    /// Sets one direction from the keyboard: pressed where one of its bound
    /// keys is held down. Tells whether the direction changed.
    pub fn update_key_state(
        &mut self,
        keys: &Vec<u8>,
        direction: JoystickDirection,
        bind_one: Option<&u8>,
        bind_two: Option<&u8>,
    ) -> (changed: bool)
        ensures
            final(self)@ == old(self)@.with(
                direction,
                digital_intensity(binding_held(keys@, deref_key(bind_one), deref_key(bind_two))),
            ),
            changed == (old(self)@.get(direction) != digital_intensity(
                binding_held(keys@, deref_key(bind_one), deref_key(bind_two)),
            )),
        no_unwind
    {
        let mut key_state = false;
        if let Some(bind_one) = bind_one {
            if self.get_key_state(keys, *bind_one) {
                key_state = true;
            }
        }
        if let Some(bind_two) = bind_two {
            if self.get_key_state(keys, *bind_two) {
                key_state = true;
            }
        }
        self.set_direction_state_digital(direction, key_state)
    }

    /// Sets all four directions from the keyboard and tells whether any of
    /// them changed.
    pub fn update_key_states(&mut self, keys: &Vec<u8>, mappings: &JoystickKeyMapping) -> (changed: bool)
        ensures
            final(self)@ == keyboard_intensities(keys@, *mappings),
            changed == (old(self)@ != keyboard_intensities(keys@, *mappings)),
        no_unwind
    {
        let up = self.update_key_state(
            keys,
            JoystickDirection::Up,
            key_ref(&mappings.up),
            key_ref(&mappings.up_two),
        );
        let down = self.update_key_state(
            keys,
            JoystickDirection::Down,
            key_ref(&mappings.down),
            key_ref(&mappings.down_two),
        );
        let left = self.update_key_state(
            keys,
            JoystickDirection::Left,
            key_ref(&mappings.left),
            key_ref(&mappings.left_two),
        );
        let right = self.update_key_state(
            keys,
            JoystickDirection::Right,
            key_ref(&mappings.right),
            key_ref(&mappings.right_two),
        );
        up || down || left || right
    }

    /// The stick vector: the key vector of what is held, shaped as `config`
    /// says. Without a configuration the stick rests at the origin.
    pub fn get_basic_direction(&self, config: Option<&JoystickAngleConfiguration>) -> (r: (i64, i64))
        requires
            config matches Some(c) ==> c.wf(),
        ensures
            (r.0 as int, r.1 as int) == basic_direction(self@, config),
            is_axis(r.0 as int),
            is_axis(r.1 as int),
    {
        let config = match config {
            None => {
                return (0, 0);
            },
            Some(c) => c,
        };
        let angle: i64 = config.up_diagonal_angle;
        let left_right_angle: Option<i64> = if config.use_left_right_angle {
            Some(config.left_right_angle)
        } else {
            None
        };
        let analog_range = config.analog_range;

        let up = self.up.get_with_range(&analog_range);
        let down = self.down.get_with_range(&analog_range);
        let left = self.left.get_with_range(&analog_range);
        let right = self.right.get_with_range(&analog_range);

        let y: i64 = if up > down {
            up
        } else if down > up {
            -down
        } else {
            0
        };
        let x: i64 = if right > left {
            right
        } else if left > right {
            -left
        } else {
            0
        };
        process_circular_direction(x, y, angle, left_right_angle)
    }

    /// The stick vector as a pair of signed 16-bit axes.
    pub fn get_xusb_direction(&self, config: Option<&JoystickAngleConfiguration>) -> (r: (i16, i16))
        requires
            config matches Some(c) ==> c.wf(),
        ensures
            r.0 as int == xusb_axis(basic_direction(self@, config).0),
            r.1 as int == xusb_axis(basic_direction(self@, config).1),
    {
        let (x, y) = self.get_basic_direction(config);
        (float_to_xusb_js_axis(x), float_to_xusb_js_axis(y))
    }

    /// The stick vector as a pair of unsigned 8-bit axes, the vertical one
    /// pointing down.
    pub fn get_ds4_direction(&self, config: Option<&JoystickAngleConfiguration>) -> (r: (u8, u8))
        requires
            config matches Some(c) ==> c.wf(),
        ensures
            r.0 as int == ds4_axis(basic_direction(self@, config).0),
            r.1 as int == ds4_axis(-basic_direction(self@, config).1),
    {
        let (x, y) = self.get_basic_direction(config);
        (float_to_ds4_js_axis(x), float_to_ds4_js_axis(-y))
    }
}

/// The key behind an optional reference.
pub open spec fn deref_key(bind: Option<&u8>) -> Option<u8> {
    match bind {
        Some(b) => Some(*b),
        None => None,
    }
}

/// A reference to the key of a binding, where it has one.
fn key_ref(bind: &Option<u8>) -> (key: Option<&u8>)
    ensures
        deref_key(key) == *bind,
    no_unwind
{
    match bind {
        Some(key) => Some(key),
        None => None,
    }
}

/// No input gives the origin: a stick whose directions are all released rests
/// at (0, 0), whatever the configuration.
pub proof fn lemma_no_input_at_origin(config: Option<&JoystickAngleConfiguration>)
    ensures
        basic_direction(Intensities::released(), config) == (0int, 0int),
{
}

/// The unit vector of a direction.
pub open spec fn unit_vector(direction: JoystickDirection) -> (int, int) {
    match direction {
        JoystickDirection::Up => (0, UNIT as int),
        JoystickDirection::Down => (0, -UNIT),
        JoystickDirection::Left => (-UNIT, 0),
        JoystickDirection::Right => (UNIT as int, 0),
    }
}

/// One direction pressed alone gives full deflection on its axis and nothing
/// on the other, whatever the shaping fractions are.
///
/// This holds for every activation window that lets a full press through and
/// does not take a released key for a full press.
pub proof fn lemma_single_direction_full_magnitude(
    direction: JoystickDirection,
    config: &JoystickAngleConfiguration,
)
    requires
        ranged(UNIT as int, config.analog_range.0 as int, config.analog_range.1 as int) == UNIT,
        ranged(0, config.analog_range.0 as int, config.analog_range.1 as int) < UNIT,
    ensures
        basic_direction(Intensities::released().with(direction, UNIT as int), Some(config))
            == unit_vector(direction),
{
}

/// A report for the protocol with signed 16-bit axes. Only the sticks are
/// driven.
#[derive(Clone, Copy, Debug, PartialEq, Eq)]
pub struct XusbReport {
    pub s_thumb_lx: i16,
    pub s_thumb_ly: i16,
    pub s_thumb_rx: i16,
    pub s_thumb_ry: i16,
}

/// A report for the protocol with unsigned 8-bit axes, whose vertical axes
/// point down. Only the sticks are driven.
#[derive(Clone, Copy, Debug, PartialEq, Eq)]
pub struct DualShockReport {
    pub b_thumb_lx: u8,
    pub b_thumb_ly: u8,
    pub b_thumb_rx: u8,
    pub b_thumb_ry: u8,
}

/// The 16-bit report that puts the left stick at `(x, y)` and leaves the right
/// stick at its centre.
pub open spec fn xusb_report_from_axis(x: int, y: int) -> XusbReport {
    XusbReport {
        s_thumb_lx: xusb_axis(x) as i16,
        s_thumb_ly: xusb_axis(y) as i16,
        s_thumb_rx: 0,
        s_thumb_ry: 0,
    }
}

/// The 8-bit report that puts the left stick at `(x, y)` and leaves the right
/// stick at its centre.
pub open spec fn ds4_report_from_axis(x: int, y: int) -> DualShockReport {
    DualShockReport {
        b_thumb_lx: ds4_axis(x) as u8,
        b_thumb_ly: ds4_axis(-y) as u8,
        b_thumb_rx: 128,
        b_thumb_ry: 128,
    }
}

/// The two sticks of a controller.
#[derive(Debug)]
pub struct ControllerState {
    pub left_joystick: JoystickState,
    pub right_joystick: JoystickState,
}

impl ControllerState {
    /// Both sticks at rest.
    pub fn new() -> (state: Self)
        ensures
            state.left_joystick@ == Intensities::released(),
            state.right_joystick@ == Intensities::released(),
    {
        Self { left_joystick: JoystickState::new(), right_joystick: JoystickState::new() }
    }

    /// The 16-bit report for a left stick at `(x, y)`.
    pub fn get_xusb_report_from_axis(&self, x: i64, y: i64) -> (report: XusbReport)
        ensures
            report == xusb_report_from_axis(x as int, y as int),
    {
        let (lx, ly) = (float_to_xusb_js_axis(x), float_to_xusb_js_axis(y));
        let (rx, ry) = (float_to_xusb_js_axis(0), float_to_xusb_js_axis(0));
        XusbReport { s_thumb_lx: lx, s_thumb_ly: ly, s_thumb_rx: rx, s_thumb_ry: ry }
    }

    /// The 16-bit report for what the left stick holds, shaped as `config`
    /// says. The right stick is never driven and stays at its centre.
    pub fn get_xusb_report(&self, config: Option<&JoystickAngleConfiguration>) -> (report: XusbReport)
        requires
            config matches Some(c) ==> c.wf(),
        ensures
            report == xusb_report_from_axis(
                basic_direction(self.left_joystick@, config).0,
                basic_direction(self.left_joystick@, config).1,
            ),
    {
        let (lx, ly) = self.left_joystick.get_xusb_direction(config);
        let (rx, ry) = self.right_joystick.get_xusb_direction(None);
        XusbReport { s_thumb_lx: lx, s_thumb_ly: ly, s_thumb_rx: rx, s_thumb_ry: ry }
    }

    /// The 8-bit report for a left stick at `(x, y)`.
    pub fn get_ds4_report_from_axis(&self, x: i64, y: i64) -> (report: DualShockReport)
        ensures
            report == ds4_report_from_axis(x as int, y as int),
    {
        let down: i64 = if y == i64::MIN {
            i64::MAX
        } else {
            -y
        };
        let (lx, ly) = (float_to_ds4_js_axis(x), float_to_ds4_js_axis(down));
        let (rx, ry) = (float_to_ds4_js_axis(0), float_to_ds4_js_axis(0));
        DualShockReport { b_thumb_lx: lx, b_thumb_ly: ly, b_thumb_rx: rx, b_thumb_ry: ry }
    }

    /// The 8-bit report for what the left stick holds, shaped as `config`
    /// says. The right stick is never driven and stays at its centre.
    pub fn get_ds4_report(&self, config: Option<&JoystickAngleConfiguration>) -> (report:
        DualShockReport)
        requires
            config matches Some(c) ==> c.wf(),
        ensures
            report == ds4_report_from_axis(
                basic_direction(self.left_joystick@, config).0,
                basic_direction(self.left_joystick@, config).1,
            ),
    {
        let (lx, ly) = self.left_joystick.get_ds4_direction(config);
        let (rx, ry) = self.right_joystick.get_ds4_direction(None);
        DualShockReport { b_thumb_lx: lx, b_thumb_ly: ly, b_thumb_rx: rx, b_thumb_ry: ry }
    }
}

} // verus!
