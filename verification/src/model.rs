//! The session as a state machine: what a session holds, and what each call
//! makes of it and orders.
//!
//! The executable session in `service` is verified against these transitions.

use vstd::prelude::*;
use crate::config::{default_configuration, JoystickKeyMapping, ServiceConfiguration};
use crate::controller::{
    basic_direction, digital_intensity, ds4_report_from_axis, keyboard_intensities,
    xusb_report_from_axis, Intensities, JoystickDirection,
};
use crate::protocol::{
    AnalogFailure, AnalogSourceState, Command, ControllerReport, DeviceProfile, InputMode,
    InputView, Lifecycle, ServiceError,
};
use crate::shaping::larger;

verus! {

/// The vertical deflection of the test vector that is put out while a session
/// shows which controller is its own: 0.6.
pub const DETECTION_AXIS: i64 = 600_000;

/// Which of the bound keys of a raw keyboard stream are down.
#[derive(Clone, Copy, Debug, PartialEq, Eq)]
pub struct KeyBindState {
    pub up: bool,
    pub up_two: bool,
    pub down: bool,
    pub down_two: bool,
    pub left: bool,
    pub left_two: bool,
    pub right: bool,
    pub right_two: bool,
}

impl KeyBindState {
    /// No key down.
    pub open spec fn released() -> KeyBindState {
        KeyBindState {
            up: false,
            up_two: false,
            down: false,
            down_two: false,
            left: false,
            left_two: false,
            right: false,
            right_two: false,
        }
    }

    /// This state with the first or the second key of a direction set.
    pub open spec fn with(self, direction: JoystickDirection, second: bool, pressed: bool) -> KeyBindState {
        match (direction, second) {
            (JoystickDirection::Up, false) => KeyBindState { up: pressed, ..self },
            (JoystickDirection::Up, true) => KeyBindState { up_two: pressed, ..self },
            (JoystickDirection::Down, false) => KeyBindState { down: pressed, ..self },
            (JoystickDirection::Down, true) => KeyBindState { down_two: pressed, ..self },
            (JoystickDirection::Left, false) => KeyBindState { left: pressed, ..self },
            (JoystickDirection::Left, true) => KeyBindState { left_two: pressed, ..self },
            (JoystickDirection::Right, false) => KeyBindState { right: pressed, ..self },
            (JoystickDirection::Right, true) => KeyBindState { right_two: pressed, ..self },
        }
    }

    /// Whether one of the two keys of a direction is down.
    pub open spec fn spec_held(&self, direction: JoystickDirection) -> bool {
        match direction {
            JoystickDirection::Up => self.up || self.up_two,
            JoystickDirection::Down => self.down || self.down_two,
            JoystickDirection::Left => self.left || self.left_two,
            JoystickDirection::Right => self.right || self.right_two,
        }
    }

    /// No key down.
    pub fn new() -> (state: Self)
        ensures
            state == KeyBindState::released(),
    {
        KeyBindState {
            up: false,
            up_two: false,
            down: false,
            down_two: false,
            left: false,
            left_two: false,
            right: false,
            right_two: false,
        }
    }

    /// Sets the first or the second key of a direction.
    pub fn set(&mut self, direction: JoystickDirection, second: bool, pressed: bool)
        ensures
            *final(self) == old(self).with(direction, second, pressed),
        no_unwind
    {
        match direction {
            JoystickDirection::Up => if second {
                self.up_two = pressed;
            } else {
                self.up = pressed;
            },
            JoystickDirection::Down => if second {
                self.down_two = pressed;
            } else {
                self.down = pressed;
            },
            JoystickDirection::Left => if second {
                self.left_two = pressed;
            } else {
                self.left = pressed;
            },
            JoystickDirection::Right => if second {
                self.right_two = pressed;
            } else {
                self.right = pressed;
            },
        }
    }

    /// Tells whether one of the two keys of a direction is down.
    #[verifier::when_used_as_spec(spec_held)]
    pub fn held(&self, direction: JoystickDirection) -> (held: bool)
        ensures
            held == self.spec_held(direction),
        no_unwind
    {
        match direction {
            JoystickDirection::Up => self.up || self.up_two,
            JoystickDirection::Down => self.down || self.down_two,
            JoystickDirection::Left => self.left || self.left_two,
            JoystickDirection::Right => self.right || self.right_two,
        }
    }
}

/// The binding that a key of a raw keyboard stream belongs to: its direction,
/// and whether it is the second key of that direction. Where a key is bound
/// more than once, the first of up, down, right and left counts, and of one
/// direction the first key.
pub open spec fn bound_slot(mappings: JoystickKeyMapping, key: u8) -> Option<(JoystickDirection, bool)> {
    if mappings.up == Some(key) {
        Some((JoystickDirection::Up, false))
    } else if mappings.up_two == Some(key) {
        Some((JoystickDirection::Up, true))
    } else if mappings.down == Some(key) {
        Some((JoystickDirection::Down, false))
    } else if mappings.down_two == Some(key) {
        Some((JoystickDirection::Down, true))
    } else if mappings.right == Some(key) {
        Some((JoystickDirection::Right, false))
    } else if mappings.right_two == Some(key) {
        Some((JoystickDirection::Right, true))
    } else if mappings.left == Some(key) {
        Some((JoystickDirection::Left, false))
    } else if mappings.left_two == Some(key) {
        Some((JoystickDirection::Left, true))
    } else {
        None
    }
}

/// What one event of the raw keyboard stream makes of the keys that are down
/// and of a stick. The event of a bound key is taken down, and the direction
/// of the key is pressed while one of its two keys is down. Any other event,
/// and no event, changes nothing.
pub open spec fn key_event(
    keys: KeyBindState,
    held: Intensities,
    mappings: JoystickKeyMapping,
    event: Option<(u8, bool)>,
) -> (KeyBindState, Intensities) {
    match event {
        Some((key, pressed)) => match bound_slot(mappings, key) {
            Some((direction, second)) => {
                let down = keys.with(direction, second, pressed);
                (down, held.with(direction, digital_intensity(down.spec_held(direction))))
            },
            None => (keys, held),
        },
        None => (keys, held),
    }
}

/// What the analog source reads for a bound key: nothing for a key that is
/// not bound or not among the readings.
pub open spec fn analog_reading(values: Map<u16, i64>, bind: Option<u8>) -> int {
    match bind {
        Some(key) => if values.contains_key(key as u16) {
            values[key as u16] as int
        } else {
            0
        },
        None => 0,
    }
}

/// What the analog source reads for a direction: the larger reading of its
/// two keys.
pub open spec fn bind_analog(values: Map<u16, i64>, bind_one: Option<u8>, bind_two: Option<u8>) -> int {
    larger(analog_reading(values, bind_one), analog_reading(values, bind_two))
}

/// The intensities that a reading of the analog source gives under a key
/// mapping.
pub open spec fn analog_intensities(values: Map<u16, i64>, mappings: JoystickKeyMapping) -> Intensities {
    Intensities {
        up: bind_analog(values, mappings.up, mappings.up_two),
        down: bind_analog(values, mappings.down, mappings.down_two),
        left: bind_analog(values, mappings.left, mappings.left_two),
        right: bind_analog(values, mappings.right, mappings.right_two),
    }
}

/// What a session holds.
pub ghost struct ServiceModel {
    /// Where the session stands.
    pub lifecycle: Lifecycle,
    /// Whether the link to the driver is open.
    pub driver_linked: bool,
    /// The kind of controller that the session plugs in.
    pub profile: DeviceProfile,
    /// Whether the keyboard is read as a raw stream of events.
    pub raw_input: bool,
    /// The configuration in force.
    pub config: ServiceConfiguration,
    /// Which bound keys of the raw stream are down.
    pub key_bind_state: KeyBindState,
    /// What the left stick holds.
    pub left: Intensities,
    /// What the right stick holds.
    pub right: Intensities,
    /// Whether the analog source runs.
    pub analog_initialised: bool,
    /// What is known of the analog source.
    pub sdk_state: AnalogSourceState,
    /// Whether the test vector is put out in place of the input.
    pub is_detecting: bool,
    /// Whether a configuration was taken that no tick has written out yet.
    pub dirty: bool,
}

impl ServiceModel {
    /// What holds of every session: its configuration is in range, and a
    /// controller is plugged in only over an open link.
    pub open spec fn wf(self) -> bool {
        &&& self.config.wf()
        &&& (self.lifecycle is Connected ==> self.driver_linked)
    }

    /// A new session: nothing held, the default configuration, sticks at rest.
    pub open spec fn initial(profile: DeviceProfile, raw_input: bool) -> ServiceModel {
        ServiceModel {
            lifecycle: Lifecycle::Uninitialized,
            driver_linked: false,
            profile,
            raw_input,
            config: default_configuration(),
            key_bind_state: KeyBindState::released(),
            left: Intensities::released(),
            right: Intensities::released(),
            analog_initialised: false,
            sdk_state: AnalogSourceState::Uninitialized,
            is_detecting: false,
            dirty: false,
        }
    }

    /// The report for a left stick at `(x, y)`, in the form of the profile.
    pub open spec fn report_from_axis(self, x: int, y: int) -> ControllerReport {
        match self.profile {
            DeviceProfile::Xbox360 => ControllerReport::Xusb(xusb_report_from_axis(x, y)),
            DeviceProfile::DualShock4 => ControllerReport::DualShock(ds4_report_from_axis(x, y)),
        }
    }

    /// The report for what the left stick holds, shaped as configured.
    pub open spec fn report(self) -> ControllerReport {
        let vector = basic_direction(self.left, Some(&self.config.left_joystick_strafing_angles));
        self.report_from_axis(vector.0, vector.1)
    }

    /// The report of the test vector.
    pub open spec fn detection_report(self) -> ControllerReport {
        self.report_from_axis(0, DETECTION_AXIS as int)
    }

    /// Where the input of the next tick comes from.
    pub open spec fn input_mode(self) -> InputMode {
        if self.is_detecting {
            InputMode::DetectionTest
        } else if self.analog_initialised {
            InputMode::AnalogPoll
        } else if self.raw_input {
            InputMode::RawEventStream
        } else {
            InputMode::DigitalPoll
        }
    }

    /// The order to write the current report, where a controller is plugged in.
    pub open spec fn update_controller(self) -> Seq<Command> {
        if self.lifecycle is Connected {
            seq![Command::WriteReport(self.report())]
        } else {
            seq![]
        }
    }

    /// The order to start the analog source, where it does not run.
    pub open spec fn init_analog(self) -> Seq<Command> {
        if self.analog_initialised {
            seq![]
        } else {
            seq![Command::InitAnalog]
        }
    }

    /// Gives the analog source up: where it runs, it is ordered to shut down
    /// and counts as not in use.
    pub open spec fn uninit_analog(self) -> (ServiceModel, Seq<Command>) {
        if self.analog_initialised {
            (
                ServiceModel {
                    analog_initialised: false,
                    sdk_state: AnalogSourceState::Uninitialized,
                    ..self
                },
                seq![Command::UninitAnalog],
            )
        } else {
            (self, seq![])
        }
    }

    /// A start. It does nothing unless the session is uninitialized, and
    /// refuses a configuration that is out of range. Else the configuration
    /// is taken and the session is connecting: the analog source is started
    /// where it is asked for, and the link to the driver is opened or, where
    /// it is still open, the controller plugged in.
    pub open spec fn init(self, config: ServiceConfiguration) -> (
        ServiceModel,
        Result<Seq<Command>, ServiceError>,
    ) {
        if !(self.lifecycle is Uninitialized) {
            (self, Ok(seq![]))
        } else if !config.wf() {
            (self, Err(ServiceError::ConfigParseFailed))
        } else {
            let next = ServiceModel { lifecycle: Lifecycle::Connecting, config, ..self };
            let analog = if config.use_analog_input {
                next.init_analog()
            } else {
                seq![]
            };
            let link = if self.driver_linked {
                seq![Command::RegisterTarget(self.profile)]
            } else {
                seq![Command::ConnectDriver]
            };
            (next, Ok(analog + link))
        }
    }

    /// The answer to `ConnectDriver`. While the link is awaited, an open link
    /// is followed by the order to plug the controller in, and a failure ends
    /// the start. At any other time the answer is ignored.
    pub open spec fn driver_connected(self, ok: bool) -> (
        ServiceModel,
        Result<Seq<Command>, ServiceError>,
    ) {
        if self.lifecycle is Connecting && !self.driver_linked {
            if ok {
                (
                    ServiceModel { driver_linked: true, ..self },
                    Ok(seq![Command::RegisterTarget(self.profile)]),
                )
            } else {
                (
                    ServiceModel { lifecycle: Lifecycle::Uninitialized, ..self },
                    Err(ServiceError::DriverConnectionFailed),
                )
            }
        } else {
            (self, Ok(seq![]))
        }
    }

    /// The answer to `RegisterTarget`. While the controller is awaited, a
    /// plugged-in controller makes the session connected and gets a first
    /// report at once, which leaves nothing unwritten, and a failure ends the
    /// start. At any other time the answer is ignored.
    pub open spec fn target_registered(self, ok: bool) -> (
        ServiceModel,
        Result<Seq<Command>, ServiceError>,
    ) {
        if self.lifecycle is Connecting && self.driver_linked {
            if ok {
                let next = ServiceModel { lifecycle: Lifecycle::Connected, dirty: false, ..self };
                (next, Ok(next.update_controller()))
            } else {
                (
                    ServiceModel { lifecycle: Lifecycle::Uninitialized, ..self },
                    Err(ServiceError::TargetRegistrationFailed),
                )
            }
        } else {
            (self, Ok(seq![]))
        }
    }

    /// The answer to `InitAnalog`: the names of the devices of the source, or
    /// why it did not start. A source that runs already keeps its state. A
    /// source that did not start leaves the session with the keyboard.
    pub open spec fn analog_initialised(self, outcome: Result<Seq<String>, AnalogFailure>) -> (
        ServiceModel,
        Option<ServiceError>,
    ) {
        if self.analog_initialised {
            (self, None)
        } else {
            match outcome {
                Ok(devices) => (
                    ServiceModel {
                        analog_initialised: true,
                        sdk_state: if devices.len() > 0 {
                            AnalogSourceState::DevicesConnected(devices)
                        } else {
                            AnalogSourceState::NoDevices
                        },
                        ..self
                    },
                    None,
                ),
                Err(failure) => (
                    ServiceModel { sdk_state: AnalogSourceState::Error(failure), ..self },
                    Some(ServiceError::AnalogSourceInitFailed),
                ),
            }
        }
    }

    /// The answer to `RefreshDevices`: devices that have appeared are taken
    /// down where none were known.
    pub open spec fn devices_refreshed(self, devices: Seq<String>) -> ServiceModel {
        if self.sdk_state is NoDevices && devices.len() > 0 {
            ServiceModel { sdk_state: AnalogSourceState::DevicesConnected(devices), ..self }
        } else {
            self
        }
    }

    /// A new configuration. One that is out of range is refused. Else it is
    /// taken, the analog source is started or given up as it asks, and the
    /// report is written anew where a controller is plugged in, whether or
    /// not any key has changed. The session is dirty from then on, so that
    /// the next tick writes the report once more.
    pub open spec fn set_config(self, config: ServiceConfiguration) -> (
        ServiceModel,
        Result<Seq<Command>, ServiceError>,
    ) {
        if !config.wf() {
            (self, Err(ServiceError::ConfigParseFailed))
        } else {
            let taken = ServiceModel { config, dirty: true, ..self };
            let (next, analog) = if config.use_analog_input {
                (taken, taken.init_analog())
            } else {
                taken.uninit_analog()
            };
            (next, Ok(analog + next.update_controller()))
        }
    }

    /// The test vector on the left stick.
    pub open spec fn output_controller_detection(self) -> (ServiceModel, Seq<Command>) {
        if self.lifecycle is Connected {
            (
                ServiceModel {
                    left: Intensities { up: DETECTION_AXIS as int, down: 0, left: 0, right: 0 },
                    ..self
                },
                seq![Command::WriteReport(self.detection_report())],
            )
        } else {
            (self, seq![])
        }
    }

    /// The keys that are held down, laid on the left stick.
    pub open spec fn update_key_states(self, keys: Seq<u8>) -> ServiceModel {
        ServiceModel {
            left: keyboard_intensities(keys, self.config.key_mapping.left_joystick),
            ..self
        }
    }

    /// One event of the raw keyboard stream, laid on the left stick.
    pub open spec fn process_rawinput_event(self, event: Option<(u8, bool)>) -> ServiceModel {
        let (keys, left) = key_event(
            self.key_bind_state,
            self.left,
            self.config.key_mapping.left_joystick,
            event,
        );
        ServiceModel { key_bind_state: keys, left, ..self }
    }

    /// A reading of the analog source, laid on the left stick.
    pub open spec fn update_analog_inputs(self, values: Map<u16, i64>) -> ServiceModel {
        ServiceModel {
            left: analog_intensities(values, self.config.key_mapping.left_joystick),
            ..self
        }
    }

    /// A tick on which the analog source gave no reading: the left stick
    /// comes to rest, and a source that names no device as the cause is known
    /// to have none.
    pub open spec fn analog_read_failed(self, failure: AnalogFailure) -> ServiceModel {
        ServiceModel {
            left: Intensities::released(),
            sdk_state: if failure is NoDevices {
                AnalogSourceState::NoDevices
            } else {
                self.sdk_state
            },
            ..self
        }
    }

    /// What the input of a tick makes of the session while it reads input:
    /// the input of the source in use is laid on the left stick, and any
    /// other input is passed over.
    pub open spec fn take_input(self, input: InputView) -> ServiceModel {
        if self.analog_initialised {
            match input {
                InputView::Analog(values) => self.update_analog_inputs(values),
                InputView::AnalogFailed(failure) => self.analog_read_failed(failure),
                _ => self,
            }
        } else if self.raw_input {
            match input {
                InputView::RawEvent(event) => self.process_rawinput_event(event),
                _ => self,
            }
        } else {
            match input {
                InputView::Keys(keys) => self.update_key_states(keys),
                _ => self,
            }
        }
    }

    /// The order to look for analog devices: given on a tick that has a
    /// reading of the analog source while no device is known.
    pub open spec fn refresh_devices(self, input: InputView) -> Seq<Command> {
        if self.analog_initialised && input is Analog && self.sdk_state is NoDevices {
            seq![Command::RefreshDevices]
        } else {
            seq![]
        }
    }

    /// A tick. It does nothing unless the session is connected. While the
    /// test vector is shown, it is written on every tick. Else the input is
    /// taken, and the report is written where the left stick has changed or
    /// the session is dirty, which it is no longer after that.
    pub open spec fn poll(self, input: InputView) -> (ServiceModel, Seq<Command>) {
        if !(self.lifecycle is Connected) {
            (self, seq![])
        } else if self.is_detecting {
            self.output_controller_detection()
        } else {
            let taken = self.take_input(input);
            let write = if taken.left != self.left || self.dirty {
                taken.update_controller()
            } else {
                seq![]
            };
            (ServiceModel { dirty: false, ..taken }, self.refresh_devices(input) + write)
        }
    }

    /// A stop. What is held is ordered to be given up, each thing once: the
    /// controller where one is plugged in, the link where it is open, the
    /// analog source where it runs. The session is stopping until `stopped`
    /// confirms it; where nothing was held it is uninitialized at once.
    pub open spec fn stop(self) -> (ServiceModel, Seq<Command>) {
        let release = if self.lifecycle is Connected {
            seq![Command::ReleaseTarget]
        } else {
            seq![]
        };
        let unlink = if self.driver_linked {
            seq![Command::DisconnectDriver]
        } else {
            seq![]
        };
        let (without_analog, analog) = self.uninit_analog();
        let commands = release + unlink + analog;
        (
            ServiceModel {
                lifecycle: if self.lifecycle is Stopping || commands.len() > 0 {
                    Lifecycle::Stopping
                } else {
                    Lifecycle::Uninitialized
                },
                driver_linked: false,
                ..without_analog
            },
            commands,
        )
    }

    /// The teardown is done: a stopping session is uninitialized.
    pub open spec fn stopped(self) -> ServiceModel {
        if self.lifecycle is Stopping {
            ServiceModel { lifecycle: Lifecycle::Uninitialized, ..self }
        } else {
            self
        }
    }

    /// The number under which the driver runs the controller, where there is
    /// one to ask for: a plugged-in controller of the 16-bit profile.
    pub open spec fn xinput_slot(self, driver_index: u32) -> Option<u32> {
        if self.lifecycle is Connected && self.profile is Xbox360 {
            Some(driver_index)
        } else {
            None
        }
    }
}

/// The steps that the lifecycle of a session can take: from uninitialized to
/// connecting, from there to connected or back, from anywhere but stopping
/// into stopping, and from stopping to uninitialized.
pub open spec fn may_follow(before: Lifecycle, after: Lifecycle) -> bool {
    ||| before == after
    ||| before is Uninitialized && (after is Connecting || after is Stopping)
    ||| before is Connecting && (after is Connected || after is Uninitialized || after is Stopping)
    ||| before is Connected && after is Stopping
    ||| before is Stopping && after is Uninitialized
}

/// Every call keeps what holds of every session.
pub proof fn lemma_calls_keep_wf(
    s: ServiceModel,
    config: ServiceConfiguration,
    ok: bool,
    outcome: Result<Seq<String>, AnalogFailure>,
    devices: Seq<String>,
    input: InputView,
)
    requires
        s.wf(),
    ensures
        s.init(config).0.wf(),
        s.driver_connected(ok).0.wf(),
        s.target_registered(ok).0.wf(),
        s.analog_initialised(outcome).0.wf(),
        s.devices_refreshed(devices).wf(),
        s.set_config(config).0.wf(),
        s.poll(input).0.wf(),
        s.stop().0.wf(),
        s.stopped().wf(),
{
}

/// Every call moves the lifecycle by a step that `may_follow` allows, and only
/// `target_registered` makes a session connected.
pub proof fn lemma_lifecycle_steps(
    s: ServiceModel,
    config: ServiceConfiguration,
    ok: bool,
    outcome: Result<Seq<String>, AnalogFailure>,
    devices: Seq<String>,
    input: InputView,
)
    ensures
        may_follow(s.lifecycle, s.init(config).0.lifecycle),
        may_follow(s.lifecycle, s.driver_connected(ok).0.lifecycle),
        may_follow(s.lifecycle, s.target_registered(ok).0.lifecycle),
        may_follow(s.lifecycle, s.stop().0.lifecycle),
        may_follow(s.lifecycle, s.stopped().lifecycle),
        s.analog_initialised(outcome).0.lifecycle == s.lifecycle,
        s.devices_refreshed(devices).lifecycle == s.lifecycle,
        s.set_config(config).0.lifecycle == s.lifecycle,
        s.poll(input).0.lifecycle == s.lifecycle,
        !(s.lifecycle is Connected) ==> {
            &&& !(s.init(config).0.lifecycle is Connected)
            &&& !(s.driver_connected(ok).0.lifecycle is Connected)
            &&& !(s.stop().0.lifecycle is Connected)
            &&& !(s.stopped().lifecycle is Connected)
        },
{
}

/// A report is only ever ordered for a connected session, and a session that
/// is not connected is left as it is by a tick.
pub proof fn lemma_reports_need_connection(s: ServiceModel, input: InputView)
    requires
        !(s.lifecycle is Connected),
    ensures
        s.poll(input) == (s, Seq::<Command>::empty()),
        s.update_controller() == Seq::<Command>::empty(),
        s.output_controller_detection() == (s, Seq::<Command>::empty()),
{
}

/// A new configuration shows without new input. A connected session that
/// takes one keeps what its sticks hold and orders, as the last thing, the
/// report that the new configuration gives for it; and its next tick orders
/// the report again, though the input is the same as before.
pub proof fn lemma_config_change_forces_write(
    s: ServiceModel,
    config: ServiceConfiguration,
    input: InputView,
)
    requires
        s.lifecycle is Connected,
        !s.is_detecting,
        config.wf(),
    ensures
        ({
            let (taken, outcome) = s.set_config(config);
            let (next, commands) = taken.poll(input);
            &&& taken.config == config
            &&& taken.left == s.left
            &&& outcome matches Ok(first) && first.len() > 0 && first.last() == Command::WriteReport(
                taken.report(),
            )
            &&& next.config == config
            &&& commands.len() > 0
            &&& commands.last() == Command::WriteReport(next.report())
        }),
{
}

/// A tick writes only what has changed: where the session is not dirty and
/// the input leaves the left stick as it was, no report is ordered.
pub proof fn lemma_unchanged_input_writes_nothing(s: ServiceModel, input: InputView, i: int)
    requires
        !s.is_detecting,
        !s.dirty,
        s.take_input(input).left == s.left,
        0 <= i < s.poll(input).1.len(),
    ensures
        !(s.poll(input).1[i] is WriteReport),
{
}

/// A stop right after a stop orders nothing and changes nothing, so that
/// nothing is given up twice; and the first stop orders the controller to be
/// unplugged once where one is plugged in, and not at all where none is.
pub proof fn lemma_stop_twice(s: ServiceModel)
    ensures
        ({
            let (first, given) = s.stop();
            let (second, again) = first.stop();
            &&& again == Seq::<Command>::empty()
            &&& second == first
            &&& !(first.lifecycle is Connected)
            &&& s.lifecycle is Connected ==> given[0] == Command::ReleaseTarget
            &&& forall|i: int|
                0 <= i < given.len() && #[trigger] given[i] == Command::ReleaseTarget ==> i == 0
                    && s.lifecycle is Connected
        }),
{
    let (first, given) = s.stop();
    let (second, again) = first.stop();
    assert(again =~= Seq::<Command>::empty());
}

} // verus!
