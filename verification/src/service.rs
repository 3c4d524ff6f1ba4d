//! The session: the one object that holds the state of the sticks, the
//! configuration and the lifecycle of the virtual controller.
//!
//! A session performs no input or output itself. Each call takes what was
//! read or answered, decides, and hands back the orders that are to be
//! carried out; `model` says what each call does.

use std::collections::HashMap;
use vstd::prelude::*;
use crate::config::{JoystickKeyMapping, ServiceConfiguration};
use crate::controller::{ControllerState, Intensities, JoystickDirection, JoystickState};
use crate::model::{
    analog_reading, bind_analog, bound_slot, key_event, ServiceModel, DETECTION_AXIS,
};
pub use crate::model::KeyBindState;
use crate::protocol::{
    answered, issued, AnalogFailure, Command, ControllerReport, DeviceProfile, InputMode,
    InputSnapshot, Lifecycle, ServiceError,
};
pub use crate::protocol::AnalogSDKState;

verus! {

/// A session.
pub struct Service {
    key_bind_state: KeyBindState,
    controller_state: ControllerState,
    lifecycle: Lifecycle,
    driver_linked: bool,
    profile: DeviceProfile,
    raw_input: bool,
    config: ServiceConfiguration,
    analog_initialised: bool,
    sdk_state: AnalogSDKState,
    is_detecting: bool,
    dirty: bool,
}

impl View for Service {
    type V = ServiceModel;

    closed spec fn view(&self) -> ServiceModel {
        ServiceModel {
            lifecycle: self.lifecycle,
            driver_linked: self.driver_linked,
            profile: self.profile,
            raw_input: self.raw_input,
            config: self.config,
            key_bind_state: self.key_bind_state,
            left: self.controller_state.left_joystick@,
            right: self.controller_state.right_joystick@,
            analog_initialised: self.analog_initialised,
            sdk_state: self.sdk_state@,
            is_detecting: self.is_detecting,
            dirty: self.dirty,
        }
    }
}

/// Tells whether `bind` is the key `key`.
fn is_key(bind: Option<u8>, key: u8) -> (same: bool)
    ensures
        same == (bind == Some(key)),
    no_unwind
{
    match bind {
        Some(bound) => bound == key,
        None => false,
    }
}

/// Finds the binding that a key of the raw keyboard stream belongs to.
fn find_binding(mappings: &JoystickKeyMapping, key: u8) -> (slot: Option<(JoystickDirection, bool)>)
    ensures
        slot == bound_slot(*mappings, key),
    no_unwind
{
    if is_key(mappings.up, key) {
        Some((JoystickDirection::Up, false))
    } else if is_key(mappings.up_two, key) {
        Some((JoystickDirection::Up, true))
    } else if is_key(mappings.down, key) {
        Some((JoystickDirection::Down, false))
    } else if is_key(mappings.down_two, key) {
        Some((JoystickDirection::Down, true))
    } else if is_key(mappings.right, key) {
        Some((JoystickDirection::Right, false))
    } else if is_key(mappings.right_two, key) {
        Some((JoystickDirection::Right, true))
    } else if is_key(mappings.left, key) {
        Some((JoystickDirection::Left, false))
    } else if is_key(mappings.left_two, key) {
        Some((JoystickDirection::Left, true))
    } else {
        None
    }
}

/// Takes one event of the raw keyboard stream: notes the key and sets the
/// direction it is bound to. Tells whether the stick changed.
fn take_key_event(
    keys: &mut KeyBindState,
    stick: &mut JoystickState,
    mappings: &JoystickKeyMapping,
    event: Option<(u8, bool)>,
) -> (changed: bool)
    ensures
        (*final(keys), final(stick)@) == key_event(*old(keys), old(stick)@, *mappings, event),
        changed == (final(stick)@ != old(stick)@),
    no_unwind
{
    match event {
        Some((key, pressed)) => {
            match find_binding(mappings, key) {
                Some((direction, second)) => {
                    keys.set(direction, second, pressed);
                    let held = keys.held(direction);
                    stick.set_direction_state_digital(direction, held)
                },
                None => false,
            }
        },
        None => false,
    }
}

impl Service {
    #[verifier::type_invariant]
    spec fn inv(self) -> bool {
        &&& self.config.wf()
        &&& (self.lifecycle is Connected ==> self.driver_linked)
    }

    /// A session for the 16-bit profile that asks the keyboard which keys are
    /// held down.
    pub fn new() -> (service: Self)
        ensures
            service@ == ServiceModel::initial(DeviceProfile::Xbox360, false),
            service@.wf(),
    {
        Service::with_profile(DeviceProfile::Xbox360, false)
    }

    /// A session for the given profile. With `raw_input` the keyboard is read
    /// as a raw stream of events.
    pub fn with_profile(profile: DeviceProfile, raw_input: bool) -> (service: Self)
        ensures
            service@ == ServiceModel::initial(profile, raw_input),
            service@.wf(),
    {
        Service {
            key_bind_state: KeyBindState::new(),
            controller_state: ControllerState::new(),
            lifecycle: Lifecycle::Uninitialized,
            driver_linked: false,
            profile,
            raw_input,
            config: ServiceConfiguration::default(),
            analog_initialised: false,
            sdk_state: AnalogSDKState::Uninitialized,
            is_detecting: false,
            dirty: false,
        }
    }

    /// Where the session stands.
    pub fn lifecycle(&self) -> (lifecycle: Lifecycle)
        ensures
            lifecycle == self@.lifecycle,
    {
        self.lifecycle
    }

    /// The configuration in force.
    pub fn config(&self) -> (config: ServiceConfiguration)
        ensures
            config == self@.config,
            config.wf(),
    {
        proof {
            use_type_invariant(self);
        }
        self.config
    }

    /// Where the input of the next tick is to be read from.
    pub fn input_mode(&self) -> (mode: InputMode)
        ensures
            mode == self@.input_mode(),
    {
        if self.is_detecting {
            InputMode::DetectionTest
        } else if self.analog_initialised {
            InputMode::AnalogPoll
        } else if self.raw_input {
            InputMode::RawEventStream
        } else {
            InputMode::DigitalPoll
        }
    }

    /// The report for a left stick at `(x, y)`, in the form of the profile.
    fn report_from_axis(&self, x: i64, y: i64) -> (report: ControllerReport)
        ensures
            report == self@.report_from_axis(x as int, y as int),
    {
        match self.profile {
            DeviceProfile::Xbox360 => ControllerReport::Xusb(
                self.controller_state.get_xusb_report_from_axis(x, y),
            ),
            DeviceProfile::DualShock4 => ControllerReport::DualShock(
                self.controller_state.get_ds4_report_from_axis(x, y),
            ),
        }
    }

    /// The report for what the left stick holds, shaped as configured.
    pub fn report(&self) -> (report: ControllerReport)
        ensures
            report == self@.report(),
    {
        proof {
            use_type_invariant(self);
        }
        match self.profile {
            DeviceProfile::Xbox360 => ControllerReport::Xusb(
                self.controller_state.get_xusb_report(Some(&self.config.left_joystick_strafing_angles)),
            ),
            DeviceProfile::DualShock4 => ControllerReport::DualShock(
                self.controller_state.get_ds4_report(Some(&self.config.left_joystick_strafing_angles)),
            ),
        }
    }

    /// Orders the current report to be written, where a controller is
    /// plugged in.
    fn update_controller(&self) -> (commands: Vec<Command>)
        ensures
            commands@ == self@.update_controller(),
    {
        let mut commands: Vec<Command> = Vec::new();
        if self.lifecycle == Lifecycle::Connected {
            commands.push(Command::WriteReport(self.report()));
        }
        assert(commands@ =~= self@.update_controller());
        commands
    }

    /// Orders the analog source to be started, where it does not run.
    fn init_analog(&self) -> (commands: Vec<Command>)
        ensures
            commands@ == self@.init_analog(),
    {
        let mut commands: Vec<Command> = Vec::new();
        if !self.analog_initialised {
            commands.push(Command::InitAnalog);
        }
        assert(commands@ =~= self@.init_analog());
        commands
    }

    /// Gives the analog source up, where it runs.
    fn uninit_analog(&mut self) -> (commands: Vec<Command>)
        ensures
            (final(self)@, commands@) == old(self)@.uninit_analog(),
    {
        proof {
            use_type_invariant(&*self);
        }
        let mut commands: Vec<Command> = Vec::new();
        if self.analog_initialised {
            self.sdk_state = AnalogSDKState::Uninitialized;
            commands.push(Command::UninitAnalog);
            self.analog_initialised = false;
        }
        assert(commands@ =~= old(self)@.uninit_analog().1);
        commands
    }

    /// Puts the test vector on the left stick and orders its report.
    fn output_controller_detection(&mut self) -> (commands: Vec<Command>)
        ensures
            (final(self)@, commands@) == old(self)@.output_controller_detection(),
    {
        proof {
            use_type_invariant(&*self);
        }
        let mut commands: Vec<Command> = Vec::new();
        if self.lifecycle == Lifecycle::Connected {
            let tiny_axis_y: i64 = DETECTION_AXIS;
            self.controller_state.left_joystick.set_direction_state_analog(JoystickDirection::Left, 0);
            self.controller_state.left_joystick.set_direction_state_analog(JoystickDirection::Right, 0);
            self.controller_state.left_joystick.set_direction_state_analog(
                JoystickDirection::Up,
                tiny_axis_y,
            );
            self.controller_state.left_joystick.set_direction_state_analog(JoystickDirection::Down, 0);
            commands.push(Command::WriteReport(self.report_from_axis(0, tiny_axis_y)));
        }
        assert(commands@ =~= old(self)@.output_controller_detection().1);
        commands
    }

    /// Takes one event of the raw keyboard stream and tells whether the left
    /// stick changed.
    fn process_rawinput_event(&mut self, event: Option<(u8, bool)>) -> (changed: bool)
        ensures
            final(self)@ == old(self)@.process_rawinput_event(event),
            changed == (final(self)@.left != old(self)@.left),
    {
        proof {
            use_type_invariant(&*self);
        }
        take_key_event(
            &mut self.key_bind_state,
            &mut self.controller_state.left_joystick,
            &self.config.key_mapping.left_joystick,
            event,
        )
    }

    /// What the analog source reads for one key.
    fn read_analog(analog_data: &HashMap<u16, i64>, bind: Option<u8>) -> (value: i64)
        ensures
            value == analog_reading(analog_data@, bind),
    {
        broadcast use vstd::std_specs::hash::group_hash_axioms;

        match bind {
            Some(key) => {
                let code: u16 = key as u16;
                match analog_data.get(&code) {
                    Some(value) => *value,
                    None => 0,
                }
            },
            None => 0,
        }
    }

    /// What the analog source reads for a direction: the larger reading of
    /// its two keys.
    fn get_bind_analog(
        &self,
        analog_data: &HashMap<u16, i64>,
        bind_one: Option<u8>,
        bind_two: Option<u8>,
    ) -> (value: i64)
        ensures
            value == bind_analog(analog_data@, bind_one, bind_two),
    {
        let analog_one = Service::read_analog(analog_data, bind_one);
        let analog_two = Service::read_analog(analog_data, bind_two);
        if analog_one >= analog_two {
            analog_one
        } else {
            analog_two
        }
    }

    /// Brings the left stick to rest and tells whether that changed it.
    fn update_direction_analog_empty(&mut self) -> (changed: bool)
        ensures
            final(self)@ == (ServiceModel { left: Intensities::released(), ..old(self)@ }),
            changed == (old(self)@.left != Intensities::released()),
    {
        proof {
            use_type_invariant(&*self);
        }
        let left = self.controller_state.left_joystick.set_direction_state_analog(
            JoystickDirection::Left,
            0,
        );
        let right = self.controller_state.left_joystick.set_direction_state_analog(
            JoystickDirection::Right,
            0,
        );
        let up = self.controller_state.left_joystick.set_direction_state_analog(JoystickDirection::Up, 0);
        let down = self.controller_state.left_joystick.set_direction_state_analog(
            JoystickDirection::Down,
            0,
        );
        left || right || up || down
    }

    /// Sets one direction of the left stick from a reading of the analog
    /// source and tells whether that changed it.
    fn update_direction_analog(
        &mut self,
        direction: JoystickDirection,
        analog_data: &HashMap<u16, i64>,
        bind_one: Option<u8>,
        bind_two: Option<u8>,
    ) -> (changed: bool)
        ensures
            final(self)@ == (ServiceModel {
                left: old(self)@.left.with(direction, bind_analog(analog_data@, bind_one, bind_two)),
                ..old(self)@
            }),
            changed == (old(self)@.left.get(direction) != bind_analog(analog_data@, bind_one, bind_two)),
    {
        proof {
            use_type_invariant(&*self);
        }
        let analog = self.get_bind_analog(analog_data, bind_one, bind_two);
        self.controller_state.left_joystick.set_direction_state_analog(direction, analog)
    }

    /// Lays a reading of the analog source on the left stick and tells
    /// whether that changed it.
    fn update_analog_inputs(&mut self, analog: &HashMap<u16, i64>) -> (changed: bool)
        ensures
            final(self)@ == old(self)@.update_analog_inputs(analog@),
            changed == (final(self)@.left != old(self)@.left),
    {
        proof {
            use_type_invariant(&*self);
        }
        let mappings = self.config.key_mapping.left_joystick;
        let left = self.update_direction_analog(
            JoystickDirection::Left,
            analog,
            mappings.left,
            mappings.left_two,
        );
        let up = self.update_direction_analog(JoystickDirection::Up, analog, mappings.up, mappings.up_two);
        let down = self.update_direction_analog(
            JoystickDirection::Down,
            analog,
            mappings.down,
            mappings.down_two,
        );
        let right = self.update_direction_analog(
            JoystickDirection::Right,
            analog,
            mappings.right,
            mappings.right_two,
        );
        left || up || down || right
    }

    /// Takes a tick on which the analog source gave no reading and tells
    /// whether the left stick changed.
    fn analog_read_failed(&mut self, failure: AnalogFailure) -> (changed: bool)
        ensures
            final(self)@ == old(self)@.analog_read_failed(failure),
            changed == (final(self)@.left != old(self)@.left),
    {
        proof {
            use_type_invariant(&*self);
        }
        match failure {
            AnalogFailure::NoDevices => {
                self.sdk_state = AnalogSDKState::NoDevices;
            },
            AnalogFailure::Other(_) => {},
        }
        self.update_direction_analog_empty()
    }

    /// Starts the session.
    ///
    /// Nothing happens unless the session is uninitialized. A configuration
    /// out of range is refused with `ConfigParseFailed` and changes nothing.
    /// Else the session is connecting, and the orders open the link to the
    /// driver; `driver_connected` and `target_registered` take the answers.
    pub fn init(&mut self, config: ServiceConfiguration) -> (outcome: Result<Vec<Command>, ServiceError>)
        ensures
            (final(self)@, issued(outcome)) == old(self)@.init(config),
            final(self)@.wf(),
    {
        proof {
            use_type_invariant(&*self);
        }
        if self.lifecycle != Lifecycle::Uninitialized {
            let commands: Vec<Command> = Vec::new();
            assert(commands@ =~= Seq::<Command>::empty());
            return Ok(commands);
        }
        if !config.is_valid() {
            return Err(ServiceError::ConfigParseFailed);
        }
        self.config = config;
        self.lifecycle = Lifecycle::Connecting;
        let mut commands: Vec<Command> = if self.config.use_analog_input {
            self.init_analog()
        } else {
            Vec::new()
        };
        if self.driver_linked {
            commands.push(Command::RegisterTarget(self.profile));
        } else {
            commands.push(Command::ConnectDriver);
        }
        assert(old(self)@.init(config).1 matches Ok(expected) && commands@ =~= expected);
        Ok(commands)
    }

    /// Takes the answer to `ConnectDriver`: whether the link to the driver is
    /// open. A link that could not be opened ends the start with
    /// `DriverConnectionFailed`.
    pub fn driver_connected(&mut self, ok: bool) -> (outcome: Result<Vec<Command>, ServiceError>)
        ensures
            (final(self)@, issued(outcome)) == old(self)@.driver_connected(ok),
            final(self)@.wf(),
    {
        proof {
            use_type_invariant(&*self);
        }
        let mut commands: Vec<Command> = Vec::new();
        if self.lifecycle == Lifecycle::Connecting && !self.driver_linked {
            if ok {
                self.driver_linked = true;
                commands.push(Command::RegisterTarget(self.profile));
            } else {
                self.lifecycle = Lifecycle::Uninitialized;
                return Err(ServiceError::DriverConnectionFailed);
            }
        }
        assert(old(self)@.driver_connected(ok).1 matches Ok(expected) && commands@ =~= expected);
        Ok(commands)
    }

    /// Takes the answer to `RegisterTarget`: whether the virtual controller
    /// is plugged in. With the controller the session is connected, and its
    /// first report is ordered. A controller that was not taken ends the
    /// start with `TargetRegistrationFailed`.
    pub fn target_registered(&mut self, ok: bool) -> (outcome: Result<Vec<Command>, ServiceError>)
        ensures
            (final(self)@, issued(outcome)) == old(self)@.target_registered(ok),
            final(self)@.wf(),
    {
        proof {
            use_type_invariant(&*self);
        }
        if self.lifecycle == Lifecycle::Connecting && self.driver_linked {
            if ok {
                self.lifecycle = Lifecycle::Connected;
                self.dirty = false;
                Ok(self.update_controller())
            } else {
                self.lifecycle = Lifecycle::Uninitialized;
                Err(ServiceError::TargetRegistrationFailed)
            }
        } else {
            let commands: Vec<Command> = Vec::new();
            assert(commands@ =~= Seq::<Command>::empty());
            Ok(commands)
        }
    }

    /// Takes the answer to `InitAnalog`: the names of the devices of the
    /// analog source, or why it did not start. A source that did not start
    /// is reported as `AnalogSourceInitFailed`, and the session goes on with
    /// the keyboard.
    pub fn analog_initialised(&mut self, outcome: Result<Vec<String>, AnalogFailure>) -> (error: Option<
        ServiceError,
    >)
        ensures
            (final(self)@, error) == old(self)@.analog_initialised(answered(outcome)),
            final(self)@.wf(),
    {
        proof {
            use_type_invariant(&*self);
        }
        if self.analog_initialised {
            None
        } else {
            match outcome {
                Ok(devices) => {
                    self.analog_initialised = true;
                    if devices.len() > 0 {
                        self.sdk_state = AnalogSDKState::DevicesConnected(devices);
                    } else {
                        self.sdk_state = AnalogSDKState::NoDevices;
                    }
                    None
                },
                Err(failure) => {
                    self.sdk_state = AnalogSDKState::Error(failure);
                    Some(ServiceError::AnalogSourceInitFailed)
                },
            }
        }
    }

    /// Takes the answer to `RefreshDevices`: the names of the devices of the
    /// analog source.
    pub fn devices_refreshed(&mut self, devices: Vec<String>)
        ensures
            final(self)@ == old(self)@.devices_refreshed(devices@),
            final(self)@.wf(),
    {
        proof {
            use_type_invariant(&*self);
        }
        let none_known = match self.sdk_state {
            AnalogSDKState::NoDevices => true,
            _ => false,
        };
        if none_known && devices.len() > 0 {
            self.sdk_state = AnalogSDKState::DevicesConnected(devices);
        }
    }

    /// Takes the answer to `WriteReport`. A report that could not be written
    /// is reported as `ReportWriteFailed` and changes nothing: the session
    /// goes on, and the report is not tried again.
    pub fn report_written(&self, ok: bool) -> (error: Option<ServiceError>)
        ensures
            error == if ok {
                None
            } else {
                Some(ServiceError::ReportWriteFailed)
            },
    {
        if ok {
            None
        } else {
            Some(ServiceError::ReportWriteFailed)
        }
    }

    /// Lays the input of a tick on the left stick, where it is of the source
    /// in use, and tells whether that changed the stick.
    fn take_input(&mut self, input: &InputSnapshot) -> (changed: bool)
        ensures
            final(self)@ == old(self)@.take_input(input@),
            changed == (final(self)@.left != old(self)@.left),
    {
        proof {
            use_type_invariant(&*self);
        }
        if self.analog_initialised {
            match input {
                InputSnapshot::Analog(analog) => self.update_analog_inputs(analog),
                InputSnapshot::AnalogFailed(failure) => self.analog_read_failed(*failure),
                _ => false,
            }
        } else if self.raw_input {
            match input {
                InputSnapshot::RawEvent(event) => self.process_rawinput_event(*event),
                _ => false,
            }
        } else {
            match input {
                InputSnapshot::Keys(keys) => self.controller_state.left_joystick.update_key_states(
                    keys,
                    &self.config.key_mapping.left_joystick,
                ),
                _ => false,
            }
        }
    }

    /// Orders a look for analog devices, on a tick that has a reading of the
    /// analog source while no device is known.
    fn refresh_devices(&self, input: &InputSnapshot) -> (commands: Vec<Command>)
        ensures
            commands@ == self@.refresh_devices(input@),
    {
        let mut commands: Vec<Command> = Vec::new();
        let none_known = match self.sdk_state {
            AnalogSDKState::NoDevices => true,
            _ => false,
        };
        let reading = match input {
            InputSnapshot::Analog(_) => true,
            _ => false,
        };
        if self.analog_initialised && reading && none_known {
            commands.push(Command::RefreshDevices);
        }
        assert(commands@ =~= self@.refresh_devices(input@));
        commands
    }

    /// Takes a tick with its input.
    ///
    /// Nothing happens unless the session is connected. While the test vector
    /// is shown, its report is ordered on every tick. Else the input of the
    /// source in use is laid on the left stick, and the report is ordered
    /// where that changed what the stick holds, or where a configuration was
    /// taken since the last tick.
    pub fn poll(&mut self, input: &InputSnapshot) -> (commands: Vec<Command>)
        ensures
            (final(self)@, commands@) == old(self)@.poll(input@),
            final(self)@.wf(),
    {
        proof {
            use_type_invariant(&*self);
        }
        if self.lifecycle != Lifecycle::Connected {
            let commands: Vec<Command> = Vec::new();
            assert(commands@ =~= Seq::<Command>::empty());
            return commands;
        }
        if self.is_detecting {
            return self.output_controller_detection();
        }
        let mut commands = self.refresh_devices(input);
        let should_update = self.take_input(input);
        if should_update || self.dirty {
            let mut write = self.update_controller();
            commands.append(&mut write);
        }
        self.dirty = false;
        assert(commands@ =~= old(self)@.poll(input@).1);
        commands
    }

    /// The number under which the driver runs the virtual controller.
    ///
    /// `driver_index` is what the driver says of the controller; it is handed
    /// on where there is a controller to ask for, one of the 16-bit profile
    /// that is plugged in.
    pub fn get_xinput_slot(&self, driver_index: u32) -> (slot: Option<u32>)
        ensures
            slot == self@.xinput_slot(driver_index),
    {
        if self.lifecycle == Lifecycle::Connected && self.profile == DeviceProfile::Xbox360 {
            Some(driver_index)
        } else {
            None
        }
    }

    /// What is known of the analog source.
    pub fn get_sdk_state(&self) -> (state: AnalogSDKState)
        ensures
            state@ == self@.sdk_state,
    {
        self.sdk_state.clone()
    }

    /// Stops the session.
    ///
    /// Whatever is held is ordered to be given up, and the session is
    /// stopping until `stopped` is called. A session that holds nothing is
    /// left uninitialized and nothing is ordered, so that a second stop gives
    /// nothing up again.
    pub fn stop(&mut self) -> (commands: Vec<Command>)
        ensures
            (final(self)@, commands@) == old(self)@.stop(),
            final(self)@.wf(),
    {
        proof {
            use_type_invariant(&*self);
        }
        let mut commands: Vec<Command> = Vec::new();
        if self.lifecycle == Lifecycle::Connected {
            commands.push(Command::ReleaseTarget);
            self.lifecycle = Lifecycle::Stopping;
        }
        if self.driver_linked {
            commands.push(Command::DisconnectDriver);
            self.driver_linked = false;
        }
        let mut analog = self.uninit_analog();
        commands.append(&mut analog);
        if self.lifecycle != Lifecycle::Stopping {
            if commands.len() > 0 {
                self.lifecycle = Lifecycle::Stopping;
            } else {
                self.lifecycle = Lifecycle::Uninitialized;
            }
        }
        assert(commands@ =~= old(self)@.stop().1);
        commands
    }

    /// Confirms that the orders of `stop` are carried out: a stopping session
    /// is uninitialized and can be started again.
    pub fn stopped(&mut self)
        ensures
            final(self)@ == old(self)@.stopped(),
            final(self)@.wf(),
    {
        proof {
            use_type_invariant(&*self);
        }
        if self.lifecycle == Lifecycle::Stopping {
            self.lifecycle = Lifecycle::Uninitialized;
        }
    }

    /// Takes a new configuration.
    ///
    /// A configuration out of range is refused with `ConfigParseFailed` and
    /// changes nothing. Else it is in force at once: the analog source is
    /// started or given up as it asks, and the report is ordered anew where
    /// a controller is plugged in, though no key has changed. The next tick
    /// orders the report once more.
    pub fn set_config(&mut self, config: ServiceConfiguration) -> (outcome: Result<
        Vec<Command>,
        ServiceError,
    >)
        ensures
            (final(self)@, issued(outcome)) == old(self)@.set_config(config),
            final(self)@.wf(),
    {
        proof {
            use_type_invariant(&*self);
        }
        if !config.is_valid() {
            return Err(ServiceError::ConfigParseFailed);
        }
        self.config = config;
        self.dirty = true;
        let mut commands: Vec<Command> = if self.config.use_analog_input {
            self.init_analog()
        } else {
            self.uninit_analog()
        };
        let mut write = self.update_controller();
        commands.append(&mut write);
        assert(old(self)@.set_config(config).1 matches Ok(expected) && commands@ =~= expected);
        Ok(commands)
    }

    /// Shows or hides the test vector. Where the session stands is not
    /// touched.
    pub fn set_gamepad_detection_state(&mut self, enabled: bool)
        ensures
            final(self)@ == (ServiceModel { is_detecting: enabled, ..old(self)@ }),
            final(self)@.wf(),
    {
        proof {
            use_type_invariant(&*self);
        }
        self.is_detecting = enabled;
    }
}

} // verus!
