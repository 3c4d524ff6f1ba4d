//! What passes between a session and the code that performs its input and
//! output: the commands that the session gives, the answers it takes, and the
//! input that is handed to it on each tick.

use std::collections::HashMap;
use vstd::prelude::*;
use crate::controller::{DualShockReport, XusbReport};

verus! {

/// The vendor number under which the 16-bit profile is registered.
pub const XBOX360_VENDOR_ID: u16 = 0x31e3;

/// The product number under which the 16-bit profile is registered.
pub const XBOX360_PRODUCT_ID: u16 = 0xffff;

/// The vendor number under which the 8-bit profile is registered.
pub const DUALSHOCK4_VENDOR_ID: u16 = 0x054c;

/// The product number under which the 8-bit profile is registered.
pub const DUALSHOCK4_PRODUCT_ID: u16 = 0x05c4;

/// Where a session stands between its start and its end.
#[derive(Clone, Copy, Debug, PartialEq, Eq, Structural)]
pub enum Lifecycle {
    /// Nothing is held: no link to the driver, no virtual controller.
    Uninitialized,
    /// A start is under way: the answer of the driver is awaited.
    Connecting,
    /// The virtual controller is plugged in and takes reports.
    Connected,
    /// The teardown has been ordered and is not yet confirmed.
    Stopping,
}

/// The kind of virtual controller that a session plugs in.
#[derive(Clone, Copy, Debug, PartialEq, Eq, Structural)]
pub enum DeviceProfile {
    /// Signed 16-bit axes.
    Xbox360,
    /// Unsigned 8-bit axes.
    DualShock4,
}

impl DeviceProfile {
    pub open spec fn spec_vendor_id(self) -> u16 {
        match self {
            DeviceProfile::Xbox360 => XBOX360_VENDOR_ID,
            DeviceProfile::DualShock4 => DUALSHOCK4_VENDOR_ID,
        }
    }

    pub open spec fn spec_product_id(self) -> u16 {
        match self {
            DeviceProfile::Xbox360 => XBOX360_PRODUCT_ID,
            DeviceProfile::DualShock4 => DUALSHOCK4_PRODUCT_ID,
        }
    }

    /// The vendor number that a controller of this profile is registered with.
    #[verifier::when_used_as_spec(spec_vendor_id)]
    pub fn vendor_id(self) -> (id: u16)
        ensures
            id == self.spec_vendor_id(),
    {
        match self {
            DeviceProfile::Xbox360 => XBOX360_VENDOR_ID,
            DeviceProfile::DualShock4 => DUALSHOCK4_VENDOR_ID,
        }
    }

    /// The product number that a controller of this profile is registered with.
    #[verifier::when_used_as_spec(spec_product_id)]
    pub fn product_id(self) -> (id: u16)
        ensures
            id == self.spec_product_id(),
    {
        match self {
            DeviceProfile::Xbox360 => XBOX360_PRODUCT_ID,
            DeviceProfile::DualShock4 => DUALSHOCK4_PRODUCT_ID,
        }
    }
}

/// Where the input of a tick comes from.
#[derive(Clone, Copy, Debug, PartialEq, Eq, Structural)]
pub enum InputMode {
    /// The keyboard is asked which of the bound keys are held down.
    DigitalPoll,
    /// The analog source is asked how far each key is pressed.
    AnalogPoll,
    /// The events of a raw keyboard stream are taken one by one.
    RawEventStream,
    /// No input is read: a fixed test vector is put out.
    DetectionTest,
}

/// What can go wrong in a session.
#[derive(Clone, Copy, Debug, PartialEq, Eq, Structural)]
pub enum ServiceError {
    /// The driver could not be reached. Ends a start.
    DriverConnectionFailed,
    /// The driver did not take the virtual controller. Ends a start.
    TargetRegistrationFailed,
    /// A report could not be written. The session goes on.
    ReportWriteFailed,
    /// The analog source could not be started. The session goes on with the
    /// keyboard.
    AnalogSourceInitFailed,
    /// A configuration is outside its range. The session keeps what it had.
    ConfigParseFailed,
}

impl ServiceError {
    /// What `message` says of each error.
    pub open spec fn message_text(self) -> Seq<char> {
        match self {
            ServiceError::DriverConnectionFailed =>
                "Failed to connect to VigemBus. Please ensure you have ViGEmBus properly installed"@,
            ServiceError::TargetRegistrationFailed => "Failed to add target to ViGEmBus"@,
            ServiceError::ReportWriteFailed => "Failed to write a report to the controller"@,
            ServiceError::AnalogSourceInitFailed => "Failed to initialise the analog source"@,
            ServiceError::ConfigParseFailed => "The configuration is outside its range"@,
        }
    }

    /// A sentence for the log. For a driver that cannot be reached it says
    /// what to install.
    pub fn message(&self) -> (text: &'static str)
        ensures
            text@ == self.message_text(),
    {
        match self {
            ServiceError::DriverConnectionFailed =>
                "Failed to connect to VigemBus. Please ensure you have ViGEmBus properly installed",
            ServiceError::TargetRegistrationFailed => "Failed to add target to ViGEmBus",
            ServiceError::ReportWriteFailed => "Failed to write a report to the controller",
            ServiceError::AnalogSourceInitFailed => "Failed to initialise the analog source",
            ServiceError::ConfigParseFailed => "The configuration is outside its range",
        }
    }

    /// Whether the error ends the start during which it comes up. Every other
    /// error leaves the session running.
    pub fn is_fatal(&self) -> (fatal: bool)
        ensures
            fatal == (*self is DriverConnectionFailed || *self is TargetRegistrationFailed),
    {
        match self {
            ServiceError::DriverConnectionFailed => true,
            ServiceError::TargetRegistrationFailed => true,
            _ => false,
        }
    }
}

/// Why the analog source gave no reading.
#[derive(Clone, Copy, Debug, PartialEq, Eq, Structural)]
pub enum AnalogFailure {
    /// No analog device is plugged in.
    NoDevices,
    /// Any other failure, with the number that the source gave it.
    Other(i32),
}

/// What is known of the analog source.
#[derive(Debug, PartialEq, Eq)]
pub enum AnalogSDKState {
    /// The source is not in use.
    Uninitialized,
    /// The source could not be started.
    Error(AnalogFailure),
    /// The source runs, with the devices of these names.
    DevicesConnected(Vec<String>),
    /// The source runs and has no device.
    NoDevices,
}

/// What is known of the analog source, as a value of the model.
pub ghost enum AnalogSourceState {
    Uninitialized,
    Error(AnalogFailure),
    DevicesConnected(Seq<String>),
    NoDevices,
}

impl View for AnalogSDKState {
    type V = AnalogSourceState;

    open spec fn view(&self) -> AnalogSourceState {
        match self {
            AnalogSDKState::Uninitialized => AnalogSourceState::Uninitialized,
            AnalogSDKState::Error(failure) => AnalogSourceState::Error(*failure),
            AnalogSDKState::DevicesConnected(names) => AnalogSourceState::DevicesConnected(names@),
            AnalogSDKState::NoDevices => AnalogSourceState::NoDevices,
        }
    }
}

impl Clone for AnalogSDKState {
    fn clone(&self) -> (copy: Self)
        ensures
            copy@ == self@,
    {
        match self {
            AnalogSDKState::Uninitialized => AnalogSDKState::Uninitialized,
            AnalogSDKState::Error(failure) => AnalogSDKState::Error(*failure),
            AnalogSDKState::DevicesConnected(names) => {
                let copy = names.clone();
                assert(copy@ =~= names@);
                AnalogSDKState::DevicesConnected(copy)
            },
            AnalogSDKState::NoDevices => AnalogSDKState::NoDevices,
        }
    }
}

/// A report in the form of one of the two profiles.
#[derive(Clone, Copy, Debug, PartialEq, Eq)]
pub enum ControllerReport {
    Xusb(XusbReport),
    DualShock(DualShockReport),
}

/// What a session orders. The orders of one call are carried out in their
/// order.
#[derive(Clone, Copy, Debug, PartialEq, Eq)]
pub enum Command {
    /// Start the analog source and answer with `Service::analog_initialised`.
    InitAnalog,
    /// Shut the analog source down.
    UninitAnalog,
    /// Open the link to the driver and answer with `Service::driver_connected`.
    ConnectDriver,
    /// Plug in a virtual controller of this profile, under the vendor and
    /// product numbers of the profile, and answer with
    /// `Service::target_registered`.
    RegisterTarget(DeviceProfile),
    /// Write this report to the virtual controller. A failure is answered
    /// with `Service::report_written`.
    WriteReport(ControllerReport),
    /// Unplug the virtual controller.
    ReleaseTarget,
    /// Close the link to the driver.
    DisconnectDriver,
    /// Ask the analog source for its devices and answer with
    /// `Service::devices_refreshed`.
    RefreshDevices,
}

/// The input of one tick, from the source that `Service::input_mode` names.
#[derive(Debug)]
pub enum InputSnapshot {
    /// The keys that are held down.
    Keys(Vec<u8>),
    /// The next event of the raw keyboard stream, where one is waiting: the
    /// key, and whether it went down.
    RawEvent(Option<(u8, bool)>),
    /// How far each key of the analog source is pressed, by key code.
    Analog(HashMap<u16, i64>),
    /// The analog source gave no reading.
    AnalogFailed(AnalogFailure),
    /// Nothing was read.
    Nothing,
}

/// The input of one tick, as a value of the model.
pub ghost enum InputView {
    Keys(Seq<u8>),
    RawEvent(Option<(u8, bool)>),
    Analog(Map<u16, i64>),
    AnalogFailed(AnalogFailure),
    Nothing,
}

impl View for InputSnapshot {
    type V = InputView;

    open spec fn view(&self) -> InputView {
        match self {
            InputSnapshot::Keys(keys) => InputView::Keys(keys@),
            InputSnapshot::RawEvent(event) => InputView::RawEvent(*event),
            InputSnapshot::Analog(values) => InputView::Analog(values@),
            InputSnapshot::AnalogFailed(failure) => InputView::AnalogFailed(*failure),
            InputSnapshot::Nothing => InputView::Nothing,
        }
    }
}

/// What a call of a session gave, with the orders as a sequence.
pub open spec fn issued(outcome: Result<Vec<Command>, ServiceError>) -> Result<
    Seq<Command>,
    ServiceError,
> {
    match outcome {
        Ok(commands) => Ok(commands@),
        Err(error) => Err(error),
    }
}

/// The answer of the analog source, with the names as a sequence.
pub open spec fn answered(outcome: Result<Vec<String>, AnalogFailure>) -> Result<
    Seq<String>,
    AnalogFailure,
> {
    match outcome {
        Ok(devices) => Ok(devices@),
        Err(failure) => Err(failure),
    }
}

} // verus!
