use std::collections::HashMap;

use double_movement::config::{JoystickAngleConfiguration, ServiceConfiguration};
use double_movement::controller::{DualShockReport, XusbReport};
use double_movement::protocol::{
    AnalogFailure, Command, ControllerReport, DeviceProfile, InputMode, InputSnapshot, Lifecycle,
    ServiceError,
};
use double_movement::service::{AnalogSDKState, KeyBindState, Service};
use double_movement::shaping::UNIT;

const W: u8 = 30;
const A: u8 = 8;
const S: u8 = 26;
const D: u8 = 11;

fn xusb(lx: i16, ly: i16) -> Command {
    Command::WriteReport(ControllerReport::Xusb(XusbReport {
        s_thumb_lx: lx,
        s_thumb_ly: ly,
        s_thumb_rx: 0,
        s_thumb_ry: 0,
    }))
}

fn ds4(lx: u8, ly: u8) -> Command {
    Command::WriteReport(ControllerReport::DualShock(DualShockReport {
        b_thumb_lx: lx,
        b_thumb_ly: ly,
        b_thumb_rx: 128,
        b_thumb_ry: 128,
    }))
}

fn connected(profile: DeviceProfile, raw_input: bool, config: ServiceConfiguration) -> Service {
    let mut service = Service::with_profile(profile, raw_input);
    assert_eq!(service.init(config), Ok(vec![Command::ConnectDriver]));
    assert_eq!(service.driver_connected(true), Ok(vec![Command::RegisterTarget(profile)]));
    assert!(service.target_registered(true).is_ok());
    assert_eq!(service.lifecycle(), Lifecycle::Connected);
    service
}

fn analog_config() -> ServiceConfiguration {
    ServiceConfiguration { use_analog_input: true, ..ServiceConfiguration::default() }
}

fn connected_analog(devices: Vec<String>) -> Service {
    let mut service = Service::new();
    assert_eq!(service.init(analog_config()), Ok(vec![Command::InitAnalog, Command::ConnectDriver]));
    assert_eq!(service.analog_initialised(Ok(devices)), None);
    assert!(service.driver_connected(true).is_ok());
    assert!(service.target_registered(true).is_ok());
    service
}

fn reading(values: &[(u16, i64)]) -> InputSnapshot {
    let mut map = HashMap::new();
    for (key, value) in values {
        map.insert(*key, *value);
    }
    InputSnapshot::Analog(map)
}

fn invalid_config() -> ServiceConfiguration {
    ServiceConfiguration {
        left_joystick_strafing_angles: JoystickAngleConfiguration {
            up_diagonal_angle: 0,
            ..JoystickAngleConfiguration::default()
        },
        ..ServiceConfiguration::default()
    }
}

#[test]
fn new_session_is_uninitialized() {
    let service = Service::new();
    assert_eq!(service.lifecycle(), Lifecycle::Uninitialized);
    assert_eq!(service.config(), ServiceConfiguration::default());
    assert_eq!(service.input_mode(), InputMode::DigitalPoll);
    assert_eq!(service.get_sdk_state(), AnalogSDKState::Uninitialized);
    assert_eq!(service.get_xinput_slot(3), None);
    assert_eq!(service.report(), ControllerReport::Xusb(XusbReport {
        s_thumb_lx: 0,
        s_thumb_ly: 0,
        s_thumb_rx: 0,
        s_thumb_ry: 0,
    }));
    let raw = Service::with_profile(DeviceProfile::DualShock4, true);
    assert_eq!(raw.input_mode(), InputMode::RawEventStream);
}

#[test]
fn key_bind_state_starts_released() {
    let mut keys = KeyBindState::new();
    assert_eq!(
        keys,
        KeyBindState {
            up: false,
            up_two: false,
            down: false,
            down_two: false,
            left: false,
            left_two: false,
            right: false,
            right_two: false,
        }
    );
    keys.set(double_movement::controller::JoystickDirection::Left, true, true);
    assert!(keys.left_two);
    assert!(!keys.left);
    assert!(keys.held(double_movement::controller::JoystickDirection::Left));
    assert!(!keys.held(double_movement::controller::JoystickDirection::Right));
}

#[test]
fn start_runs_through_connecting() {
    let mut service = Service::new();
    assert_eq!(service.init(ServiceConfiguration::default()), Ok(vec![Command::ConnectDriver]));
    assert_eq!(service.lifecycle(), Lifecycle::Connecting);
    assert_eq!(
        service.driver_connected(true),
        Ok(vec![Command::RegisterTarget(DeviceProfile::Xbox360)])
    );
    assert_eq!(service.lifecycle(), Lifecycle::Connecting);
    assert_eq!(service.target_registered(true), Ok(vec![xusb(0, 0)]));
    assert_eq!(service.lifecycle(), Lifecycle::Connected);
}

#[test]
fn start_is_ignored_unless_uninitialized() {
    let mut service = Service::new();
    let other = ServiceConfiguration {
        left_joystick_strafing_angles: JoystickAngleConfiguration {
            up_diagonal_angle: 500_000,
            ..JoystickAngleConfiguration::default()
        },
        ..ServiceConfiguration::default()
    };
    assert!(service.init(ServiceConfiguration::default()).is_ok());
    assert_eq!(service.init(other), Ok(Vec::new()));
    assert_eq!(service.lifecycle(), Lifecycle::Connecting);
    assert_eq!(service.config(), ServiceConfiguration::default());
    assert!(service.driver_connected(true).is_ok());
    assert!(service.target_registered(true).is_ok());
    assert_eq!(service.init(other), Ok(Vec::new()));
    assert_eq!(service.lifecycle(), Lifecycle::Connected);
    assert_eq!(service.init(invalid_config()), Ok(Vec::new()));
    assert_eq!(service.config(), ServiceConfiguration::default());
    service.stop();
    assert_eq!(service.init(other), Ok(Vec::new()));
    assert_eq!(service.lifecycle(), Lifecycle::Stopping);
}

#[test]
fn start_refuses_configuration_out_of_range() {
    let mut service = Service::new();
    assert_eq!(service.init(invalid_config()), Err(ServiceError::ConfigParseFailed));
    assert_eq!(service.lifecycle(), Lifecycle::Uninitialized);
    assert_eq!(service.config(), ServiceConfiguration::default());
}

#[test]
fn driver_that_cannot_be_reached_ends_start() {
    let mut service = Service::new();
    assert!(service.init(ServiceConfiguration::default()).is_ok());
    assert_eq!(service.driver_connected(false), Err(ServiceError::DriverConnectionFailed));
    assert_eq!(service.lifecycle(), Lifecycle::Uninitialized);
    assert_eq!(service.stop(), Vec::new());
    assert_eq!(service.init(ServiceConfiguration::default()), Ok(vec![Command::ConnectDriver]));
}

#[test]
fn controller_that_is_not_taken_ends_start() {
    let mut service = Service::new();
    assert!(service.init(ServiceConfiguration::default()).is_ok());
    assert!(service.driver_connected(true).is_ok());
    assert_eq!(service.target_registered(false), Err(ServiceError::TargetRegistrationFailed));
    assert_eq!(service.lifecycle(), Lifecycle::Uninitialized);
    assert_eq!(
        service.init(ServiceConfiguration::default()),
        Ok(vec![Command::RegisterTarget(DeviceProfile::Xbox360)])
    );
    assert_eq!(service.target_registered(false), Err(ServiceError::TargetRegistrationFailed));
    assert_eq!(service.stop(), vec![Command::DisconnectDriver]);
    assert_eq!(service.lifecycle(), Lifecycle::Stopping);
    service.stopped();
    assert_eq!(service.lifecycle(), Lifecycle::Uninitialized);
}

#[test]
fn answers_that_are_not_awaited_are_ignored() {
    let mut service = Service::new();
    assert_eq!(service.driver_connected(true), Ok(Vec::new()));
    assert_eq!(service.driver_connected(false), Ok(Vec::new()));
    assert_eq!(service.target_registered(true), Ok(Vec::new()));
    assert_eq!(service.target_registered(false), Ok(Vec::new()));
    assert_eq!(service.lifecycle(), Lifecycle::Uninitialized);
    assert!(service.init(ServiceConfiguration::default()).is_ok());
    assert_eq!(service.target_registered(true), Ok(Vec::new()));
    assert_eq!(service.lifecycle(), Lifecycle::Connecting);
    assert!(service.driver_connected(true).is_ok());
    assert_eq!(service.driver_connected(false), Ok(Vec::new()));
    assert_eq!(service.lifecycle(), Lifecycle::Connecting);
    service.stopped();
    assert_eq!(service.lifecycle(), Lifecycle::Connecting);
}

#[test]
fn tick_does_nothing_unless_connected() {
    let mut service = Service::new();
    assert_eq!(service.poll(&InputSnapshot::Keys(vec![W])), Vec::new());
    assert!(service.init(ServiceConfiguration::default()).is_ok());
    assert_eq!(service.poll(&InputSnapshot::Keys(vec![W])), Vec::new());
    assert!(service.driver_connected(true).is_ok());
    assert_eq!(service.target_registered(true), Ok(vec![xusb(0, 0)]));
    service.stop();
    assert_eq!(service.poll(&InputSnapshot::Keys(vec![W])), Vec::new());
}

#[test]
fn tick_writes_only_changes() {
    let mut service = connected(DeviceProfile::Xbox360, false, ServiceConfiguration::default());
    assert_eq!(service.poll(&InputSnapshot::Keys(Vec::new())), Vec::new());
    assert_eq!(service.poll(&InputSnapshot::Keys(vec![W])), vec![xusb(0, 32767)]);
    assert_eq!(service.poll(&InputSnapshot::Keys(vec![W])), Vec::new());
    assert_eq!(service.poll(&InputSnapshot::Keys(vec![W, 99])), Vec::new());
    assert_eq!(service.poll(&InputSnapshot::Keys(vec![W, D])), vec![xusb(14_478, 29_394)]);
    assert_eq!(service.poll(&InputSnapshot::Keys(vec![D])), vec![xusb(32767, 0)]);
    assert_eq!(service.poll(&InputSnapshot::Keys(vec![D, S])), vec![xusb(23_169, -23_169)]);
    assert_eq!(service.poll(&InputSnapshot::Keys(vec![A])), vec![xusb(-32768, 0)]);
    assert_eq!(service.poll(&InputSnapshot::Keys(vec![A, D])), vec![xusb(0, 0)]);
    assert_eq!(service.poll(&InputSnapshot::Keys(Vec::new())), vec![xusb(0, 0)]);
    assert_eq!(service.poll(&InputSnapshot::Keys(Vec::new())), Vec::new());
}

#[test]
fn tick_passes_over_input_of_another_source() {
    let mut service = connected(DeviceProfile::Xbox360, false, ServiceConfiguration::default());
    assert_eq!(service.poll(&InputSnapshot::RawEvent(Some((W, true)))), Vec::new());
    assert_eq!(service.poll(&reading(&[(W as u16, UNIT)])), Vec::new());
    assert_eq!(service.poll(&InputSnapshot::AnalogFailed(AnalogFailure::NoDevices)), Vec::new());
    assert_eq!(service.poll(&InputSnapshot::Nothing), Vec::new());
    assert_eq!(service.get_sdk_state(), AnalogSDKState::Uninitialized);
    assert_eq!(service.report(), ControllerReport::Xusb(XusbReport {
        s_thumb_lx: 0,
        s_thumb_ly: 0,
        s_thumb_rx: 0,
        s_thumb_ry: 0,
    }));
}

#[test]
fn eight_bit_profile_writes_its_own_reports() {
    let mut service = Service::with_profile(DeviceProfile::DualShock4, false);
    assert!(service.init(ServiceConfiguration::default()).is_ok());
    assert_eq!(
        service.driver_connected(true),
        Ok(vec![Command::RegisterTarget(DeviceProfile::DualShock4)])
    );
    assert_eq!(service.target_registered(true), Ok(vec![ds4(128, 128)]));
    assert_eq!(service.poll(&InputSnapshot::Keys(vec![W, D])), vec![ds4(184, 14)]);
    assert_eq!(service.poll(&InputSnapshot::Keys(vec![S])), vec![ds4(128, 255)]);
    assert_eq!(service.get_xinput_slot(1), None);
}

#[test]
fn profiles_have_fixed_identities() {
    assert_eq!(DeviceProfile::Xbox360.vendor_id(), 0x31e3);
    assert_eq!(DeviceProfile::Xbox360.product_id(), 0xffff);
    assert_eq!(DeviceProfile::DualShock4.vendor_id(), 0x054c);
    assert_eq!(DeviceProfile::DualShock4.product_id(), 0x05c4);
}

#[test]
fn slot_is_handed_on_while_connected() {
    let mut service = Service::new();
    assert_eq!(service.get_xinput_slot(2), None);
    assert!(service.init(ServiceConfiguration::default()).is_ok());
    assert_eq!(service.get_xinput_slot(2), None);
    assert!(service.driver_connected(true).is_ok());
    assert!(service.target_registered(true).is_ok());
    assert_eq!(service.get_xinput_slot(2), Some(2));
    assert_eq!(service.get_xinput_slot(0), Some(0));
    service.stop();
    assert_eq!(service.get_xinput_slot(2), None);
}

#[test]
fn raw_events_set_directions() {
    let mut service = connected(DeviceProfile::Xbox360, true, ServiceConfiguration::default());
    assert_eq!(service.input_mode(), InputMode::RawEventStream);
    assert_eq!(service.poll(&InputSnapshot::RawEvent(None)), Vec::new());
    assert_eq!(service.poll(&InputSnapshot::RawEvent(Some((99, true)))), Vec::new());
    assert_eq!(service.poll(&InputSnapshot::RawEvent(Some((W, true)))), vec![xusb(0, 32767)]);
    assert_eq!(service.poll(&InputSnapshot::RawEvent(Some((W, true)))), Vec::new());
    assert_eq!(
        service.poll(&InputSnapshot::RawEvent(Some((D, true)))),
        vec![xusb(14_478, 29_394)]
    );
    assert_eq!(service.poll(&InputSnapshot::RawEvent(Some((W, false)))), vec![xusb(32767, 0)]);
    assert_eq!(service.poll(&InputSnapshot::RawEvent(Some((D, false)))), vec![xusb(0, 0)]);
    assert_eq!(service.poll(&InputSnapshot::Keys(vec![W])), Vec::new());
}

#[test]
fn raw_events_merge_two_keys_of_a_direction() {
    let mut config = ServiceConfiguration::default();
    config.key_mapping.left_joystick.up_two = Some(5);
    let mut service = connected(DeviceProfile::Xbox360, true, config);
    assert_eq!(service.poll(&InputSnapshot::RawEvent(Some((5, true)))), vec![xusb(0, 32767)]);
    assert_eq!(service.poll(&InputSnapshot::RawEvent(Some((W, true)))), Vec::new());
    assert_eq!(service.poll(&InputSnapshot::RawEvent(Some((5, false)))), Vec::new());
    assert_eq!(service.poll(&InputSnapshot::RawEvent(Some((W, false)))), vec![xusb(0, 0)]);
}

#[test]
fn raw_event_of_a_key_bound_twice_goes_to_the_first_binding() {
    let mut config = ServiceConfiguration::default();
    config.key_mapping.left_joystick.left = Some(W);
    config.key_mapping.left_joystick.right_two = Some(A);
    config.key_mapping.left_joystick.left_two = Some(A);
    let mut service = connected(DeviceProfile::Xbox360, true, config);
    assert_eq!(service.poll(&InputSnapshot::RawEvent(Some((W, true)))), vec![xusb(0, 32767)]);
    assert_eq!(service.poll(&InputSnapshot::RawEvent(Some((A, true)))), vec![xusb(14_478, 29_394)]);
}

#[test]
fn analog_source_is_started_with_the_session() {
    let mut service = Service::new();
    assert_eq!(service.init(analog_config()), Ok(vec![Command::InitAnalog, Command::ConnectDriver]));
    assert_eq!(service.input_mode(), InputMode::DigitalPoll);
    assert_eq!(service.analog_initialised(Ok(vec!["Wooting Two".to_string()])), None);
    assert_eq!(service.input_mode(), InputMode::AnalogPoll);
    assert_eq!(
        service.get_sdk_state(),
        AnalogSDKState::DevicesConnected(vec!["Wooting Two".to_string()])
    );
    assert_eq!(service.analog_initialised(Ok(Vec::new())), None);
    assert_eq!(
        service.get_sdk_state(),
        AnalogSDKState::DevicesConnected(vec!["Wooting Two".to_string()])
    );
    assert_eq!(service.analog_initialised(Err(AnalogFailure::Other(-1997))), None);
    assert_eq!(service.input_mode(), InputMode::AnalogPoll);
}

#[test]
fn analog_source_without_devices() {
    let mut service = Service::new();
    assert!(service.init(analog_config()).is_ok());
    assert_eq!(service.analog_initialised(Ok(Vec::new())), None);
    assert_eq!(service.get_sdk_state(), AnalogSDKState::NoDevices);
    assert_eq!(service.input_mode(), InputMode::AnalogPoll);
}

#[test]
fn analog_source_that_does_not_start_leaves_the_keyboard() {
    let mut service = Service::new();
    assert!(service.init(analog_config()).is_ok());
    assert_eq!(
        service.analog_initialised(Err(AnalogFailure::Other(-1990))),
        Some(ServiceError::AnalogSourceInitFailed)
    );
    assert_eq!(service.get_sdk_state(), AnalogSDKState::Error(AnalogFailure::Other(-1990)));
    assert_eq!(service.input_mode(), InputMode::DigitalPoll);
    assert!(service.driver_connected(true).is_ok());
    assert!(service.target_registered(true).is_ok());
    assert_eq!(service.lifecycle(), Lifecycle::Connected);
    assert_eq!(service.poll(&InputSnapshot::Keys(vec![W])), vec![xusb(0, 32767)]);
    assert_eq!(
        service.analog_initialised(Err(AnalogFailure::NoDevices)),
        Some(ServiceError::AnalogSourceInitFailed)
    );
    assert_eq!(service.get_sdk_state(), AnalogSDKState::Error(AnalogFailure::NoDevices));
}

#[test]
fn analog_readings_drive_the_stick() {
    let mut service = connected_analog(vec!["Wooting Two".to_string()]);
    assert_eq!(service.poll(&reading(&[])), Vec::new());
    assert_eq!(service.poll(&reading(&[(W as u16, UNIT)])), vec![xusb(0, 32767)]);
    assert_eq!(service.poll(&reading(&[(W as u16, UNIT)])), Vec::new());
    assert_eq!(service.poll(&reading(&[(W as u16, 500_000)])), vec![xusb(0, 16383)]);
    assert_eq!(
        service.poll(&reading(&[(W as u16, UNIT), (D as u16, 300_000)])),
        vec![xusb(4_789, 32_415)]
    );
    assert_eq!(service.poll(&reading(&[(300, UNIT)])), vec![xusb(0, 0)]);
    assert_eq!(service.poll(&InputSnapshot::Keys(vec![W])), Vec::new());
}

#[test]
fn analog_reading_takes_the_larger_of_two_keys() {
    let mut config = analog_config();
    config.key_mapping.left_joystick.up_two = Some(5);
    let mut service = Service::new();
    assert!(service.init(config).is_ok());
    assert_eq!(service.analog_initialised(Ok(vec!["Wooting Two".to_string()])), None);
    assert!(service.driver_connected(true).is_ok());
    assert!(service.target_registered(true).is_ok());
    assert_eq!(service.poll(&reading(&[(W as u16, 250_000), (5, 500_000)])), vec![xusb(0, 16383)]);
    assert_eq!(service.poll(&reading(&[(W as u16, 500_000), (5, 250_000)])), Vec::new());
    assert_eq!(service.poll(&reading(&[(5, 500_000)])), Vec::new());
    assert_eq!(service.poll(&reading(&[(W as u16, 250_000)])), vec![xusb(0, 8191)]);
}

#[test]
fn analog_failure_brings_the_stick_to_rest() {
    let mut service = connected_analog(vec!["Wooting Two".to_string()]);
    assert_eq!(service.poll(&reading(&[(W as u16, UNIT)])), vec![xusb(0, 32767)]);
    assert_eq!(
        service.poll(&InputSnapshot::AnalogFailed(AnalogFailure::Other(-1997))),
        vec![xusb(0, 0)]
    );
    assert_eq!(
        service.get_sdk_state(),
        AnalogSDKState::DevicesConnected(vec!["Wooting Two".to_string()])
    );
    assert_eq!(service.poll(&InputSnapshot::AnalogFailed(AnalogFailure::NoDevices)), Vec::new());
    assert_eq!(service.get_sdk_state(), AnalogSDKState::NoDevices);
    assert_eq!(service.lifecycle(), Lifecycle::Connected);
}

#[test]
fn devices_are_looked_for_while_none_is_known() {
    let mut service = connected_analog(Vec::new());
    assert_eq!(service.get_sdk_state(), AnalogSDKState::NoDevices);
    assert_eq!(service.poll(&reading(&[])), vec![Command::RefreshDevices]);
    service.devices_refreshed(Vec::new());
    assert_eq!(service.get_sdk_state(), AnalogSDKState::NoDevices);
    assert_eq!(
        service.poll(&reading(&[(W as u16, UNIT)])),
        vec![Command::RefreshDevices, xusb(0, 32767)]
    );
    service.devices_refreshed(vec!["Wooting 60HE".to_string()]);
    assert_eq!(
        service.get_sdk_state(),
        AnalogSDKState::DevicesConnected(vec!["Wooting 60HE".to_string()])
    );
    assert_eq!(service.poll(&reading(&[(W as u16, UNIT)])), Vec::new());
    service.devices_refreshed(vec!["other".to_string()]);
    assert_eq!(
        service.get_sdk_state(),
        AnalogSDKState::DevicesConnected(vec!["Wooting 60HE".to_string()])
    );
}

#[test]
fn new_configuration_shows_without_new_input() {
    let mut service = connected(DeviceProfile::Xbox360, false, ServiceConfiguration::default());
    assert_eq!(service.poll(&InputSnapshot::Keys(vec![W, D])), vec![xusb(14_478, 29_394)]);
    let steep = ServiceConfiguration {
        left_joystick_strafing_angles: JoystickAngleConfiguration {
            up_diagonal_angle: 900_000,
            ..JoystickAngleConfiguration::default()
        },
        ..ServiceConfiguration::default()
    };
    assert_eq!(service.set_config(steep), Ok(vec![xusb(3_618, 32_566)]));
    assert_eq!(service.config(), steep);
    assert_eq!(service.poll(&InputSnapshot::Keys(vec![W, D])), vec![xusb(3_618, 32_566)]);
    assert_eq!(service.poll(&InputSnapshot::Keys(vec![W, D])), Vec::new());
}

#[test]
fn unchanged_configuration_is_written_anew() {
    let mut service = connected(DeviceProfile::Xbox360, false, ServiceConfiguration::default());
    assert_eq!(service.set_config(ServiceConfiguration::default()), Ok(vec![xusb(0, 0)]));
    assert_eq!(service.poll(&InputSnapshot::Keys(Vec::new())), vec![xusb(0, 0)]);
    assert_eq!(service.poll(&InputSnapshot::Keys(Vec::new())), Vec::new());
}

#[test]
fn configuration_out_of_range_is_refused() {
    let mut service = connected(DeviceProfile::Xbox360, false, ServiceConfiguration::default());
    assert_eq!(service.poll(&InputSnapshot::Keys(vec![W, D])), vec![xusb(14_478, 29_394)]);
    assert_eq!(service.set_config(invalid_config()), Err(ServiceError::ConfigParseFailed));
    assert_eq!(service.config(), ServiceConfiguration::default());
    assert_eq!(service.lifecycle(), Lifecycle::Connected);
    assert_eq!(service.poll(&InputSnapshot::Keys(vec![W, D])), Vec::new());
}

#[test]
fn configuration_before_start_orders_no_report() {
    let mut service = Service::new();
    assert_eq!(service.set_config(ServiceConfiguration::default()), Ok(Vec::new()));
    assert_eq!(service.set_config(analog_config()), Ok(vec![Command::InitAnalog]));
    assert_eq!(service.lifecycle(), Lifecycle::Uninitialized);
}

#[test]
fn configuration_switches_the_analog_source() {
    let mut service = connected(DeviceProfile::Xbox360, false, ServiceConfiguration::default());
    assert_eq!(service.set_config(analog_config()), Ok(vec![Command::InitAnalog, xusb(0, 0)]));
    assert_eq!(service.input_mode(), InputMode::DigitalPoll);
    assert_eq!(service.analog_initialised(Ok(vec!["Wooting Two".to_string()])), None);
    assert_eq!(service.input_mode(), InputMode::AnalogPoll);
    assert_eq!(service.set_config(analog_config()), Ok(vec![xusb(0, 0)]));
    assert_eq!(
        service.set_config(ServiceConfiguration::default()),
        Ok(vec![Command::UninitAnalog, xusb(0, 0)])
    );
    assert_eq!(service.input_mode(), InputMode::DigitalPoll);
    assert_eq!(service.get_sdk_state(), AnalogSDKState::Uninitialized);
    assert_eq!(service.set_config(ServiceConfiguration::default()), Ok(vec![xusb(0, 0)]));
}

#[test]
fn failed_analog_source_keeps_its_error_when_switched_off() {
    let mut service = Service::new();
    assert_eq!(service.set_config(analog_config()), Ok(vec![Command::InitAnalog]));
    assert_eq!(
        service.analog_initialised(Err(AnalogFailure::Other(-1990))),
        Some(ServiceError::AnalogSourceInitFailed)
    );
    assert_eq!(service.set_config(analog_config()), Ok(vec![Command::InitAnalog]));
    assert_eq!(service.set_config(ServiceConfiguration::default()), Ok(Vec::new()));
    assert_eq!(service.get_sdk_state(), AnalogSDKState::Error(AnalogFailure::Other(-1990)));
}

#[test]
fn stop_gives_everything_up_once() {
    let mut service = connected_analog(vec!["Wooting Two".to_string()]);
    assert_eq!(
        service.stop(),
        vec![Command::ReleaseTarget, Command::DisconnectDriver, Command::UninitAnalog]
    );
    assert_eq!(service.lifecycle(), Lifecycle::Stopping);
    assert_eq!(service.get_sdk_state(), AnalogSDKState::Uninitialized);
    assert_eq!(service.stop(), Vec::new());
    assert_eq!(service.lifecycle(), Lifecycle::Stopping);
    service.stopped();
    assert_eq!(service.lifecycle(), Lifecycle::Uninitialized);
    assert_eq!(service.stop(), Vec::new());
    assert_eq!(service.lifecycle(), Lifecycle::Uninitialized);
}

#[test]
fn stop_twice_releases_the_controller_once() {
    let mut service = connected(DeviceProfile::Xbox360, false, ServiceConfiguration::default());
    let first = service.stop();
    let second = service.stop();
    assert_eq!(first, vec![Command::ReleaseTarget, Command::DisconnectDriver]);
    assert_eq!(second, Vec::new());
}

#[test]
fn stop_of_a_session_that_holds_nothing() {
    let mut service = Service::new();
    assert_eq!(service.stop(), Vec::new());
    assert_eq!(service.lifecycle(), Lifecycle::Uninitialized);
    assert!(service.init(ServiceConfiguration::default()).is_ok());
    assert_eq!(service.stop(), Vec::new());
    assert_eq!(service.lifecycle(), Lifecycle::Uninitialized);
}

#[test]
fn stop_while_connecting_closes_the_link() {
    let mut service = Service::new();
    assert!(service.init(ServiceConfiguration::default()).is_ok());
    assert!(service.driver_connected(true).is_ok());
    assert_eq!(service.stop(), vec![Command::DisconnectDriver]);
    assert_eq!(service.lifecycle(), Lifecycle::Stopping);
    assert_eq!(service.target_registered(true), Ok(Vec::new()));
    assert_eq!(service.lifecycle(), Lifecycle::Stopping);
}

#[test]
fn session_starts_again_after_stop() {
    let mut service = connected(DeviceProfile::Xbox360, false, ServiceConfiguration::default());
    assert_eq!(service.poll(&InputSnapshot::Keys(vec![W])), vec![xusb(0, 32767)]);
    service.stop();
    service.stopped();
    assert_eq!(service.init(ServiceConfiguration::default()), Ok(vec![Command::ConnectDriver]));
    assert!(service.driver_connected(true).is_ok());
    assert_eq!(service.target_registered(true), Ok(vec![xusb(0, 32767)]));
}

#[test]
fn detection_writes_the_test_vector_on_every_tick() {
    let mut service = connected(DeviceProfile::Xbox360, false, ServiceConfiguration::default());
    service.set_gamepad_detection_state(true);
    assert_eq!(service.lifecycle(), Lifecycle::Connected);
    assert_eq!(service.input_mode(), InputMode::DetectionTest);
    assert_eq!(service.poll(&InputSnapshot::Nothing), vec![xusb(0, 19_660)]);
    assert_eq!(service.poll(&InputSnapshot::Keys(vec![D])), vec![xusb(0, 19_660)]);
    service.set_gamepad_detection_state(false);
    assert_eq!(service.input_mode(), InputMode::DigitalPoll);
    assert_eq!(service.poll(&InputSnapshot::Keys(Vec::new())), vec![xusb(0, 0)]);
    assert_eq!(service.poll(&InputSnapshot::Keys(Vec::new())), Vec::new());
}

#[test]
fn detection_on_the_eight_bit_profile() {
    let mut service = connected(DeviceProfile::DualShock4, false, ServiceConfiguration::default());
    service.set_gamepad_detection_state(true);
    assert_eq!(service.poll(&InputSnapshot::Nothing), vec![ds4(128, 51)]);
}

#[test]
fn detection_does_not_touch_the_lifecycle() {
    let mut service = Service::new();
    service.set_gamepad_detection_state(true);
    assert_eq!(service.lifecycle(), Lifecycle::Uninitialized);
    assert_eq!(service.poll(&InputSnapshot::Nothing), Vec::new());
    assert_eq!(service.init(ServiceConfiguration::default()), Ok(vec![Command::ConnectDriver]));
}

#[test]
fn failed_write_is_reported_and_changes_nothing() {
    let mut service = connected(DeviceProfile::Xbox360, false, ServiceConfiguration::default());
    assert_eq!(service.poll(&InputSnapshot::Keys(vec![W])), vec![xusb(0, 32767)]);
    assert_eq!(service.report_written(false), Some(ServiceError::ReportWriteFailed));
    assert_eq!(service.report_written(true), None);
    assert_eq!(service.lifecycle(), Lifecycle::Connected);
    assert_eq!(service.poll(&InputSnapshot::Keys(vec![W])), Vec::new());
    assert_eq!(service.poll(&InputSnapshot::Keys(Vec::new())), vec![xusb(0, 0)]);
}

#[test]
fn errors_have_messages() {
    assert_eq!(
        ServiceError::DriverConnectionFailed.message(),
        "Failed to connect to VigemBus. Please ensure you have ViGEmBus properly installed"
    );
    assert_eq!(ServiceError::TargetRegistrationFailed.message(), "Failed to add target to ViGEmBus");
    let all = [
        ServiceError::DriverConnectionFailed,
        ServiceError::TargetRegistrationFailed,
        ServiceError::ReportWriteFailed,
        ServiceError::AnalogSourceInitFailed,
        ServiceError::ConfigParseFailed,
    ];
    for (i, error) in all.iter().enumerate() {
        assert!(!error.message().is_empty());
        for other in &all[i + 1..] {
            assert_ne!(error.message(), other.message());
        }
    }
}

#[test]
fn only_failures_of_a_start_are_fatal() {
    assert!(ServiceError::DriverConnectionFailed.is_fatal());
    assert!(ServiceError::TargetRegistrationFailed.is_fatal());
    assert!(!ServiceError::ReportWriteFailed.is_fatal());
    assert!(!ServiceError::AnalogSourceInitFailed.is_fatal());
    assert!(!ServiceError::ConfigParseFailed.is_fatal());
}

#[test]
fn sdk_state_clones_with_its_devices() {
    let state = AnalogSDKState::DevicesConnected(vec!["a".to_string(), "b".to_string()]);
    assert_eq!(state.clone(), state);
    assert_eq!(AnalogSDKState::NoDevices.clone(), AnalogSDKState::NoDevices);
    assert_eq!(
        AnalogSDKState::Error(AnalogFailure::NoDevices).clone(),
        AnalogSDKState::Error(AnalogFailure::NoDevices)
    );
}
