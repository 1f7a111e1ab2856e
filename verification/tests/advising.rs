use mill_matter::config::Settings;
use mill_matter::heater::{Changed, MillHeater};
use mill_matter::mill::{
    checksum, power_command, setpoint_command, END, OPCODE_STATUS, START,
};
use mill_matter::thermostat::{
    whole_degrees, Event, ModeSync, Notification, SetpointSync, SystemMode, ThermostatDeviceLogic,
    COMMAND_GRACE_MS, RELAY_HEAT,
};
use mill_matter::vendor_kv::VendorSlot;

const QUIET: Changed = Changed { room: false, element: false };

fn settings() -> Settings {
    Settings {
        element_watts: 600,
        circuit_max_watts: 3680,
        meter_accuracy: 500,
        abs_min_heat_setpoint: 500,
        abs_max_heat_setpoint: 3500,
        default_heating_setpoint: 2100,
        passcode: 20202021,
        discriminator: 3840,
    }
}

fn status(setpoint: u8, room: u8, mode: u8, element: u8) -> Vec<u8> {
    let payload = [0, 0, 0, 0, OPCODE_STATUS, 0, setpoint, room, 0, mode, 0, element];
    let mut frame = vec![START];
    frame.extend_from_slice(&payload);
    frame.push(checksum(&payload));
    frame.push(END);
    frame
}

fn heater_at(setpoint: u8, mode: u8) -> MillHeater {
    let mut heater = MillHeater::new_at(None, 600, 0);
    heater.recv_status_at(&status(setpoint, 19, mode, 0), 0);
    heater
}

/// A thermostat past its startup push, holding `mode` at `setpoint`.
fn started(heater: &MillHeater, mode: SystemMode, setpoint: i16) -> ThermostatDeviceLogic {
    let (mut thermostat, _) = ThermostatDeviceLogic::new(&settings(), None);
    assert!(thermostat.apply_at(heater, mode, setpoint, 0).is_empty());
    thermostat
}

#[test]
fn degrees_are_rounded_to_the_nearest() {
    assert_eq!(whole_degrees(2100), 21);
    assert_eq!(whole_degrees(2149), 21);
    assert_eq!(whole_degrees(2150), 22);
    assert_eq!(whole_degrees(49), 0);
    assert_eq!(whole_degrees(50), 1);
    assert_eq!(whole_degrees(-50), 0);
    assert_eq!(whole_degrees(i16::MIN), 0);
    assert_eq!(whole_degrees(25_549), 255);
    assert_eq!(whole_degrees(i16::MAX), 255);
}

#[test]
fn fresh_thermostat_is_off_at_the_default() {
    let (thermostat, stale) = ThermostatDeviceLogic::new(&settings(), None);
    assert_eq!(thermostat.setpoint, 2100);
    assert_eq!(thermostat.system_mode, SystemMode::Off);
    assert!(!thermostat.applied);
    assert_eq!(stale, None);
}

#[test]
fn older_state_is_removed() {
    let (_, stale) = ThermostatDeviceLogic::new(&settings(), Some(&[4, 0, 0, 0, 0, 0, 0]));
    assert_eq!(stale, Some(VendorSlot::LegacyThermostatState));
}

#[test]
fn startup_push_sends_nothing() {
    let heater = heater_at(25, 0);
    let (mut thermostat, _) = ThermostatDeviceLogic::new(&settings(), None);
    assert!(thermostat.apply_at(&heater, SystemMode::Heat, 2150, 0).is_empty());
    assert_eq!(thermostat.setpoint, 2150);
    assert_eq!(thermostat.system_mode, SystemMode::Heat);
    assert_eq!(thermostat.pending_setpoint, None);
}

#[test]
fn writes_go_out_rounded_and_in_order() {
    let heater = heater_at(20, 0);
    let mut thermostat = started(&heater, SystemMode::Off, 2000);
    let frames = thermostat.apply_at(&heater, SystemMode::Heat, 2150, 1_000);
    assert_eq!(frames, vec![setpoint_command(22), power_command(true)]);
    assert_eq!(thermostat.setpoint, 2150);
    assert_eq!(thermostat.pending_setpoint, Some((22, 1_000)));
    assert_eq!(thermostat.pending_mode, Some((true, 1_000)));
}

#[test]
fn agreed_writes_are_suppressed() {
    let heater = heater_at(22, 1);
    let mut thermostat = started(&heater, SystemMode::Heat, 2200);
    assert!(thermostat.apply_at(&heater, SystemMode::Heat, 2200, 1_000).is_empty());
    let frames = thermostat.apply_at(&heater, SystemMode::Heat, 2300, 1_000);
    assert_eq!(frames, vec![setpoint_command(23)]);
    assert!(thermostat.apply_at(&heater, SystemMode::Heat, 2300, 2_000).is_empty());
    // The heater still reports 22, but 23 is outstanding, so going back is a new command.
    let frames = thermostat.apply_at(&heater, SystemMode::Heat, 2200, 3_000);
    assert_eq!(frames, vec![setpoint_command(22)]);
}

#[test]
fn any_mode_but_heat_is_off() {
    let heater = heater_at(22, 1);
    let mut thermostat = started(&heater, SystemMode::Heat, 2200);
    let frames = thermostat.command(&heater, SystemMode::Off, 22, 0);
    assert_eq!(frames, vec![power_command(false)]);
    let mut thermostat = started(&heater, SystemMode::Heat, 2200);
    assert_eq!(thermostat.command(&heater, SystemMode::Cool, 22, 0), vec![power_command(false)]);
}

#[test]
fn confirmed_setpoint_keeps_what_was_written() {
    let mut heater = heater_at(20, 1);
    let mut thermostat = started(&heater, SystemMode::Heat, 2000);
    thermostat.apply_at(&heater, SystemMode::Heat, 2150, 1_000);
    heater.recv_status_at(&status(22, 19, 1, 0), 2_000);
    assert_eq!(thermostat.report_at(&heater, QUIET, 2_000, 2_000).told, vec![]);
    assert_eq!(thermostat.setpoint, 2150);
    assert_eq!(thermostat.pending_setpoint, None);
}

#[test]
fn crossed_frames_are_ignored_for_a_while() {
    let heater = heater_at(20, 1);
    let mut thermostat = started(&heater, SystemMode::Heat, 2000);
    thermostat.apply_at(&heater, SystemMode::Heat, 2200, 1_000);
    let almost = 1_000 + COMMAND_GRACE_MS - 1;
    assert_eq!(thermostat.report_at(&heater, QUIET, almost, almost).told, vec![]);
    assert_eq!(thermostat.setpoint, 2200);
    let late = 1_000 + COMMAND_GRACE_MS;
    assert_eq!(
        thermostat.report_at(&heater, QUIET, late, late).told,
        vec![Notification::OccupiedHeatingSetpoint(2000)]
    );
    assert_eq!(thermostat.setpoint, 2000);
    assert_eq!(thermostat.pending_setpoint, None);
}

#[test]
fn crossed_power_states_are_ignored_for_a_while() {
    let heater = heater_at(20, 0);
    let mut thermostat = started(&heater, SystemMode::Off, 2000);
    thermostat.apply_at(&heater, SystemMode::Heat, 2000, 1_000);
    assert_eq!(
        thermostat.sync_mode(&heater, 2_000),
        ModeSync { adopted: None, given_up: None }
    );
    assert_eq!(
        thermostat.sync_mode(&heater, 1_000 + COMMAND_GRACE_MS),
        ModeSync { adopted: Some(SystemMode::Off), given_up: Some(true) }
    );
    assert_eq!(thermostat.system_mode, SystemMode::Off);
}

#[test]
fn front_panel_wins() {
    let mut heater = heater_at(22, 1);
    let mut thermostat = started(&heater, SystemMode::Heat, 2200);
    let changed = heater.recv_status_at(&status(25, 20, 0, 1), 1_000).changed.unwrap();
    assert_eq!(
        thermostat.report_at(&heater, changed, 1_000, 1_000).told,
        vec![
            Notification::LocalTemperature,
            Notification::RunningState,
            Notification::OccupiedHeatingSetpoint(2500),
            Notification::SystemMode(SystemMode::Off),
        ]
    );
    assert_eq!(thermostat.sync_setpoint(&heater, 1_000).adopted, None);
    assert_eq!(thermostat.report_at(&heater, QUIET, 2_000, 2_000).told, vec![]);
}

#[test]
fn first_frame_after_boot_wins() {
    let mut heater = MillHeater::new_at(None, 600, 0);
    let mut thermostat = started(&heater, SystemMode::Off, 2100);
    let changed = heater.recv_status_at(&status(18, 17, 1, 0), 500).changed.unwrap();
    assert_eq!(
        thermostat.handle_at(&mut heater, Event::Status(changed), 500, 500, 500).told,
        vec![
            Notification::LocalTemperature,
            Notification::OccupiedHeatingSetpoint(1800),
            Notification::SystemMode(SystemMode::Heat),
        ]
    );
}

#[test]
fn same_whole_degree_is_no_change() {
    let heater = heater_at(22, 1);
    let mut thermostat = started(&heater, SystemMode::Heat, 2150);
    assert_eq!(
        thermostat.sync_setpoint(&heater, 0),
        SetpointSync { adopted: None, given_up: None }
    );
    assert_eq!(thermostat.setpoint, 2150);
}

#[test]
fn silence_nulls_the_readings_and_keeps_the_setpoint() {
    let mut heater = MillHeater::new_at(None, 600, 0);
    let mut thermostat = started(&heater, SystemMode::Heat, 2200);
    heater.recv_status_at(&status(22, 19, 1, 1), 0);
    assert_eq!(thermostat.local_temperature(&heater), Some(1900));
    assert_eq!(thermostat.running_state(&heater), RELAY_HEAT);
    let told = thermostat.handle_at(&mut heater, Event::Silence, 120_000, 120_000, 120_000).told;
    assert_eq!(told, vec![Notification::LocalTemperature, Notification::RunningState]);
    assert_eq!(thermostat.local_temperature(&heater), None);
    assert_eq!(thermostat.running_state(&heater), 0);
    assert_eq!(thermostat.setpoint, 2200);
    assert_eq!(thermostat.system_mode, SystemMode::Heat);
    let told = thermostat.handle_at(&mut heater, Event::Silence, 240_000, 240_000, 240_000).told;
    assert_eq!(told, vec![]);
}

#[test]
fn clock_reading_calls_agree_with_the_rest() {
    let mut heater = heater_at(20, 0);
    let mut thermostat = started(&heater, SystemMode::Off, 2000);
    let frames = thermostat.apply(&heater, SystemMode::Heat, 2200);
    assert_eq!(frames, vec![setpoint_command(22), power_command(true)]);
    // Just sent, so the disagreement is still a crossing.
    assert_eq!(thermostat.report(&heater, QUIET).told, vec![]);
    assert_eq!(thermostat.handle(&mut heater, Event::Status(QUIET)).told, vec![]);
    assert_eq!(
        thermostat.handle(&mut heater, Event::Silence).told,
        vec![Notification::LocalTemperature]
    );
    assert!(!heater.is_online());
}

#[test]
fn unheeded_commands_are_told_once() {
    let heater = heater_at(20, 0);
    let mut thermostat = started(&heater, SystemMode::Off, 2000);
    thermostat.apply_at(&heater, SystemMode::Heat, 2200, 1_000);
    let early = thermostat.report_at(&heater, QUIET, 2_000, 2_000);
    assert_eq!((early.setpoint_given_up, early.mode_given_up), (None, None));
    let late = 1_000 + COMMAND_GRACE_MS;
    let report = thermostat.report_at(&heater, QUIET, late, late);
    assert_eq!(report.setpoint_given_up, Some(22));
    assert_eq!(report.mode_given_up, Some(true));
    let again = thermostat.report_at(&heater, QUIET, late, late);
    assert_eq!((again.setpoint_given_up, again.mode_given_up), (None, None));
}
