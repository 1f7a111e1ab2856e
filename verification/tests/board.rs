use mill_matter::attr::{
    concerns, AttrError, ATTR_BOOT_REASON, ATTR_RESET_CAUSE, BOOT_DIAG_CLUSTER_ID,
    ELEMENT_WATTS_CLUSTER_ID,
};
use mill_matter::boot_diag::{BootDiagHandler, BootRead};
use mill_matter::config::{DeviceConfig, Settings};
use mill_matter::factory_reset::{exit, Exit, PinEvent, PinWatch, Stopped};
use mill_matter::identity::{dev_comm, dev_det, eui64_from_factory_mac, DeviceIdentity};
use mill_matter::node::{
    root_endpoint_matches_stack, route, ClusterShape, EndpointShape, Route, ELEMENT_ENDPOINT,
    ROOT_ENDPOINT, THERMOSTAT_ENDPOINT,
};
use mill_matter::radio::{BleRecord, ThreadStart};
use mill_matter::supervisor::{
    arm_brownout_reset, boot_reason, reset_cause_code, serving_controller, set_bod_threshold,
    without_analog_reset, BootReason, BrownoutStep, ResetCause, ResetLevel, BROWNOUT_LEVEL,
    WATCHDOG_FEED_SECS, WATCHDOG_TIMEOUT_SECS,
};
use mill_matter::vendor_kv::{factory_reset_slots, load_blob, VendorSlot};

const MAC: [u8; 6] = [0xF0, 0xF5, 0xBD, 0x01, 0x2A, 0xFF];

fn device(serial_number: &str, software_version_string: &str) -> DeviceConfig {
    DeviceConfig {
        vendor_name: "Mill".to_string(),
        product_name: "Panel heater".to_string(),
        product_label: "Living room".to_string(),
        part_number: "PN".to_string(),
        hardware_version: 2,
        hardware_version_string: "2.0".to_string(),
        software_version: 7,
        software_version_string: software_version_string.to_string(),
        manufacturing_date: "20240229".to_string(),
        device_name: "Heater".to_string(),
        serial_number: serial_number.to_string(),
        unique_id_prefix: "mill-".to_string(),
    }
}

#[test]
fn reset_codes_are_the_chips_own() {
    let codes = [
        (ResetCause::ChipPowerOn, 0x01),
        (ResetCause::CoreSw, 0x03),
        (ResetCause::CoreDeepSleep, 0x05),
        (ResetCause::CoreSdio, 0x06),
        (ResetCause::CoreMwdt0, 0x07),
        (ResetCause::CoreMwdt1, 0x08),
        (ResetCause::CoreRtcWdt, 0x09),
        (ResetCause::Cpu0Mwdt0, 0x0B),
        (ResetCause::Cpu0Sw, 0x0C),
        (ResetCause::Cpu0RtcWdt, 0x0D),
        (ResetCause::SysBrownOut, 0x0F),
        (ResetCause::SysRtcWdt, 0x10),
        (ResetCause::Cpu0Mwdt1, 0x11),
        (ResetCause::SysSuperWdt, 0x12),
        (ResetCause::CoreEfuseCrc, 0x14),
        (ResetCause::CoreUsbUart, 0x15),
        (ResetCause::CoreUsbJtag, 0x16),
        (ResetCause::Cpu0JtagCpu, 0x18),
    ];
    for (cause, code) in codes {
        assert_eq!(reset_cause_code(Some(cause)), code);
    }
    assert_eq!(reset_cause_code(None), 0);
}

#[test]
fn boot_reasons_tell_brownouts_apart() {
    assert_eq!(boot_reason(Some(ResetCause::ChipPowerOn)), BootReason::PowerOnReboot);
    assert_eq!(boot_reason(Some(ResetCause::SysBrownOut)), BootReason::BrownOutReset);
    for cause in [
        ResetCause::CoreMwdt0,
        ResetCause::CoreMwdt1,
        ResetCause::Cpu0Mwdt0,
        ResetCause::Cpu0Mwdt1,
        ResetCause::CoreRtcWdt,
        ResetCause::Cpu0RtcWdt,
        ResetCause::SysRtcWdt,
        ResetCause::SysSuperWdt,
    ] {
        assert_eq!(boot_reason(Some(cause)), BootReason::HardwareWatchdogReset);
    }
    assert_eq!(boot_reason(Some(ResetCause::CoreSw)), BootReason::SoftwareReset);
    assert_eq!(boot_reason(Some(ResetCause::Cpu0Sw)), BootReason::SoftwareReset);
    assert_eq!(boot_reason(Some(ResetCause::CoreUsbJtag)), BootReason::Unspecified);
    assert_eq!(boot_reason(None), BootReason::Unspecified);
}

#[test]
fn boot_reason_values_are_the_standard_ones() {
    assert_eq!(BootReason::Unspecified.code(), 0);
    assert_eq!(BootReason::PowerOnReboot.code(), 1);
    assert_eq!(BootReason::BrownOutReset.code(), 2);
    assert_eq!(BootReason::SoftwareWatchdogReset.code(), 3);
    assert_eq!(BootReason::HardwareWatchdogReset.code(), 4);
    assert_eq!(BootReason::SoftwareUpdateCompleted.code(), 5);
    assert_eq!(BootReason::SoftwareReset.code(), 6);
}

#[test]
fn detector_is_armed_in_order() {
    let steps = arm_brownout_reset();
    assert_eq!(steps[0], BrownoutStep::TakeAnalogReset);
    assert_eq!(steps[1], BrownoutStep::DisableAnalogReset);
    match steps[2] {
        BrownoutStep::Configure(config) => {
            assert_eq!(config.intr_wait, 2);
            assert_eq!(config.reset_wait, 0x3ff);
            assert!(config.close_flash && config.power_down_rf && config.reset);
            assert_eq!(config.level, ResetLevel::System);
        }
        _ => panic!("the detector is configured third"),
    }
    assert_eq!(steps[3], BrownoutStep::ClearCounter);
    assert_eq!(steps[4], BrownoutStep::ReleaseCounter);
    assert_eq!(steps[5], BrownoutStep::SetThreshold(BROWNOUT_LEVEL));
    assert_eq!(steps[6], BrownoutStep::Enable);
}

#[test]
fn registers_keep_their_other_bits() {
    assert_eq!(without_analog_reset(0xFFFF_FFFF), 0xFFFF_FFFD);
    assert_eq!(without_analog_reset(0x0000_0005), 0x0000_0005);
    assert_eq!(set_bod_threshold(0b1010_1010, 7), 0b1010_1111);
    assert_eq!(set_bod_threshold(0b1111_1111, 0), 0b1111_1000);
    assert_eq!(set_bod_threshold(0, 0xFF), 7);
    assert_eq!(serving_controller(true), 0);
    assert_eq!(serving_controller(false), 1);
}

#[test]
fn watchdog_is_fed_in_time() {
    assert_eq!(WATCHDOG_TIMEOUT_SECS, 20);
    assert!(WATCHDOG_FEED_SECS < WATCHDOG_TIMEOUT_SECS);
}

#[test]
fn boot_diagnostics_are_served() {
    let handler = BootDiagHandler::new(Some(ResetCause::SysBrownOut));
    assert!(handler.is_alarming());
    assert_eq!(
        handler.read(false, ATTR_BOOT_REASON),
        Ok(BootRead::BootReason(BootReason::BrownOutReset))
    );
    assert_eq!(handler.read(false, ATTR_RESET_CAUSE), Ok(BootRead::ResetCause(0x0F)));
    assert_eq!(handler.read(false, 2), Err(AttrError::AttributeNotFound));
    assert_eq!(handler.read(true, 2), Ok(BootRead::Global));
    assert!(BootDiagHandler::new(Some(ResetCause::CoreMwdt1)).is_alarming());
    assert!(!BootDiagHandler::new(Some(ResetCause::ChipPowerOn)).is_alarming());
    let unknown = BootDiagHandler::new(None);
    assert_eq!(unknown.read(false, ATTR_RESET_CAUSE), Ok(BootRead::ResetCause(0)));
    assert!(unknown.bump_dataver(None));
    assert!(unknown.bump_dataver(Some(BOOT_DIAG_CLUSTER_ID)));
    assert!(!unknown.bump_dataver(Some(ELEMENT_WATTS_CLUSTER_ID)));
}

#[test]
fn operations_concern_their_cluster() {
    assert!(concerns(None, 5));
    assert!(concerns(Some(5), 5));
    assert!(!concerns(Some(4), 5));
    assert_eq!(BOOT_DIAG_CLUSTER_ID, 0xFFF1_FC02);
}

#[test]
fn thread_start_notices_ble() {
    let mut record = BleRecord::new();
    assert_eq!(record.thread_start(), ThreadStart::BleNotStarted);
    record.came_up_at(10);
    assert_eq!(record.thread_start(), ThreadStart::BleStillUp { since_ms: 10 });
    record.went_down_at(25);
    assert_eq!(record.thread_start(), ThreadStart::BleTornDown { at_ms: 25 });
    record.came_up_at(30);
    assert_eq!(record.thread_start(), ThreadStart::BleStillUp { since_ms: 30 });
}

#[test]
fn ble_record_reads_the_clock() {
    let mut record = BleRecord::new();
    let up = record.came_up();
    assert_eq!(record.thread_start(), ThreadStart::BleStillUp { since_ms: up });
    let mut down = record.went_down();
    assert_eq!(record.thread_start(), ThreadStart::BleTornDown { at_ms: down });
    // The clock moves.
    while down < up + 20 {
        down = record.went_down();
    }
    assert!(down >= up + 20);
}

#[test]
fn identity_comes_from_the_mac() {
    let identity = DeviceIdentity::from_factory_mac(&MAC, "mill-");
    assert_eq!(identity.serial_no(), "F0F5BD012AFF");
    assert_eq!(identity.unique_id(), "mill-F0F5BD012AFF");
    let mut other = MAC;
    other[5] = 0xFE;
    assert_ne!(DeviceIdentity::from_factory_mac(&other, "mill-").unique_id(), identity.unique_id());
    assert_eq!(
        eui64_from_factory_mac(&MAC),
        [0xF0, 0xF5, 0xBD, 0xFF, 0xFE, 0x01, 0x2A, 0xFF]
    );
}

#[test]
fn serial_number_can_be_overridden_but_the_unique_id_cannot() {
    let identity = DeviceIdentity::from_factory_mac(&MAC, "mill-");
    let own = device("", "");
    let info = dev_det(&own, &identity, "1.2.3");
    assert_eq!(info.serial_no, "F0F5BD012AFF");
    assert_eq!(info.sw_ver_str, "1.2.3");
    let shared = device("SN1", "9.9");
    let info = dev_det(&shared, &identity, "1.2.3");
    assert_eq!(info.serial_no, "SN1");
    assert_eq!(info.unique_id, "mill-F0F5BD012AFF");
    assert_eq!(info.sw_ver_str, "9.9");
    assert_eq!(info.vendor_name, "Mill");
    assert_eq!(info.product_name, "Panel heater");
    assert_eq!(info.product_label, "Living room");
    assert_eq!(info.part_number, "PN");
    assert_eq!((info.hw_ver, info.hw_ver_str), (2, "2.0"));
    assert_eq!(info.sw_ver, 7);
    assert_eq!(info.manufacturing_date, "20240229");
    assert_eq!(info.device_name, "Heater");
    assert_eq!(info.sai, Some(500));
}

#[test]
fn commissioning_data_is_little_endian() {
    let settings = Settings {
        element_watts: 600,
        circuit_max_watts: 3680,
        meter_accuracy: 500,
        abs_min_heat_setpoint: 500,
        abs_max_heat_setpoint: 3500,
        default_heating_setpoint: 2100,
        passcode: 20202021,
        discriminator: 3840,
    };
    let comm = dev_comm(&settings);
    assert_eq!(comm.password, 20202021u32.to_le_bytes());
    assert_eq!(comm.discriminator, 3840);
}

#[test]
fn clusters_are_routed() {
    assert_eq!(route(ROOT_ENDPOINT, BOOT_DIAG_CLUSTER_ID), Some(Route::BootDiag));
    assert_eq!(route(ROOT_ENDPOINT, 0x001D), Some(Route::RootSystem));
    assert_eq!(route(THERMOSTAT_ENDPOINT, 0x001D), Some(Route::ThermostatDescriptor));
    assert_eq!(route(THERMOSTAT_ENDPOINT, 0x0003), Some(Route::Identify));
    assert_eq!(route(THERMOSTAT_ENDPOINT, 0x0004), Some(Route::Groups));
    assert_eq!(route(THERMOSTAT_ENDPOINT, 0x0201), Some(Route::Thermostat));
    assert_eq!(route(THERMOSTAT_ENDPOINT, 0x009C), Some(Route::PowerTopology));
    assert_eq!(route(THERMOSTAT_ENDPOINT, 0x0090), Some(Route::Power));
    assert_eq!(route(THERMOSTAT_ENDPOINT, 0x0091), Some(Route::Energy));
    assert_eq!(route(THERMOSTAT_ENDPOINT, 0x0050), None);
    assert_eq!(route(ELEMENT_ENDPOINT, 0x001D), Some(Route::ElementDescriptor));
    assert_eq!(route(ELEMENT_ENDPOINT, 0x0050), Some(Route::ModeSelect));
    assert_eq!(route(ELEMENT_ENDPOINT, ELEMENT_WATTS_CLUSTER_ID), Some(Route::ElementWatts));
    assert_eq!(route(ELEMENT_ENDPOINT, 0x0201), None);
    assert_eq!(route(3, 0x001D), None);
}

#[test]
fn drift_from_the_stack_is_noticed() {
    fn cluster(id: u32) -> ClusterShape {
        ClusterShape { id, revision: 1, feature_map: 0 }
    }
    fn endpoint(ids: &[u32]) -> EndpointShape {
        EndpointShape {
            id: 0,
            device_types: vec![0x0016],
            clusters: ids.iter().map(|id| cluster(*id)).collect(),
        }
    }
    let stack = endpoint(&[1, 2, 3]);
    let ours = endpoint(&[1, 2, 3, BOOT_DIAG_CLUSTER_ID]);
    assert!(root_endpoint_matches_stack(&ours, &stack));
    assert!(root_endpoint_matches_stack(&endpoint(&[BOOT_DIAG_CLUSTER_ID]), &endpoint(&[])));
    assert!(!root_endpoint_matches_stack(&stack, &stack));
    assert!(!root_endpoint_matches_stack(&endpoint(&[]), &stack));
    assert!(!root_endpoint_matches_stack(&endpoint(&[1, 2, BOOT_DIAG_CLUSTER_ID, 3]), &stack));
    assert!(!root_endpoint_matches_stack(&endpoint(&[1, 9, 3, BOOT_DIAG_CLUSTER_ID]), &stack));
    let mut revised = endpoint(&[1, 2, 3, BOOT_DIAG_CLUSTER_ID]);
    revised.clusters[1].revision = 2;
    assert!(!root_endpoint_matches_stack(&revised, &stack));
    let mut featured = endpoint(&[1, 2, 3, BOOT_DIAG_CLUSTER_ID]);
    featured.clusters[2].feature_map = 1;
    assert!(!root_endpoint_matches_stack(&featured, &stack));
    let mut typed = endpoint(&[1, 2, 3, BOOT_DIAG_CLUSTER_ID]);
    typed.device_types = vec![0x0017];
    assert!(!root_endpoint_matches_stack(&typed, &stack));
    let mut moved = endpoint(&[1, 2, 3, BOOT_DIAG_CLUSTER_ID]);
    moved.id = 1;
    assert!(!root_endpoint_matches_stack(&moved, &stack));
    // What our own cluster's revision is does not matter to the comparison.
    let mut newer = endpoint(&[1, 2, 3, BOOT_DIAG_CLUSTER_ID]);
    newer.clusters[3].revision = 2;
    assert!(root_endpoint_matches_stack(&newer, &stack));
}

#[test]
fn deliberate_hold_resets() {
    let mut watch = PinWatch::new();
    assert_eq!(watch, PinWatch::ForPress);
    watch.next(PinEvent::Low);
    assert_eq!(watch, PinWatch::ForDebounce);
    watch.next(PinEvent::Settled { low: false });
    assert_eq!(watch, PinWatch::ForPress);
    watch.next(PinEvent::Low);
    watch.next(PinEvent::Settled { low: true });
    assert_eq!(watch, PinWatch::ForHold);
    watch.next(PinEvent::High);
    assert_eq!(watch, PinWatch::ForPress);
    watch.next(PinEvent::Held);
    assert_eq!(watch, PinWatch::ForPress);
    watch.next(PinEvent::Low);
    watch.next(PinEvent::Settled { low: true });
    watch.next(PinEvent::Held);
    assert_eq!(watch, PinWatch::Done);
    watch.next(PinEvent::High);
    assert_eq!(watch, PinWatch::Done);
}

#[test]
fn stopped_stack_does_not_touch_storage() {
    assert!(matches!(exit(Stopped::Stack), Exit::Reboot));
    match exit(Stopped::ResetRequested) {
        Exit::FactoryReset(slots) => assert_eq!(slots, factory_reset_slots()),
        Exit::Reboot => panic!("a factory reset was asked for"),
    }
}

#[test]
fn reset_removes_everything_current() {
    assert_eq!(
        factory_reset_slots(),
        [
            VendorSlot::HeatingElementEnergy,
            VendorSlot::ElementRating,
            VendorSlot::ThermostatAttrs,
            VendorSlot::ElementMode
        ]
    );
}

#[test]
fn keys_start_after_the_stacks_own() {
    assert_eq!(VendorSlot::LegacyThermostatState.key(0x8000), 0x8001);
    assert_eq!(VendorSlot::HeatingElementEnergy.key(0x8000), 0x8002);
    assert_eq!(VendorSlot::ElementRating.key(0x8000), 0x8003);
    assert_eq!(VendorSlot::ThermostatAttrs.key(0x8000), 0x8004);
    assert_eq!(VendorSlot::ElementMode.key(0x8000), 0x8005);
}

#[test]
fn blobs_are_truncated_to_the_buffer() {
    let mut out = [9; 3];
    assert_eq!(load_blob(None, &mut out), None);
    assert_eq!(out, [9, 9, 9]);
    assert_eq!(load_blob(Some(&[1, 2]), &mut out), Some(2));
    assert_eq!(out, [1, 2, 9]);
    assert_eq!(load_blob(Some(&[4, 5, 6, 7]), &mut out), Some(3));
    assert_eq!(out, [4, 5, 6]);
    assert_eq!(load_blob(Some(&[]), &mut out), Some(0));
}
