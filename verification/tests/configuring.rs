use mill_matter::config::{
    centidegrees, validate, validate_date, validate_passcode, AccuracyFault, CommissioningConfig,
    Config, ConfigError, DeviceConfig, DeviceText, HeaterConfig, SetpointKey, Settings,
};
use mill_matter::meter::ElecPwrDeviceLogic;
use mill_matter::overlay::{load, merge, LoadError};

fn config() -> Config {
    Config {
        heater: HeaterConfig {
            element_watts: 600,
            min_setpoint_celsius: 5,
            max_setpoint_celsius: 35,
            default_setpoint_celsius: 21,
            metering_accuracy: Ok(500),
            circuit_max_watts: 3680,
        },
        device: DeviceConfig {
            vendor_name: "Mill".to_string(),
            product_name: "Panel heater".to_string(),
            product_label: "".to_string(),
            part_number: "".to_string(),
            hardware_version: 1,
            hardware_version_string: "1".to_string(),
            software_version: 1,
            software_version_string: "".to_string(),
            manufacturing_date: "20240101".to_string(),
            device_name: "Heater".to_string(),
            serial_number: "".to_string(),
            unique_id_prefix: "mill-".to_string(),
        },
        commissioning: CommissioningConfig { passcode: 20202021, discriminator: 3840 },
    }
}

#[test]
fn valid_configuration_settles() {
    assert_eq!(validate(&config()), Ok(()));
    assert_eq!(
        Settings::from_config(&config()),
        Ok(Settings {
            element_watts: 600,
            circuit_max_watts: 3680,
            meter_accuracy: 500,
            abs_min_heat_setpoint: 500,
            abs_max_heat_setpoint: 3500,
            default_heating_setpoint: 2100,
            passcode: 20202021,
            discriminator: 3840,
        })
    );
}

#[test]
fn long_texts_are_refused() {
    let limits = [
        (DeviceText::VendorName, 32),
        (DeviceText::ProductName, 32),
        (DeviceText::ProductLabel, 64),
        (DeviceText::PartNumber, 32),
        (DeviceText::HardwareVersionString, 64),
        (DeviceText::SoftwareVersionString, 64),
        (DeviceText::ManufacturingDate, 16),
        (DeviceText::SerialNumber, 32),
    ];
    for (text, max) in limits {
        let mut config = config();
        let field = match text {
            DeviceText::VendorName => &mut config.device.vendor_name,
            DeviceText::ProductName => &mut config.device.product_name,
            DeviceText::ProductLabel => &mut config.device.product_label,
            DeviceText::PartNumber => &mut config.device.part_number,
            DeviceText::HardwareVersionString => &mut config.device.hardware_version_string,
            DeviceText::SoftwareVersionString => &mut config.device.software_version_string,
            DeviceText::ManufacturingDate => &mut config.device.manufacturing_date,
            DeviceText::SerialNumber => &mut config.device.serial_number,
        };
        // Characters are what counts, not bytes.
        *field = "\u{e6}".repeat(max);
        if text != DeviceText::ManufacturingDate {
            assert_eq!(validate(&config), Ok(()));
        } else {
            assert_eq!(validate(&config), Err(ConfigError::NoDate));
        }
        let field = match text {
            DeviceText::VendorName => &mut config.device.vendor_name,
            DeviceText::ProductName => &mut config.device.product_name,
            DeviceText::ProductLabel => &mut config.device.product_label,
            DeviceText::PartNumber => &mut config.device.part_number,
            DeviceText::HardwareVersionString => &mut config.device.hardware_version_string,
            DeviceText::SoftwareVersionString => &mut config.device.software_version_string,
            DeviceText::ManufacturingDate => &mut config.device.manufacturing_date,
            DeviceText::SerialNumber => &mut config.device.serial_number,
        };
        field.push('x');
        assert_eq!(validate(&config), Err(ConfigError::TooLong { text, len: max + 1, max }));
    }
}

#[test]
fn names_are_mandatory() {
    let mut nameless = config();
    nameless.device.vendor_name = String::new();
    assert_eq!(validate(&nameless), Err(ConfigError::NoName));
    let mut nameless = config();
    nameless.device.product_name = String::new();
    assert_eq!(validate(&nameless), Err(ConfigError::NoName));
    let mut nameless = config();
    nameless.device.device_name = String::new();
    assert_eq!(validate(&nameless), Err(ConfigError::NoDeviceName));
}

#[test]
fn unique_id_has_to_fit() {
    let mut config = config();
    config.device.unique_id_prefix = "x".repeat(52);
    assert_eq!(validate(&config), Ok(()));
    config.device.unique_id_prefix.push('x');
    assert!(matches!(validate(&config), Err(ConfigError::UniqueIdPrefixTooLong { .. })));
}

#[test]
fn dates_have_to_exist() {
    for date in ["20240229", "20000229", "19991231", "20240131", "20240430", "00000101"] {
        assert_eq!(validate_date(date), Ok(()), "{date}");
    }
    for date in [
        "", "2024022", "202402290", "20230229", "19000229", "20240431", "20241301", "20240001",
        "20240100", "2024010a", "2024-1-1", "2024010\u{661}",
    ] {
        assert_eq!(validate_date(date), Err(ConfigError::NoDate), "{date}");
    }
}

#[test]
fn element_has_to_fit_the_circuit() {
    let mut none = config();
    none.heater.element_watts = 0;
    assert_eq!(validate(&none), Err(ConfigError::NoElementWatts));
    let mut above = config();
    above.heater.element_watts = 3681;
    assert_eq!(validate(&above), Err(ConfigError::ElementAboveCircuit));
    let mut full = config();
    full.heater.element_watts = 3680;
    assert_eq!(validate(&full), Ok(()));
}

#[test]
fn setpoints_have_to_be_a_range() {
    let mut empty = config();
    empty.heater.max_setpoint_celsius = 5;
    assert_eq!(validate(&empty), Err(ConfigError::EmptySetpointRange));
    let mut outside = config();
    outside.heater.default_setpoint_celsius = 36;
    assert_eq!(validate(&outside), Err(ConfigError::DefaultSetpointOutsideRange));
    let mut far = config();
    far.heater.max_setpoint_celsius = 328;
    assert_eq!(
        validate(&far),
        Err(ConfigError::SetpointOutOfReach { key: SetpointKey::Max, celsius: 328 })
    );
    let mut low = config();
    low.heater.min_setpoint_celsius = -328;
    assert_eq!(
        validate(&low),
        Err(ConfigError::SetpointOutOfReach { key: SetpointKey::Min, celsius: -328 })
    );
}

#[test]
fn degrees_become_hundredths() {
    assert_eq!(centidegrees(21), Some(2100));
    assert_eq!(centidegrees(-5), Some(-500));
    assert_eq!(centidegrees(327), Some(32_700));
    assert_eq!(centidegrees(328), None);
    assert_eq!(centidegrees(-327), Some(-32_700));
    assert_eq!(centidegrees(-328), None);
    assert_eq!(centidegrees(i32::MAX), None);
    assert_eq!(centidegrees(i32::MIN), None);
}

#[test]
fn accuracy_has_to_be_expressible() {
    for fault in [AccuracyFault::OutOfRange, AccuracyFault::TooFine] {
        let mut config = config();
        config.heater.metering_accuracy = Err(fault);
        assert_eq!(validate(&config), Err(ConfigError::Accuracy { fault }));
    }
}

#[test]
fn commissioning_values_are_limited() {
    let mut wide = config();
    wide.commissioning.discriminator = 4096;
    assert_eq!(validate(&wide), Err(ConfigError::DiscriminatorTooLarge));
    let mut guessable = config();
    guessable.commissioning.passcode = 12345678;
    assert_eq!(validate(&guessable), Err(ConfigError::PasscodeForbidden));
}

#[test]
fn guessable_passcodes_are_forbidden() {
    for passcode in [
        0, 11111111, 22222222, 33333333, 44444444, 55555555, 66666666, 77777777, 88888888,
        12345678, 87654321,
    ] {
        assert_eq!(validate_passcode(passcode), Err(ConfigError::PasscodeForbidden));
    }
    assert_eq!(validate_passcode(99999999), Err(ConfigError::PasscodeTooLarge));
    assert_eq!(validate_passcode(0x5f5e0fe), Ok(()));
    assert_eq!(validate_passcode(0x5f5e0ff), Err(ConfigError::PasscodeTooLarge));
    assert_eq!(validate_passcode(20202021), Ok(()));
}

#[test]
fn ratings_above_the_attribute_are_settled() {
    let mut config = config();
    config.heater.circuit_max_watts = 70_000;
    assert_eq!(validate(&config), Ok(()));
    let settings = Settings::from_config(&config).unwrap();
    assert_eq!(settings.circuit_max_watts, 70_000);
    assert_eq!(settings.default_watts(), Some(600));
    assert_eq!(ElecPwrDeviceLogic::accuracy(&settings).max, 70_000_000);

    config.heater.element_watts = 65_535;
    assert_eq!(Settings::from_config(&config).unwrap().default_watts(), Some(65_535));
    config.heater.element_watts = 65_536;
    let settings = Settings::from_config(&config).unwrap();
    assert_eq!(settings.element_watts, 65_536);
    assert_eq!(settings.default_watts(), None);
}

#[test]
fn empty_texts_have_defaults() {
    let mut device = config().device;
    assert_eq!(device.serial_override(), None);
    assert_eq!(device.software_version_text("0.1.0"), "0.1.0");
    device.serial_number = "SN".to_string();
    device.software_version_string = "7".to_string();
    assert_eq!(device.serial_override(), Some("SN"));
    assert_eq!(device.software_version_text("0.1.0"), "7");
}

fn table(text: &str) -> toml::Table {
    load(Some(text), None).unwrap()
}

/// What is found at the end of a path.
fn at<'a>(table: &'a toml::Table, path: &[&str]) -> Option<&'a toml::Value> {
    let value = table.get(path[0])?;
    if path.len() == 1 {
        Some(value)
    } else {
        at(value.as_table()?, &path[1..])
    }
}

fn integer(table: &toml::Table, path: &[&str]) -> Option<i64> {
    at(table, path)?.as_integer()
}

#[test]
fn partial_section_replaces_only_its_own_keys() {
    let committed = "[heater]\nelement_watts = 600\ncircuit_max_watts = 3680\n\
                     [device]\nvendor_name = \"Mill\"\n";
    let local = "[heater]\nelement_watts = 1200\ntypo = 1\n";
    let merged = load(Some(committed), Some(local)).unwrap();
    assert_eq!(integer(&merged, &["heater", "element_watts"]), Some(1200));
    assert_eq!(integer(&merged, &["heater", "circuit_max_watts"]), Some(3680));
    assert_eq!(integer(&merged, &["heater", "typo"]), Some(1));
    assert_eq!(at(&merged, &["device", "vendor_name"]).unwrap().as_str(), Some("Mill"));
    assert_eq!(merged.len(), 2);
    assert_eq!(at(&merged, &["heater"]).unwrap().as_table().unwrap().len(), 3);
}

#[test]
fn tables_and_values_replace_each_other() {
    let mut base = table("a = 1\n[b]\nc = 2\n");
    merge(&mut base, table("b = 4\ne = 5\n[a]\nd = 3\n"));
    assert_eq!(base, table("b = 4\ne = 5\n[a]\nd = 3\n"));
}

#[test]
fn tables_are_merged_at_any_depth() {
    let mut base = table("[a.b]\nc = 1\nd = 2\n");
    merge(&mut base, table("[a.b]\nd = 3\n"));
    assert_eq!(base, table("[a.b]\nc = 1\nd = 3\n"));
}

#[test]
fn arrays_are_replaced_whole() {
    let mut base = table("a = [1, 2, 3]\n");
    merge(&mut base, table("a = [4]\n"));
    assert_eq!(base, table("a = [4]\n"));
}

#[test]
fn nothing_over_a_configuration_leaves_it() {
    let mut base = table("a = 1\n[b]\nc = 2.5\n");
    merge(&mut base, table(""));
    assert_eq!(base, table("a = 1\n[b]\nc = 2.5\n"));
    let mut empty = table("");
    merge(&mut empty, table("a = 2\n"));
    assert_eq!(empty, table("a = 2\n"));
    assert_eq!(load(Some("a = 1\n"), None).unwrap(), table("a = 1\n"));
}

#[test]
fn overlaying_again_changes_nothing() {
    let over = "[a]\nb = 3\nc = 4\n";
    let mut once = table("[a]\nb = 1\nd = 2\n");
    merge(&mut once, table(over));
    let mut twice = once.clone();
    merge(&mut twice, table(over));
    assert_eq!(once, twice);
}

#[test]
fn committed_configuration_is_mandatory() {
    assert!(matches!(load(None, Some("a = 1\n")), Err(LoadError::Missing)));
    match load(Some("a = \n"), Some("b = \n")) {
        Err(LoadError::Committed(complaint)) => assert!(!complaint.is_empty()),
        _ => panic!("the committed configuration is no TOML"),
    }
    match load(Some("a = 1\n"), Some("a = 1\na = 2\n")) {
        Err(LoadError::Local(complaint)) => assert!(!complaint.is_empty()),
        _ => panic!("the local configuration names a key twice"),
    }
}
