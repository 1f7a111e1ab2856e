//! Per-unit settings: what may be configured, and what a valid configuration settles.
//!
//! A configuration is read and checked when the firmware is built, so that a bad value
//! is a build error rather than something a controller discovers. [`validate`] is that
//! check, and [`Settings`] is what the rest of the library works from.

use vstd::prelude::*;
use vstd::string::*;

verus! {

/// The `[heater]` section.
#[derive(Debug)]
pub struct HeaterConfig {
    /// What the element is rated at, in watts.
    pub element_watts: u32,
    /// The lowest setpoint, in whole degC.
    pub min_setpoint_celsius: i32,
    /// The highest setpoint, in whole degC.
    pub max_setpoint_celsius: i32,
    /// The setpoint a device with nothing to restore comes up with, in whole degC.
    pub default_setpoint_celsius: i32,
    /// How accurate the readings claim to be, in hundredths of a percent, or why the
    /// percentage given cannot be expressed that way.
    pub metering_accuracy: Result<u16, AccuracyFault>,
    /// The most the circuit can supply, in watts.
    pub circuit_max_watts: u32,
}

/// Why a percentage is no metering accuracy.
#[derive(Clone, Copy, Debug, PartialEq, Eq, Structural)]
pub enum AccuracyFault {
    /// It is not between 0 and 100.
    OutOfRange,
    /// It is finer than a hundredth of a percent.
    TooFine,
}

/// The `[device]` section: what Basic Information serves.
#[derive(Debug)]
pub struct DeviceConfig {
    pub vendor_name: String,
    pub product_name: String,
    pub product_label: String,
    pub part_number: String,
    pub hardware_version: u16,
    pub hardware_version_string: String,
    pub software_version: u32,
    /// Empty for the package's own version.
    pub software_version_string: String,
    /// As `YYYYMMDD`.
    pub manufacturing_date: String,
    /// The name carried in the commissioning advertisement.
    pub device_name: String,
    /// Empty to derive one from the factory MAC.
    pub serial_number: String,
    /// Prefixed to the MAC-derived unique ID.
    pub unique_id_prefix: String,
}

/// The `[commissioning]` section.
#[derive(Debug)]
pub struct CommissioningConfig {
    /// The passcode behind the printed pairing codes.
    pub passcode: u32,
    /// The 12-bit discriminator.
    pub discriminator: u16,
}

/// A whole configuration.
#[derive(Debug)]
pub struct Config {
    pub heater: HeaterConfig,
    pub device: DeviceConfig,
    pub commissioning: CommissioningConfig,
}

/// A text of the `[device]` section that Basic Information limits in length.
#[derive(Clone, Copy, Debug, PartialEq, Eq, Structural)]
pub enum DeviceText {
    VendorName,
    ProductName,
    ProductLabel,
    PartNumber,
    HardwareVersionString,
    SoftwareVersionString,
    ManufacturingDate,
    SerialNumber,
}

/// A setpoint of the `[heater]` section.
#[derive(Clone, Copy, Debug, PartialEq, Eq, Structural)]
pub enum SetpointKey {
    Min,
    Max,
    Default,
}

/// What is wrong with a configuration.
#[derive(Clone, Copy, Debug, PartialEq, Eq, Structural)]
pub enum ConfigError {
    /// A text is longer than Basic Information allows, in characters.
    TooLong { text: DeviceText, len: usize, max: usize },
    /// The vendor name or the product name is empty.
    NoName,
    /// The device name is empty.
    NoDeviceName,
    /// The prefix leaves no room for the twelve digits of the factory MAC.
    UniqueIdPrefixTooLong { len: usize },
    /// The manufacturing date is no calendar date as `YYYYMMDD`.
    NoDate,
    /// The element is rated at nothing.
    NoElementWatts,
    /// The element draws more than the range the meter advertises.
    ElementAboveCircuit,
    /// The lowest setpoint is not below the highest.
    EmptySetpointRange,
    /// The default setpoint is outside the range.
    DefaultSetpointOutsideRange,
    /// A setpoint does not fit hundredths of a degree in an `i16`.
    SetpointOutOfReach { key: SetpointKey, celsius: i32 },
    /// The metering accuracy cannot be expressed.
    Accuracy { fault: AccuracyFault },
    /// The discriminator does not fit 12 bits.
    DiscriminatorTooLarge,
    /// The passcode is above the largest that encodes in a manual pairing code.
    PasscodeTooLarge,
    /// The passcode is one of those forbidden as too easily guessed.
    PasscodeForbidden,
}

/// The largest passcode that encodes in the manual pairing code.
pub const MAX_PASSCODE: u32 = 0x5f5e0fe;

/// The largest 12-bit discriminator.
pub const MAX_DISCRIMINATOR: u16 = 0xfff;

/// How long a unique ID may be, in characters.
pub const UNIQUE_ID_MAX: usize = 64;

/// How many characters of a unique ID the factory MAC takes.
pub const MAC_DIGITS: usize = 12;

/// How many characters Basic Information allows for a text.
pub open spec fn max_len(text: DeviceText) -> usize {
    match text {
        DeviceText::VendorName => 32,
        DeviceText::ProductName => 32,
        DeviceText::ProductLabel => 64,
        DeviceText::PartNumber => 32,
        DeviceText::HardwareVersionString => 64,
        DeviceText::SoftwareVersionString => 64,
        DeviceText::ManufacturingDate => 16,
        DeviceText::SerialNumber => 32,
    }
}

impl DeviceConfig {
    /// The text that a limit is on.
    pub open spec fn text(&self, text: DeviceText) -> Seq<char> {
        match text {
            DeviceText::VendorName => self.vendor_name@,
            DeviceText::ProductName => self.product_name@,
            DeviceText::ProductLabel => self.product_label@,
            DeviceText::PartNumber => self.part_number@,
            DeviceText::HardwareVersionString => self.hardware_version_string@,
            DeviceText::SoftwareVersionString => self.software_version_string@,
            DeviceText::ManufacturingDate => self.manufacturing_date@,
            DeviceText::SerialNumber => self.serial_number@,
        }
    }

    /// Whether a text keeps to its limit.
    pub open spec fn fits(&self, text: DeviceText) -> bool {
        self.text(text).len() <= max_len(text)
    }

    /// The serial number that a board reports whose own is `own`.
    pub open spec fn served_serial(&self, own: Seq<char>) -> Seq<char> {
        if self.serial_number@.len() > 0 {
            self.serial_number@
        } else {
            own
        }
    }

    /// The software version text that is served, given the package's own version.
    pub open spec fn served_version(&self, package_version: Seq<char>) -> Seq<char> {
        if self.software_version_string@.len() > 0 {
            self.software_version_string@
        } else {
            package_version
        }
    }

    /// The complaint about a text that does not keep to its limit.
    pub open spec fn too_long(&self, text: DeviceText) -> ConfigError {
        ConfigError::TooLong { text, len: self.text(text).len() as usize, max: max_len(text) }
    }
}

/// A complaint that is made unless a condition holds.
pub open spec fn unless(holds: bool, error: ConfigError) -> Option<ConfigError> {
    if holds {
        None
    } else {
        Some(error)
    }
}

/// The value of a decimal digit, or `None` for any other character.
pub open spec fn digit_value(c: char) -> Option<int> {
    if '0' <= c && c <= '9' {
        Some(c as int - '0' as int)
    } else {
        None
    }
}

/// The number that a run of decimal digits stands for.
pub open spec fn number(digits: Seq<char>) -> int
    decreases digits.len(),
{
    if digits.len() == 0 {
        0
    } else {
        10 * number(digits.drop_last()) + (digits.last() as int - '0' as int)
    }
}

/// Whether a year has a 29th of February.
pub open spec fn is_leap(year: int) -> bool {
    year % 4 == 0 && (year % 100 != 0 || year % 400 == 0)
}

/// How many days a month has; none, if it is no month.
pub open spec fn days_in(year: int, month: int) -> int {
    if month == 2 {
        if is_leap(year) {
            29
        } else {
            28
        }
    } else if month == 4 || month == 6 || month == 9 || month == 11 {
        30
    } else if 1 <= month <= 12 {
        31
    } else {
        0
    }
}

/// Whether a text is a date that exists, as `YYYYMMDD`.
pub open spec fn is_date(text: Seq<char>) -> bool {
    &&& text.len() == 8
    &&& forall|i: int| 0 <= i < 8 ==> '0' <= #[trigger] text[i] && text[i] <= '9'
    &&& 1 <= number(text.subrange(6, 8)) <= days_in(
        number(text.subrange(0, 4)),
        number(text.subrange(4, 6)),
    )
}

/// Whether a passcode is one of those forbidden as too easily guessed.
pub open spec fn is_forbidden(passcode: u32) -> bool {
    passcode % 11111111 == 0 && passcode <= 99999999 || passcode == 12345678 || passcode == 87654321
}

/// What is wrong with a passcode.
pub open spec fn passcode_fault(passcode: u32) -> Option<ConfigError> {
    if passcode > MAX_PASSCODE {
        Some(ConfigError::PasscodeTooLarge)
    } else {
        unless(!is_forbidden(passcode), ConfigError::PasscodeForbidden)
    }
}

/// Whole degrees Celsius as hundredths, if they fit an `i16`.
pub open spec fn centidegrees_of(celsius: i32) -> Option<i16> {
    if i16::MIN <= celsius * 100 <= i16::MAX {
        Some((celsius * 100) as i16)
    } else {
        None
    }
}

/// What is wrong with a setpoint.
pub open spec fn setpoint_fault(key: SetpointKey, celsius: i32) -> Option<ConfigError> {
    unless(
        centidegrees_of(celsius) is Some,
        ConfigError::SetpointOutOfReach { key, celsius },
    )
}

/// The first thing wrong with the `[device]` section, in the order in which it is checked.
pub open spec fn device_fault(device: &DeviceConfig) -> Option<ConfigError> {
    if !device.fits(DeviceText::VendorName) {
        Some(device.too_long(DeviceText::VendorName))
    } else if !device.fits(DeviceText::ProductName) {
        Some(device.too_long(DeviceText::ProductName))
    } else if !device.fits(DeviceText::ProductLabel) {
        Some(device.too_long(DeviceText::ProductLabel))
    } else if !device.fits(DeviceText::PartNumber) {
        Some(device.too_long(DeviceText::PartNumber))
    } else if !device.fits(DeviceText::HardwareVersionString) {
        Some(device.too_long(DeviceText::HardwareVersionString))
    } else if !device.fits(DeviceText::SoftwareVersionString) {
        Some(device.too_long(DeviceText::SoftwareVersionString))
    } else if !device.fits(DeviceText::ManufacturingDate) {
        Some(device.too_long(DeviceText::ManufacturingDate))
    } else if !device.fits(DeviceText::SerialNumber) {
        Some(device.too_long(DeviceText::SerialNumber))
    } else if device.vendor_name@.len() == 0 || device.product_name@.len() == 0 {
        Some(ConfigError::NoName)
    } else if device.device_name@.len() == 0 {
        Some(ConfigError::NoDeviceName)
    } else if device.unique_id_prefix@.len() + MAC_DIGITS > UNIQUE_ID_MAX {
        Some(ConfigError::UniqueIdPrefixTooLong { len: device.unique_id_prefix@.len() as usize })
    } else {
        unless(is_date(device.manufacturing_date@), ConfigError::NoDate)
    }
}

/// The first thing wrong with the `[heater]` section, in the order in which it is checked.
pub open spec fn heater_fault(heater: &HeaterConfig) -> Option<ConfigError> {
    if heater.element_watts == 0 {
        Some(ConfigError::NoElementWatts)
    } else if heater.element_watts > heater.circuit_max_watts {
        Some(ConfigError::ElementAboveCircuit)
    } else if heater.min_setpoint_celsius >= heater.max_setpoint_celsius {
        Some(ConfigError::EmptySetpointRange)
    } else if !(heater.min_setpoint_celsius <= heater.default_setpoint_celsius
        <= heater.max_setpoint_celsius) {
        Some(ConfigError::DefaultSetpointOutsideRange)
    } else if centidegrees_of(heater.min_setpoint_celsius) is None {
        setpoint_fault(SetpointKey::Min, heater.min_setpoint_celsius)
    } else if centidegrees_of(heater.max_setpoint_celsius) is None {
        setpoint_fault(SetpointKey::Max, heater.max_setpoint_celsius)
    } else if centidegrees_of(heater.default_setpoint_celsius) is None {
        setpoint_fault(SetpointKey::Default, heater.default_setpoint_celsius)
    } else {
        match heater.metering_accuracy {
            Ok(_) => None,
            Err(fault) => Some(ConfigError::Accuracy { fault }),
        }
    }
}

/// The first thing wrong with a configuration, in the order in which it is checked.
pub open spec fn fault_of(config: &Config) -> Option<ConfigError> {
    if device_fault(&config.device) is Some {
        device_fault(&config.device)
    } else if heater_fault(&config.heater) is Some {
        heater_fault(&config.heater)
    } else if config.commissioning.discriminator > MAX_DISCRIMINATOR {
        Some(ConfigError::DiscriminatorTooLarge)
    } else {
        passcode_fault(config.commissioning.passcode)
    }
}

/// A check's result as the complaint it makes.
pub open spec fn complaint(result: Result<(), ConfigError>) -> Option<ConfigError> {
    match result {
        Ok(()) => None,
        Err(error) => Some(error),
    }
}

/// Check that a text keeps to its limit.
fn check_len(value: &String, text: DeviceText, max: usize) -> (result: Result<(), ConfigError>)
    requires
        max == max_len(text),
    ensures
        complaint(result) == if value@.len() <= max {
            None
        } else {
            Some(ConfigError::TooLong { text, len: value@.len() as usize, max })
        },
{
    let len: usize = value.as_str().unicode_len();

    if len > max {
        return Err(ConfigError::TooLong { text, len, max });
    }

    Ok(())
}

/// Check the `[device]` section.
fn validate_device(device: &DeviceConfig) -> (result: Result<(), ConfigError>)
    ensures
        complaint(result) == device_fault(device),
{
    check_len(&device.vendor_name, DeviceText::VendorName, 32)?;
    check_len(&device.product_name, DeviceText::ProductName, 32)?;
    check_len(&device.product_label, DeviceText::ProductLabel, 64)?;
    check_len(&device.part_number, DeviceText::PartNumber, 32)?;
    check_len(&device.hardware_version_string, DeviceText::HardwareVersionString, 64)?;
    check_len(&device.software_version_string, DeviceText::SoftwareVersionString, 64)?;
    check_len(&device.manufacturing_date, DeviceText::ManufacturingDate, 16)?;
    check_len(&device.serial_number, DeviceText::SerialNumber, 32)?;

    if device.vendor_name.as_str().unicode_len() == 0 || device.product_name.as_str().unicode_len()
        == 0 {
        return Err(ConfigError::NoName);
    }

    if device.device_name.as_str().unicode_len() == 0 {
        return Err(ConfigError::NoDeviceName);
    }
    let prefix_len: usize = device.unique_id_prefix.as_str().unicode_len();

    if prefix_len > UNIQUE_ID_MAX - MAC_DIGITS {
        return Err(ConfigError::UniqueIdPrefixTooLong { len: prefix_len });
    }

    validate_date(device.manufacturing_date.as_str())
}

/// The decimal digit at `i`, if there is one.
fn digit_at(text: &str, i: usize) -> (digit: Option<u32>)
    requires
        i < text@.len(),
    ensures
        match digit {
            Some(digit) => digit_value(text@[i as int]) == Some(digit as int) && digit <= 9,
            None => digit_value(text@[i as int]) is None,
        },
{
    let c: char = text.get_char(i);

    if '0' <= c && c <= '9' {
        Some(c as u32 - '0' as u32)
    } else {
        None
    }
}

/// `YYYYMMDD`, and a date that exists.
pub fn validate_date(date: &str) -> (result: Result<(), ConfigError>)
    ensures
        complaint(result) == unless(is_date(date@), ConfigError::NoDate),
{
    if date.unicode_len() != 8 {
        return Err(ConfigError::NoDate);
    }
    let mut digits: [u32; 8] = [0u32; 8];
    let mut i: usize = 0;

    while i < 8
        invariant
            i <= 8,
            date@.len() == 8,
            forall|j: int|
                0 <= j < i ==> digit_value(#[trigger] date@[j]) == Some(digits@[j] as int)
                    && digits@[j] <= 9,
        decreases 8 - i,
    {
        match digit_at(date, i) {
            Some(digit) => {
                digits[i] = digit;
            },
            None => {
                return Err(ConfigError::NoDate);
            },
        }
        i += 1;
    }
    proof {
        reveal_with_fuel(number, 5);
        assert(digit_value(date@[0]) is Some && digit_value(date@[1]) is Some);
        assert(digit_value(date@[2]) is Some && digit_value(date@[3]) is Some);
        assert(digit_value(date@[4]) is Some && digit_value(date@[5]) is Some);
        assert(digit_value(date@[6]) is Some && digit_value(date@[7]) is Some);
    }

    let year: u32 = 1000 * digits[0] + 100 * digits[1] + 10 * digits[2] + digits[3];
    let month: u32 = 10 * digits[4] + digits[5];
    let day: u32 = 10 * digits[6] + digits[7];
    proof {
        assert(number(date@.subrange(0, 4)) == year);
        assert(number(date@.subrange(4, 6)) == month);
        assert(number(date@.subrange(6, 8)) == day);
    }
    let leap: bool = year % 4 == 0 && (year % 100 != 0 || year % 400 == 0);
    let days: u32 = match month {
        1 | 3 | 5 | 7 | 8 | 10 | 12 => 31,
        4 | 6 | 9 | 11 => 30,
        2 => if leap {
            29
        } else {
            28
        },
        _ => {
            return Err(ConfigError::NoDate);
        },
    };

    if day == 0 || day > days {
        return Err(ConfigError::NoDate);
    }

    Ok(())
}

/// A passcode is at most [`MAX_PASSCODE`], not zero, and not one of those called out as
/// too easily guessed.
pub fn validate_passcode(passcode: u32) -> (result: Result<(), ConfigError>)
    ensures
        complaint(result) == passcode_fault(passcode),
{
    if passcode > MAX_PASSCODE {
        return Err(ConfigError::PasscodeTooLarge);
    }

    match passcode {
        0
        | 11111111
        | 22222222
        | 33333333
        | 44444444
        | 55555555
        | 66666666
        | 77777777
        | 88888888
        | 99999999
        | 12345678
        | 87654321 => Err(ConfigError::PasscodeForbidden),
        _ => Ok(()),
    }
}

/// Whole degrees Celsius to the hundredths the Thermostat cluster serves.
pub fn centidegrees(celsius: i32) -> (centi: Option<i16>)
    ensures
        centi == centidegrees_of(celsius),
{
    if celsius < -327 || celsius > 327 {
        None
    } else {
        Some((celsius * 100) as i16)
    }
}

/// Check that a setpoint can be served.
fn check_setpoint(key: SetpointKey, celsius: i32) -> (result: Result<(), ConfigError>)
    ensures
        complaint(result) == setpoint_fault(key, celsius),
{
    if centidegrees(celsius).is_none() {
        return Err(ConfigError::SetpointOutOfReach { key, celsius });
    }

    Ok(())
}

/// Check the `[heater]` section.
fn validate_heater(heater: &HeaterConfig) -> (result: Result<(), ConfigError>)
    ensures
        complaint(result) == heater_fault(heater),
{
    if heater.element_watts == 0 {
        return Err(ConfigError::NoElementWatts);
    }

    if heater.element_watts > heater.circuit_max_watts {
        return Err(ConfigError::ElementAboveCircuit);
    }

    if heater.min_setpoint_celsius >= heater.max_setpoint_celsius {
        return Err(ConfigError::EmptySetpointRange);
    }

    if heater.default_setpoint_celsius < heater.min_setpoint_celsius
        || heater.default_setpoint_celsius > heater.max_setpoint_celsius {
        return Err(ConfigError::DefaultSetpointOutsideRange);
    }

    check_setpoint(SetpointKey::Min, heater.min_setpoint_celsius)?;
    check_setpoint(SetpointKey::Max, heater.max_setpoint_celsius)?;
    check_setpoint(SetpointKey::Default, heater.default_setpoint_celsius)?;

    match heater.metering_accuracy {
        Ok(_) => Ok(()),
        Err(fault) => Err(ConfigError::Accuracy { fault }),
    }
}

/// Check a whole configuration, stopping at the first thing wrong with it.
pub fn validate(config: &Config) -> (result: Result<(), ConfigError>)
    ensures
        complaint(result) == fault_of(config),
{
    validate_device(&config.device)?;
    validate_heater(&config.heater)?;

    if config.commissioning.discriminator > MAX_DISCRIMINATOR {
        return Err(ConfigError::DiscriminatorTooLarge);
    }

    validate_passcode(config.commissioning.passcode)
}

/// What a valid configuration settles, in the units the rest of the library works in.
#[derive(Clone, Copy, Debug, PartialEq, Eq, Structural)]
pub struct Settings {
    /// The element's configured rating, in watts: what a device with nothing stored
    /// meters at.
    pub element_watts: u32,
    /// The ceiling on any rating, in watts.
    pub circuit_max_watts: u32,
    /// The claimed accuracy of every reading, in hundredths of a percent.
    pub meter_accuracy: u16,
    /// `AbsMinHeatSetpointLimit`, in hundredths of a degree Celsius.
    pub abs_min_heat_setpoint: i16,
    /// `AbsMaxHeatSetpointLimit`, in hundredths of a degree Celsius.
    pub abs_max_heat_setpoint: i16,
    /// The setpoint a device with nothing to restore comes up with, in hundredths of a
    /// degree Celsius.
    pub default_heating_setpoint: i16,
    /// The commissioning passcode.
    pub passcode: u32,
    /// The 12-bit commissioning discriminator.
    pub discriminator: u16,
}

/// What a configuration settles.
pub open spec fn settings_of(config: &Config) -> Settings {
    Settings {
        element_watts: config.heater.element_watts,
        circuit_max_watts: config.heater.circuit_max_watts,
        meter_accuracy: config.heater.metering_accuracy->Ok_0,
        abs_min_heat_setpoint: centidegrees_of(config.heater.min_setpoint_celsius)->Some_0,
        abs_max_heat_setpoint: centidegrees_of(config.heater.max_setpoint_celsius)->Some_0,
        default_heating_setpoint: centidegrees_of(config.heater.default_setpoint_celsius)->Some_0,
        passcode: config.commissioning.passcode,
        discriminator: config.commissioning.discriminator,
    }
}

impl Settings {
    /// What every settled configuration satisfies.
    pub open spec fn wf(self) -> bool {
        &&& 1 <= self.element_watts <= self.circuit_max_watts
        &&& self.abs_min_heat_setpoint < self.abs_max_heat_setpoint
        &&& self.abs_min_heat_setpoint <= self.default_heating_setpoint
            <= self.abs_max_heat_setpoint
        &&& self.discriminator <= MAX_DISCRIMINATOR
        &&& self.passcode <= MAX_PASSCODE
    }

    /// The configured rating as the rating attribute serves it, if that many watts fit a
    /// `u16`.
    pub open spec fn configured_rating(self) -> Option<u16> {
        if self.element_watts <= u16::MAX {
            Some(self.element_watts as u16)
        } else {
            None
        }
    }

    /// Check a configuration and settle it. Every configuration that passes the check is
    /// settled.
    pub fn from_config(config: &Config) -> (settings: Result<Settings, ConfigError>)
        ensures
            match settings {
                Ok(settings) => fault_of(config) is None && settings == settings_of(config)
                    && settings.wf(),
                Err(error) => fault_of(config) == Some(error),
            },
    {
        validate(config)?;

        // Each of these was checked just now.
        Ok(
            Settings {
                element_watts: config.heater.element_watts,
                circuit_max_watts: config.heater.circuit_max_watts,
                meter_accuracy: config.heater.metering_accuracy.unwrap(),
                abs_min_heat_setpoint: centidegrees(config.heater.min_setpoint_celsius).unwrap(),
                abs_max_heat_setpoint: centidegrees(config.heater.max_setpoint_celsius).unwrap(),
                default_heating_setpoint: centidegrees(
                    config.heater.default_setpoint_celsius,
                ).unwrap(),
                passcode: config.commissioning.passcode,
                discriminator: config.commissioning.discriminator,
            },
        )
    }

    /// The rating a device with nothing stored meters at, in watts, or `None` if it is
    /// more than the rating attribute can serve.
    pub fn default_watts(&self) -> (watts: Option<u16>)
        ensures
            watts == self.configured_rating(),
    {
        if self.element_watts <= u16::MAX as u32 {
            Some(self.element_watts as u16)
        } else {
            None
        }
    }
}

impl DeviceConfig {
    /// The serial number every board built from this configuration reports, or `None` to
    /// derive each board's own from its factory MAC.
    pub fn serial_override(&self) -> (serial: Option<&str>)
        ensures
            match serial {
                Some(serial) => self.serial_number@.len() > 0 && serial@ == self.serial_number@,
                None => self.serial_number@.len() == 0,
            },
            forall|own: Seq<char>| #[trigger]
                self.served_serial(own) == match serial {
                    Some(serial) => serial@,
                    None => own,
                },
    {
        if self.serial_number.as_str().unicode_len() == 0 {
            None
        } else {
            Some(self.serial_number.as_str())
        }
    }

    /// The software version text: the configured one, or the package's own version.
    pub fn software_version_text(&self, package_version: &str) -> (text: String)
        ensures
            text@ == if self.software_version_string@.len() == 0 {
                package_version@
            } else {
                self.software_version_string@
            },
            text@ == self.served_version(package_version@),
    {
        if self.software_version_string.as_str().unicode_len() == 0 {
            package_version.to_owned()
        } else {
            self.software_version_string.as_str().to_owned()
        }
    }
}

/// What is settled is what was configured, each setting in its own unit: the passcode and the
/// discriminator as they are, the ratings as they are, the accuracy as it was converted, and
/// the setpoints in hundredths of the degrees they were given in.
pub proof fn law_settings_are_what_was_configured(config: &Config)
    requires
        fault_of(config) is None,
    ensures
        ({
            let settings = settings_of(config);
            &&& settings.passcode == config.commissioning.passcode
            &&& settings.discriminator == config.commissioning.discriminator
            &&& settings.element_watts == config.heater.element_watts
            &&& settings.circuit_max_watts == config.heater.circuit_max_watts
            &&& config.heater.metering_accuracy == Ok::<u16, AccuracyFault>(settings.meter_accuracy)
            &&& settings.abs_min_heat_setpoint == 100 * config.heater.min_setpoint_celsius
            &&& settings.abs_max_heat_setpoint == 100 * config.heater.max_setpoint_celsius
            &&& settings.default_heating_setpoint == 100 * config.heater.default_setpoint_celsius
        }),
{
}

/// No setting is lost or mixed up with another: two valid configurations settle to the same
/// value of a setting if and only if they agree in that setting.
pub proof fn law_settings_tell_configurations_apart(a: &Config, b: &Config)
    requires
        fault_of(a) is None,
        fault_of(b) is None,
    ensures
        ({
            let (x, y) = (settings_of(a), settings_of(b));
            &&& x.passcode == y.passcode <==> a.commissioning.passcode == b.commissioning.passcode
            &&& x.discriminator == y.discriminator <==> a.commissioning.discriminator
                == b.commissioning.discriminator
            &&& x.element_watts == y.element_watts <==> a.heater.element_watts
                == b.heater.element_watts
            &&& x.circuit_max_watts == y.circuit_max_watts <==> a.heater.circuit_max_watts
                == b.heater.circuit_max_watts
            &&& x.meter_accuracy == y.meter_accuracy <==> a.heater.metering_accuracy
                == b.heater.metering_accuracy
            &&& x.abs_min_heat_setpoint == y.abs_min_heat_setpoint
                <==> a.heater.min_setpoint_celsius == b.heater.min_setpoint_celsius
            &&& x.abs_max_heat_setpoint == y.abs_max_heat_setpoint
                <==> a.heater.max_setpoint_celsius == b.heater.max_setpoint_celsius
            &&& x.default_heating_setpoint == y.default_heating_setpoint
                <==> a.heater.default_setpoint_celsius == b.heater.default_setpoint_celsius
        }),
{
    law_settings_are_what_was_configured(a);
    law_settings_are_what_was_configured(b);
}

/// The configured rating is served as it is, as far as it fits the attribute.
pub proof fn law_configured_rating_is_served(settings: Settings)
    ensures
        settings.configured_rating() is Some <==> settings.element_watts <= 0xFFFF,
        settings.configured_rating() matches Some(watts) ==> watts == settings.element_watts,
{
}

/// The setpoints that can be served are those of up to 327 degC either way, and each is served
/// as a hundred hundredths to the degree.
pub proof fn law_degrees_are_settled_in_hundredths(celsius: i32)
    ensures
        centidegrees_of(celsius) is Some <==> -327 <= celsius <= 327,
        centidegrees_of(celsius) matches Some(centi) ==> centi == 100 * celsius,
{
}

/// A passcode is refused as forbidden if and only if it is one of the eight-digit ones with
/// all digits the same, or counts up or down, and as too large if and only if it is more than
/// the pairing code can encode.
pub proof fn law_guessable_passcodes_are_refused(passcode: u32, digit: u32)
    requires
        digit <= 9,
    ensures
        is_forbidden((11111111 * digit) as u32),
        is_forbidden(12345678),
        is_forbidden(87654321),
        is_forbidden(passcode) ==> passcode == 12345678 || passcode == 87654321 || (exists|d: int|
            0 <= d <= 9 && passcode == #[trigger] (11111111 * d)),
        passcode_fault(passcode) == Some(ConfigError::PasscodeTooLarge) <==> passcode > 99_999_998,
        passcode_fault(passcode) == Some(ConfigError::PasscodeForbidden) <==> passcode
            <= 99_999_998 && is_forbidden(passcode),
        passcode_fault(passcode) is None <==> passcode <= 99_999_998 && !is_forbidden(passcode),
{
    assert((11111111 * digit) % 11111111 == 0);
    if is_forbidden(passcode) && passcode != 12345678 && passcode != 87654321 {
        let d = passcode as int / 11111111;
        assert(passcode == 11111111 * d);
    }
}

/// A date is eight digits, read as a year of four, a month of two and a day of two, and the
/// day is one that the month has.
pub proof fn law_dates_are_read_digit_by_digit(text: Seq<char>)
    requires
        text.len() == 8,
        forall|i: int| 0 <= i < 8 ==> '0' <= #[trigger] text[i] && text[i] <= '9',
    ensures
        ({
            let digit = |i: int| text[i] as int - '0' as int;
            let year = 1000 * digit(0) + 100 * digit(1) + 10 * digit(2) + digit(3);
            let month = 10 * digit(4) + digit(5);
            let day = 10 * digit(6) + digit(7);
            is_date(text) <==> 1 <= month <= 12 && 1 <= day <= days_in(year, month)
        }),
{
    reveal_with_fuel(number, 5);
    let digit = |i: int| text[i] as int - '0' as int;
    assert(number(text.subrange(0, 4)) == 1000 * digit(0) + 100 * digit(1) + 10 * digit(2) + digit(
        3,
    ));
    assert(number(text.subrange(4, 6)) == 10 * digit(4) + digit(5));
    assert(number(text.subrange(6, 8)) == 10 * digit(6) + digit(7));
}

/// A text that is not eight decimal digits is no date.
pub proof fn law_dates_are_eight_digits(text: Seq<char>)
    ensures
        is_date(text) ==> text.len() == 8,
        is_date(text) ==> forall|i: int| 0 <= i < text.len() ==> digit_value(#[trigger] text[i])
            is Some,
{
}

/// The calendar: the months of a year that is no leap year add up to 365 days, a leap year
/// has one day more, in its February, and of four years in a row one is a leap year but for
/// the centuries, of which only every fourth is.
pub proof fn law_calendar_adds_up(year: int)
    ensures
        days_in(year, 1) + days_in(year, 2) + days_in(year, 3) + days_in(year, 4) + days_in(year, 5)
            + days_in(year, 6) + days_in(year, 7) + days_in(year, 8) + days_in(year, 9) + days_in(
            year,
            10,
        ) + days_in(year, 11) + days_in(year, 12) == if is_leap(year) {
            366int
        } else {
            365
        },
        days_in(year, 2) == 29 <==> is_leap(year),
        days_in(year, 2) == 28 <==> !is_leap(year),
        forall|month: int|
            #![trigger days_in(year, month)]
            1 <= month <= 12 && month != 2 ==> 30 <= days_in(year, month) <= 31 && (days_in(
                year,
                month,
            ) == 30 <==> month == 4 || month == 6 || month == 9 || month == 11),
        year % 4 != 0 ==> !is_leap(year),
        year % 4 == 0 && year % 100 != 0 ==> is_leap(year),
        is_leap(100 * year) <==> year % 4 == 0,
{
    assert(is_leap(100 * year) <==> year % 4 == 0) by {
        assert((100 * year) % 400 == 100 * (year % 4));
        assert((100 * year) % 4 == 0);
        assert((100 * year) % 100 == 0);
    }
}

/// What Basic Information allows: sixteen characters for the date, 64 for the label and the
/// two version texts, and 32 for every other text.
pub proof fn law_texts_have_their_limits(text: DeviceText)
    ensures
        max_len(text) == 16 <==> text == DeviceText::ManufacturingDate,
        max_len(text) == 64 <==> text == DeviceText::ProductLabel || text
            == DeviceText::HardwareVersionString || text == DeviceText::SoftwareVersionString,
        max_len(text) == 16 || max_len(text) == 32 || max_len(text) == 64,
{
}

/// What is complained about is wrong: every complaint names a rule that the configuration
/// breaks, with the figures that break it.
pub proof fn law_complaints_are_justified(config: &Config)
    ensures
        fault_of(config) matches Some(fault) ==> match fault {
            ConfigError::TooLong { text, len, max } => {
                &&& config.device.text(text).len() > max
                &&& max == max_len(text)
                &&& config.device.text(text).len() <= usize::MAX ==> len == config.device.text(
                    text,
                ).len()
            },
            ConfigError::NoName => config.device.vendor_name@.len() == 0
                || config.device.product_name@.len() == 0,
            ConfigError::NoDeviceName => config.device.device_name@.len() == 0,
            ConfigError::UniqueIdPrefixTooLong { len } => {
                &&& config.device.unique_id_prefix@.len() > 52
                &&& config.device.unique_id_prefix@.len() <= usize::MAX ==> len
                    == config.device.unique_id_prefix@.len()
            },
            ConfigError::NoDate => !is_date(config.device.manufacturing_date@),
            ConfigError::NoElementWatts => config.heater.element_watts == 0,
            ConfigError::ElementAboveCircuit => config.heater.element_watts
                > config.heater.circuit_max_watts,
            ConfigError::EmptySetpointRange => config.heater.min_setpoint_celsius
                >= config.heater.max_setpoint_celsius,
            ConfigError::DefaultSetpointOutsideRange => config.heater.default_setpoint_celsius
                < config.heater.min_setpoint_celsius || config.heater.default_setpoint_celsius
                > config.heater.max_setpoint_celsius,
            ConfigError::SetpointOutOfReach { key, celsius } => {
                &&& !(-327 <= celsius <= 327)
                &&& key == SetpointKey::Min ==> celsius == config.heater.min_setpoint_celsius
                &&& key == SetpointKey::Max ==> celsius == config.heater.max_setpoint_celsius
                &&& key == SetpointKey::Default ==> celsius
                    == config.heater.default_setpoint_celsius
            },
            ConfigError::Accuracy { fault } => config.heater.metering_accuracy == Err::<
                u16,
                AccuracyFault,
            >(fault),
            ConfigError::DiscriminatorTooLarge => config.commissioning.discriminator > 0xFFF,
            ConfigError::PasscodeTooLarge => config.commissioning.passcode > 99_999_998,
            ConfigError::PasscodeForbidden => is_forbidden(config.commissioning.passcode),
        },
{
}

/// Where a complaint stands in the order in which they are made.
pub open spec fn precedence(fault: ConfigError) -> int {
    match fault {
        ConfigError::TooLong { text, .. } => match text {
            DeviceText::VendorName => 0,
            DeviceText::ProductName => 1,
            DeviceText::ProductLabel => 2,
            DeviceText::PartNumber => 3,
            DeviceText::HardwareVersionString => 4,
            DeviceText::SoftwareVersionString => 5,
            DeviceText::ManufacturingDate => 6,
            DeviceText::SerialNumber => 7,
        },
        ConfigError::NoName => 8,
        ConfigError::NoDeviceName => 9,
        ConfigError::UniqueIdPrefixTooLong { .. } => 10,
        ConfigError::NoDate => 11,
        ConfigError::NoElementWatts => 12,
        ConfigError::ElementAboveCircuit => 13,
        ConfigError::EmptySetpointRange => 14,
        ConfigError::DefaultSetpointOutsideRange => 15,
        ConfigError::SetpointOutOfReach { key, .. } => match key {
            SetpointKey::Min => 16,
            SetpointKey::Max => 17,
            SetpointKey::Default => 18,
        },
        ConfigError::Accuracy { .. } => 19,
        ConfigError::DiscriminatorTooLarge => 20,
        ConfigError::PasscodeTooLarge => 21,
        ConfigError::PasscodeForbidden => 22,
    }
}

/// The first thing wrong is the one complained about: every rule that stands before it in the
/// order of checking is kept.
pub proof fn law_the_first_fault_is_reported(config: &Config)
    ensures
        fault_of(config) matches Some(fault) ==> {
            let n = precedence(fault);
            let (device, heater) = (config.device, config.heater);
            &&& n > 0 ==> device.vendor_name@.len() <= 32
            &&& n > 1 ==> device.product_name@.len() <= 32
            &&& n > 2 ==> device.product_label@.len() <= 64
            &&& n > 3 ==> device.part_number@.len() <= 32
            &&& n > 4 ==> device.hardware_version_string@.len() <= 64
            &&& n > 5 ==> device.software_version_string@.len() <= 64
            &&& n > 6 ==> device.manufacturing_date@.len() <= 16
            &&& n > 7 ==> device.serial_number@.len() <= 32
            &&& n > 8 ==> device.vendor_name@.len() > 0 && device.product_name@.len() > 0
            &&& n > 9 ==> device.device_name@.len() > 0
            &&& n > 10 ==> device.unique_id_prefix@.len() <= 52
            &&& n > 11 ==> is_date(device.manufacturing_date@)
            &&& n > 12 ==> heater.element_watts > 0
            &&& n > 13 ==> heater.element_watts <= heater.circuit_max_watts
            &&& n > 14 ==> heater.min_setpoint_celsius < heater.max_setpoint_celsius
            &&& n > 15 ==> heater.min_setpoint_celsius <= heater.default_setpoint_celsius
                <= heater.max_setpoint_celsius
            &&& n > 16 ==> -327 <= heater.min_setpoint_celsius <= 327
            &&& n > 17 ==> -327 <= heater.max_setpoint_celsius <= 327
            &&& n > 19 ==> heater.metering_accuracy is Ok
            &&& n > 20 ==> config.commissioning.discriminator <= 0xFFF
            &&& n > 21 ==> config.commissioning.passcode <= 99_999_998
        },
{
}

/// An empty text stands for the board's own: its serial number for the configured one, the
/// package's version for the software version. A text that is not empty stands for itself.
pub proof fn law_configured_texts_win(device: &DeviceConfig, own: Seq<char>, package: Seq<char>)
    ensures
        device.serial_number@ == Seq::<char>::empty() ==> device.served_serial(own) == own,
        device.serial_number@ != Seq::<char>::empty() ==> device.served_serial(own)
            == device.serial_number@,
        device.software_version_string@ == Seq::<char>::empty() ==> device.served_version(package)
            == package,
        device.software_version_string@ != Seq::<char>::empty() ==> device.served_version(package)
            == device.software_version_string@,
{
    if device.serial_number@.len() == 0 {
        assert(device.serial_number@ =~= Seq::<char>::empty());
    }
    if device.software_version_string@.len() == 0 {
        assert(device.software_version_string@ =~= Seq::<char>::empty());
    }
}

/// A configuration passes the check if and only if every rule holds of it: no rule is
/// left out because an earlier one was broken.
pub proof fn law_valid_means_every_rule_holds(config: &Config)
    ensures
        fault_of(config) is None <==> {
            &&& forall|text: DeviceText| #[trigger] config.device.fits(text)
            &&& config.device.vendor_name@.len() > 0
            &&& config.device.product_name@.len() > 0
            &&& config.device.device_name@.len() > 0
            &&& config.device.unique_id_prefix@.len() + MAC_DIGITS <= UNIQUE_ID_MAX
            &&& is_date(config.device.manufacturing_date@)
            &&& 0 < config.heater.element_watts <= config.heater.circuit_max_watts
            &&& config.heater.min_setpoint_celsius < config.heater.max_setpoint_celsius
            &&& config.heater.min_setpoint_celsius <= config.heater.default_setpoint_celsius
                <= config.heater.max_setpoint_celsius
            &&& centidegrees_of(config.heater.min_setpoint_celsius) is Some
            &&& centidegrees_of(config.heater.max_setpoint_celsius) is Some
            &&& config.heater.metering_accuracy is Ok
            &&& config.commissioning.discriminator <= MAX_DISCRIMINATOR
            &&& config.commissioning.passcode <= MAX_PASSCODE
            &&& !is_forbidden(config.commissioning.passcode)
        },
{
    let device = config.device;
    if forall|text: DeviceText| #[trigger] device.fits(text) {
        assert(device.fits(DeviceText::VendorName) && device.fits(DeviceText::ProductName));
        assert(device.fits(DeviceText::ProductLabel) && device.fits(DeviceText::PartNumber));
        assert(device.fits(DeviceText::HardwareVersionString));
        assert(device.fits(DeviceText::SoftwareVersionString));
        assert(device.fits(DeviceText::ManufacturingDate) && device.fits(DeviceText::SerialNumber));
    }
    if fault_of(config) is None {
        assert forall|text: DeviceText| #[trigger] device.fits(text) by {
            match text {
                DeviceText::VendorName => {},
                DeviceText::ProductName => {},
                DeviceText::ProductLabel => {},
                DeviceText::PartNumber => {},
                DeviceText::HardwareVersionString => {},
                DeviceText::SoftwareVersionString => {},
                DeviceText::ManufacturingDate => {},
                DeviceText::SerialNumber => {},
            }
        }
    }
}

} // verus!
