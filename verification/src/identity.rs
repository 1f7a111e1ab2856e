//! The identity that has to differ from board to board, derived from the chip's factory
//! MAC.
//!
//! A controller that keys its own device records on the serial number folds two
//! physically different nodes into one device if they report the same one, so every board
//! derives its own. So is the Thread identity: this device persists its commissioning, and
//! has to come back with the same identity it went down with.

use vstd::prelude::*;
use vstd::string::*;

use crate::bytes::u32_to_le_bytes;
use crate::config::{DeviceConfig, Settings};
use crate::hex::hex;

verus! {

/// The unique ID of the board whose factory MAC is `mac`.
pub open spec fn unique_id_of(prefix: Seq<char>, mac: Seq<u8>) -> Seq<char> {
    prefix + crate::hex::hex_text(mac)
}

/// The identity strings of one board.
#[derive(Debug)]
pub struct DeviceIdentity {
    /// The factory MAC as twelve uppercase hex digits.
    pub serial_no: String,
    /// The serial number behind a configured prefix.
    ///
    /// Derived rather than minted at random and persisted: a value living in the
    /// key-value store would not survive the factory reset that a fixed value must.
    pub unique_id: String,
}

impl DeviceIdentity {
    /// The identity of the board whose factory MAC is `mac`.
    pub fn from_factory_mac(mac: &[u8; 6], unique_id_prefix: &str) -> (identity: Self)
        ensures
            identity.serial_no@ == crate::hex::hex_text(mac@),
            identity.unique_id@ == unique_id_prefix@ + crate::hex::hex_text(mac@),
            identity.unique_id@ == unique_id_of(unique_id_prefix@, mac@),
    {
        let serial_no: String = hex(mac);
        let mut unique_id: String = unique_id_prefix.to_owned();
        unique_id.append(serial_no.as_str());

        DeviceIdentity { serial_no, unique_id }
    }

    /// The MAC-derived serial number.
    pub fn serial_no(&self) -> (text: &str)
        ensures
            text@ == self.serial_no@,
    {
        self.serial_no.as_str()
    }

    /// The unique ID.
    pub fn unique_id(&self) -> (text: &str)
        ensures
            text@ == self.unique_id@,
    {
        self.unique_id.as_str()
    }

    /// The serial number the board reports: the configured one, if there is one, and the
    /// MAC-derived one otherwise. The unique ID never follows it.
    pub fn reported_serial_no<'a>(&'a self, device: &'a DeviceConfig) -> (text: &'a str)
        ensures
            text@ == if device.serial_number@.len() > 0 {
                device.serial_number@
            } else {
                self.serial_no@
            },
            text@ == device.served_serial(self.serial_no@),
    {
        match device.serial_override() {
            Some(serial) => serial,
            None => self.serial_no(),
        }
    }
}

/// How long a sleepy device may take to answer, in milliseconds, as it is advertised.
pub const SESSION_ACTIVE_INTERVAL_MS: u16 = 500;

/// What Basic Information serves, but for the vendor and product identifiers: those have
/// to agree with the device's attestation, and are not to be picked here.
#[derive(Debug)]
pub struct BasicInfo<'a> {
    pub vendor_name: &'a str,
    pub product_name: &'a str,
    pub product_label: &'a str,
    pub part_number: &'a str,
    pub hw_ver: u16,
    pub hw_ver_str: &'a str,
    pub sw_ver: u32,
    pub sw_ver_str: String,
    pub manufacturing_date: &'a str,
    pub device_name: &'a str,
    pub serial_no: &'a str,
    pub unique_id: &'a str,
    /// How long a sleepy device may take to answer, in milliseconds.
    pub sai: Option<u16>,
}

/// Whether `info` is what a board so configured serves.
pub open spec fn describes(
    info: BasicInfo<'_>,
    device: DeviceConfig,
    identity: DeviceIdentity,
    package_version: Seq<char>,
) -> bool {
    &&& info.vendor_name@ == device.vendor_name@
    &&& info.product_name@ == device.product_name@
    &&& info.product_label@ == device.product_label@
    &&& info.part_number@ == device.part_number@
    &&& info.hw_ver == device.hardware_version
    &&& info.hw_ver_str@ == device.hardware_version_string@
    &&& info.sw_ver == device.software_version
    &&& info.sw_ver_str@ == device.served_version(package_version)
    &&& info.manufacturing_date@ == device.manufacturing_date@
    &&& info.device_name@ == device.device_name@
    &&& info.serial_no@ == device.served_serial(identity.serial_no@)
    &&& info.unique_id@ == identity.unique_id@
    &&& info.sai == Some(SESSION_ACTIVE_INTERVAL_MS)
}

/// Basic info about a board: everything an owner might reasonably want to change comes
/// from the configuration, and the rest from the board's own identity.
pub fn dev_det<'a>(
    device: &'a DeviceConfig,
    identity: &'a DeviceIdentity,
    package_version: &str,
) -> (info: BasicInfo<'a>)
    ensures
        info.vendor_name@ == device.vendor_name@,
        info.product_name@ == device.product_name@,
        info.product_label@ == device.product_label@,
        info.part_number@ == device.part_number@,
        info.hw_ver == device.hardware_version,
        info.hw_ver_str@ == device.hardware_version_string@,
        info.sw_ver == device.software_version,
        info.sw_ver_str@ == if device.software_version_string@.len() == 0 {
            package_version@
        } else {
            device.software_version_string@
        },
        info.manufacturing_date@ == device.manufacturing_date@,
        info.device_name@ == device.device_name@,
        info.serial_no@ == if device.serial_number@.len() > 0 {
            device.serial_number@
        } else {
            identity.serial_no@
        },
        info.sw_ver_str@ == device.served_version(package_version@),
        info.serial_no@ == device.served_serial(identity.serial_no@),
        info.unique_id@ == identity.unique_id@,
        info.sai == Some(SESSION_ACTIVE_INTERVAL_MS),
        describes(info, *device, *identity, package_version@),
{
    BasicInfo {
        vendor_name: device.vendor_name.as_str(),
        product_name: device.product_name.as_str(),
        product_label: device.product_label.as_str(),
        part_number: device.part_number.as_str(),
        hw_ver: device.hardware_version,
        hw_ver_str: device.hardware_version_string.as_str(),
        sw_ver: device.software_version,
        sw_ver_str: device.software_version_text(package_version),
        manufacturing_date: device.manufacturing_date.as_str(),
        device_name: device.device_name.as_str(),
        serial_no: identity.reported_serial_no(device),
        unique_id: identity.unique_id(),
        sai: Some(SESSION_ACTIVE_INTERVAL_MS),
    }
}

/// What commissioning goes by: the passcode and the discriminator behind the pairing
/// codes printed at boot.
#[derive(Clone, Copy, Debug)]
pub struct CommData {
    /// The passcode, as four little-endian bytes.
    pub password: [u8; 4],
    /// The 12-bit discriminator.
    pub discriminator: u16,
}

/// Whether `comm` is what a board so configured commissions by.
pub open spec fn commissions_by(comm: CommData, settings: Settings) -> bool {
    &&& crate::bytes::le_u32(comm.password@) == settings.passcode
    &&& comm.discriminator == settings.discriminator
}

/// What the configured board commissions by. Giving a second board its own discriminator
/// is the point: two boards advertising the same one at the same time are genuinely
/// ambiguous to a commissioner.
pub fn dev_comm(settings: &Settings) -> (comm: CommData)
    ensures
        crate::bytes::le_u32(comm.password@) == settings.passcode,
        comm.discriminator == settings.discriminator,
        commissions_by(comm, *settings),
{
    CommData {
        password: u32_to_le_bytes(settings.passcode),
        discriminator: settings.discriminator,
    }
}

/// The extended address that a factory MAC is encapsulated in.
pub open spec fn eui64_of(mac: Seq<u8>) -> Seq<u8> {
    mac.take(3) + seq![0xffu8, 0xfe] + mac.skip(3)
}

/// Derive a stable IEEE 802.15.4 extended address from the chip's factory MAC.
///
/// The standard encapsulation: keep the three organisation bytes, insert `FF FE`, then the
/// three device bytes. The universal/local bit is deliberately *not* flipped: the address
/// is universally administered.
pub fn eui64_from_factory_mac(mac: &[u8; 6]) -> (eui64: [u8; 8])
    ensures
        eui64@ == eui64_of(mac@),
{
    let eui64: [u8; 8] = [mac[0], mac[1], mac[2], 0xff, 0xfe, mac[3], mac[4], mac[5]];
    proof {
        assert(eui64@ =~= eui64_of(mac@));
    }

    eui64
}

/// A board pairs by what was configured for it: the passcode and the discriminator that it
/// commissions by are those of its configuration, and two boards commission by the same ones
/// if and only if they were configured alike.
pub proof fn law_boards_pair_by_their_configuration(
    a: &crate::config::Config,
    b: &crate::config::Config,
    comm_a: CommData,
    comm_b: CommData,
)
    requires
        crate::config::fault_of(a) is None,
        crate::config::fault_of(b) is None,
        commissions_by(comm_a, crate::config::settings_of(a)),
        commissions_by(comm_b, crate::config::settings_of(b)),
    ensures
        comm_a.password@[0] + 256 * comm_a.password@[1] + 65536 * comm_a.password@[2] + 16777216
            * comm_a.password@[3] == a.commissioning.passcode,
        comm_a.discriminator == a.commissioning.discriminator,
        comm_a.password@ == comm_b.password@ <==> a.commissioning.passcode
            == b.commissioning.passcode,
        comm_a.discriminator == comm_b.discriminator <==> a.commissioning.discriminator
            == b.commissioning.discriminator,
{
    crate::bytes::law_low_byte_comes_first(comm_a.password@);
    if a.commissioning.passcode == b.commissioning.passcode {
        crate::bytes::law_le_u32_injective(comm_a.password@, comm_b.password@);
    }
}

/// The extended address is the factory MAC with `FF FE` in the middle, and the unique ID is the
/// prefix and then the serial number, each part as it is.
pub proof fn law_identity_holds_the_mac(mac: Seq<u8>, prefix: Seq<char>)
    requires
        mac.len() == 6,
    ensures
        eui64_of(mac) == seq![mac[0], mac[1], mac[2], 0xFF, 0xFE, mac[3], mac[4], mac[5]],
        unique_id_of(prefix, mac).take(prefix.len() as int) == prefix,
        unique_id_of(prefix, mac).skip(prefix.len() as int) == crate::hex::hex_text(mac),
{
    assert(eui64_of(mac) =~= seq![mac[0], mac[1], mac[2], 0xFF, 0xFE, mac[3], mac[4], mac[5]]);
    assert(unique_id_of(prefix, mac).take(prefix.len() as int) =~= prefix);
    assert(unique_id_of(prefix, mac).skip(prefix.len() as int) =~= crate::hex::hex_text(mac));
}

/// What is configured is what is served, each text in its own place: two boards serve the same
/// of a setting if and only if they were configured alike in it. Two boards that were given no
/// serial number serve different ones wherever their own differ, and the unique ID is the
/// board's own whatever was configured.
pub proof fn law_boards_serve_their_configuration(
    a: DeviceConfig,
    b: DeviceConfig,
    own_a: DeviceIdentity,
    own_b: DeviceIdentity,
    info_a: BasicInfo<'_>,
    info_b: BasicInfo<'_>,
    package_version: Seq<char>,
)
    requires
        describes(info_a, a, own_a, package_version),
        describes(info_b, b, own_b, package_version),
    ensures
        info_a.vendor_name@ == info_b.vendor_name@ <==> a.vendor_name@ == b.vendor_name@,
        info_a.product_name@ == info_b.product_name@ <==> a.product_name@ == b.product_name@,
        info_a.product_label@ == info_b.product_label@ <==> a.product_label@ == b.product_label@,
        info_a.part_number@ == info_b.part_number@ <==> a.part_number@ == b.part_number@,
        info_a.hw_ver == info_b.hw_ver <==> a.hardware_version == b.hardware_version,
        info_a.hw_ver_str@ == info_b.hw_ver_str@ <==> a.hardware_version_string@
            == b.hardware_version_string@,
        info_a.sw_ver == info_b.sw_ver <==> a.software_version == b.software_version,
        info_a.manufacturing_date@ == info_b.manufacturing_date@ <==> a.manufacturing_date@
            == b.manufacturing_date@,
        info_a.device_name@ == info_b.device_name@ <==> a.device_name@ == b.device_name@,
        info_a.unique_id@ == own_a.unique_id@,
        a.serial_number@.len() == 0 && b.serial_number@.len() == 0 ==> (info_a.serial_no@
            == info_b.serial_no@ <==> own_a.serial_no@ == own_b.serial_no@),
        a.serial_number@.len() > 0 ==> info_a.serial_no@ == a.serial_number@,
        a.software_version_string@.len() > 0 ==> info_a.sw_ver_str@ == a.software_version_string@,
        a.software_version_string@.len() == 0 ==> info_a.sw_ver_str@ == package_version,
{
}

/// No two boards share an identity: the serial number, the unique ID under one prefix and
/// the extended address each tell any two factory MACs apart.
pub proof fn law_identities_are_distinct(a: Seq<u8>, b: Seq<u8>, prefix: Seq<char>)
    requires
        a.len() == 6,
        b.len() == 6,
    ensures
        crate::hex::hex_text(a) == crate::hex::hex_text(b) <==> a == b,
        prefix + crate::hex::hex_text(a) == prefix + crate::hex::hex_text(b) <==> a == b,
        unique_id_of(prefix, a) == unique_id_of(prefix, b) <==> a == b,
        eui64_of(a) == eui64_of(b) <==> a == b,
{
    let (serial_a, serial_b) = (crate::hex::hex_text(a), crate::hex::hex_text(b));
    if serial_a == serial_b {
        crate::hex::law_hex_injective(a, b);
    }
    if prefix + serial_a == prefix + serial_b {
        assert((prefix + serial_a).skip(prefix.len() as int) =~= serial_a);
        assert((prefix + serial_b).skip(prefix.len() as int) =~= serial_b);
    }
    if eui64_of(a) == eui64_of(b) {
        let (eui_a, eui_b) = (eui64_of(a), eui64_of(b));
        assert forall|i: int| 0 <= i < 6 implies a[i] == b[i] by {
            if i < 3 {
                assert(eui_a[i] == a[i] && eui_b[i] == b[i]);
            } else {
                assert(eui_a[i + 2] == a[i] && eui_b[i + 2] == b[i]);
            }
        }
        assert(a =~= b);
    }
}

/// A configuration that passes the check makes no unique ID that is too long, and a
/// MAC-derived serial number keeps to its own limit.
pub proof fn law_identities_fit(mac: Seq<u8>, config: &crate::config::Config)
    requires
        mac.len() == 6,
        crate::config::fault_of(config) is None,
    ensures
        crate::hex::hex_text(mac).len() == crate::config::MAC_DIGITS,
        crate::hex::hex_text(mac).len() <= crate::config::max_len(
            crate::config::DeviceText::SerialNumber,
        ),
        (config.device.unique_id_prefix@ + crate::hex::hex_text(mac)).len()
            <= crate::config::UNIQUE_ID_MAX,
{
    crate::hex::law_hex_len(mac);
    crate::config::law_valid_means_every_rule_holds(config);
}

} // verus!
