//! The chip's own reset machinery: why it last reset, the brownout detector, and a
//! watchdog.
//!
//! - [`boot_reason`] turns what the last reset left behind into the General Diagnostics
//!   boot reason, which [`crate::boot_diag`] serves.
//! - [`arm_brownout_reset`] is how the digital brownout detector is armed, so that a
//!   brownout is recorded as one and can be told apart from a power cycle.
//! - [`WATCHDOG_TIMEOUT_SECS`] and [`WATCHDOG_FEED_SECS`] are how a stalled executor, or
//!   a panic that halts it, ends in a reset.

use vstd::prelude::*;

verus! {

/// The brownout threshold. 7 is the *lowest* voltage on offer, an estimated 2.51 V; lower
/// numbers mean a higher threshold. A 3.3 V rail with any ripple at all would sit on
/// level 2 permanently and the board would never finish booting.
pub const BROWNOUT_LEVEL: u8 = 7;

/// How long the executor may go without feeding the watchdog before it resets the board,
/// in seconds. Far longer than anything the firmware legitimately blocks for.
pub const WATCHDOG_TIMEOUT_SECS: u64 = 20;

/// How often the watchdog is fed, in seconds. Anything well under the timeout will do.
pub const WATCHDOG_FEED_SECS: u64 = 1;

/// The bit of the `FIB_ENABLE` register that leaves the analog brownout reset to its
/// fuse-driven default.
pub const FIB_MODE1_BIT: u32 = 0b10;

/// The bits of the analog threshold register that hold the threshold.
pub const THRESHOLD_MASK: u8 = 0b111;

/// What the last reset left in the reset-reason register.
#[derive(Clone, Copy, Debug, PartialEq, Eq, Structural)]
pub enum ResetCause {
    /// Power-on. The bootloader's analog brownout reset leaves this as well.
    ChipPowerOn,
    /// Software reset of the digital core.
    CoreSw,
    /// Deep sleep reset of the digital core.
    CoreDeepSleep,
    /// SDIO reset of the digital core.
    CoreSdio,
    /// Main watchdog 0 reset of the digital core.
    CoreMwdt0,
    /// Main watchdog 1 reset of the digital core.
    CoreMwdt1,
    /// RTC watchdog reset of the digital core.
    CoreRtcWdt,
    /// Main watchdog 0 reset of the CPU.
    Cpu0Mwdt0,
    /// Software reset of the CPU.
    Cpu0Sw,
    /// RTC watchdog reset of the CPU.
    Cpu0RtcWdt,
    /// Brownout reset of the digital core and the RTC.
    SysBrownOut,
    /// RTC watchdog reset of the digital core and the RTC.
    SysRtcWdt,
    /// Main watchdog 1 reset of the CPU.
    Cpu0Mwdt1,
    /// Super watchdog reset of the digital core and the RTC.
    SysSuperWdt,
    /// Reset because the fuses fail their checksum.
    CoreEfuseCrc,
    /// Reset over the USB UART.
    CoreUsbUart,
    /// Reset over the USB JTAG.
    CoreUsbJtag,
    /// Reset of the CPU over JTAG.
    Cpu0JtagCpu,
}

/// Why the board booted, as General Diagnostics has it.
#[derive(Clone, Copy, Debug, PartialEq, Eq, Structural)]
pub enum BootReason {
    Unspecified,
    PowerOnReboot,
    BrownOutReset,
    SoftwareWatchdogReset,
    HardwareWatchdogReset,
    SoftwareUpdateCompleted,
    SoftwareReset,
}

impl BootReason {
    /// The value that stands for it.
    pub open spec fn value(self) -> u8 {
        match self {
            BootReason::Unspecified => 0,
            BootReason::PowerOnReboot => 1,
            BootReason::BrownOutReset => 2,
            BootReason::SoftwareWatchdogReset => 3,
            BootReason::HardwareWatchdogReset => 4,
            BootReason::SoftwareUpdateCompleted => 5,
            BootReason::SoftwareReset => 6,
        }
    }

    /// The value that stands for it over Matter.
    pub fn code(self) -> (code: u8)
        ensures
            code == self.value(),
    {
        match self {
            BootReason::Unspecified => 0,
            BootReason::PowerOnReboot => 1,
            BootReason::BrownOutReset => 2,
            BootReason::SoftwareWatchdogReset => 3,
            BootReason::HardwareWatchdogReset => 4,
            BootReason::SoftwareUpdateCompleted => 5,
            BootReason::SoftwareReset => 6,
        }
    }
}

impl ResetCause {
    /// The code the chip records it as.
    pub open spec fn value(self) -> u8 {
        match self {
            ResetCause::ChipPowerOn => 0x01,
            ResetCause::CoreSw => 0x03,
            ResetCause::CoreDeepSleep => 0x05,
            ResetCause::CoreSdio => 0x06,
            ResetCause::CoreMwdt0 => 0x07,
            ResetCause::CoreMwdt1 => 0x08,
            ResetCause::CoreRtcWdt => 0x09,
            ResetCause::Cpu0Mwdt0 => 0x0B,
            ResetCause::Cpu0Sw => 0x0C,
            ResetCause::Cpu0RtcWdt => 0x0D,
            ResetCause::SysBrownOut => 0x0F,
            ResetCause::SysRtcWdt => 0x10,
            ResetCause::Cpu0Mwdt1 => 0x11,
            ResetCause::SysSuperWdt => 0x12,
            ResetCause::CoreEfuseCrc => 0x14,
            ResetCause::CoreUsbUart => 0x15,
            ResetCause::CoreUsbJtag => 0x16,
            ResetCause::Cpu0JtagCpu => 0x18,
        }
    }

    /// Whether it is one of the chip's watchdogs, all of which are hardware timers.
    pub open spec fn is_watchdog(self) -> bool {
        match self {
            ResetCause::CoreMwdt0 => true,
            ResetCause::CoreMwdt1 => true,
            ResetCause::Cpu0Mwdt0 => true,
            ResetCause::Cpu0Mwdt1 => true,
            ResetCause::CoreRtcWdt => true,
            ResetCause::Cpu0RtcWdt => true,
            ResetCause::SysRtcWdt => true,
            ResetCause::SysSuperWdt => true,
            _ => false,
        }
    }
}

/// The code of a reset cause, `0` for none that is known.
pub open spec fn code_of(cause: Option<ResetCause>) -> u8 {
    match cause {
        Some(cause) => cause.value(),
        None => 0,
    }
}

/// The boot reason that a reset cause means.
pub open spec fn reason_of(cause: Option<ResetCause>) -> BootReason {
    match cause {
        Some(cause) => if cause == ResetCause::ChipPowerOn {
            BootReason::PowerOnReboot
        } else if cause == ResetCause::SysBrownOut {
            BootReason::BrownOutReset
        } else if cause.is_watchdog() {
            BootReason::HardwareWatchdogReset
        } else if cause == ResetCause::CoreSw || cause == ResetCause::Cpu0Sw {
            BootReason::SoftwareReset
        } else {
            BootReason::Unspecified
        },
        None => BootReason::Unspecified,
    }
}

/// The raw reset-reason code, `0` for none that is known.
///
/// Served beside [`boot_reason`] because the boot reason is coarser than the chip: it has
/// no way to say "USB-JTAG reset", and it folds the watchdogs and every software reset
/// together.
pub fn reset_cause_code(cause: Option<ResetCause>) -> (code: u8)
    ensures
        code == code_of(cause),
{
    let cause: ResetCause = match cause {
        Some(cause) => cause,
        None => {
            return 0;
        },
    };

    match cause {
        ResetCause::ChipPowerOn => 0x01,
        ResetCause::CoreSw => 0x03,
        ResetCause::CoreDeepSleep => 0x05,
        ResetCause::CoreSdio => 0x06,
        ResetCause::CoreMwdt0 => 0x07,
        ResetCause::CoreMwdt1 => 0x08,
        ResetCause::CoreRtcWdt => 0x09,
        ResetCause::Cpu0Mwdt0 => 0x0B,
        ResetCause::Cpu0Sw => 0x0C,
        ResetCause::Cpu0RtcWdt => 0x0D,
        ResetCause::SysBrownOut => 0x0F,
        ResetCause::SysRtcWdt => 0x10,
        ResetCause::Cpu0Mwdt1 => 0x11,
        ResetCause::SysSuperWdt => 0x12,
        ResetCause::CoreEfuseCrc => 0x14,
        ResetCause::CoreUsbUart => 0x15,
        ResetCause::CoreUsbJtag => 0x16,
        ResetCause::Cpu0JtagCpu => 0x18,
    }
}

/// The boot reason for a reset cause.
///
/// **A power-on is not proof of a power cycle.** The bootloader's analog brownout reset
/// leaves the same code, so a brownout deep enough, or fast enough, to trip it before the
/// digital detector does still reads as one.
pub fn boot_reason(cause: Option<ResetCause>) -> (reason: BootReason)
    ensures
        reason == reason_of(cause),
{
    match cause {
        Some(ResetCause::ChipPowerOn) => BootReason::PowerOnReboot,
        Some(ResetCause::SysBrownOut) => BootReason::BrownOutReset,
        Some(
            ResetCause::CoreMwdt0
            | ResetCause::CoreMwdt1
            | ResetCause::Cpu0Mwdt0
            | ResetCause::Cpu0Mwdt1
            | ResetCause::CoreRtcWdt
            | ResetCause::Cpu0RtcWdt
            | ResetCause::SysRtcWdt
            | ResetCause::SysSuperWdt,
        ) => BootReason::HardwareWatchdogReset,
        Some(ResetCause::CoreSw | ResetCause::Cpu0Sw) => BootReason::SoftwareReset,
        // USB resets are a flasher or a monitor resetting the board over the console; the
        // rest are rare enough to leave to the raw code.
        _ => BootReason::Unspecified,
    }
}

/// How far a brownout reset reaches.
#[derive(Clone, Copy, Debug, PartialEq, Eq, Structural)]
pub enum ResetLevel {
    /// The whole chip, which is recorded as a power-on.
    Chip,
    /// The digital system, RTC included, which is recorded as a brownout.
    System,
}

/// How the digital brownout detector is set up.
#[derive(Clone, Copy, Debug, PartialEq, Eq, Structural)]
pub struct DetectorConfig {
    /// How many cycles the supply has to stay low before the detector acts.
    pub intr_wait: u16,
    /// Suspend flash on detection.
    pub close_flash: bool,
    /// Power the RF down on detection, so that a sagging rail is not also driving the
    /// radio.
    pub power_down_rf: bool,
    /// How many cycles to wait before resetting.
    pub reset_wait: u16,
    /// Reset on detection.
    pub reset: bool,
    /// How far the reset reaches.
    pub level: ResetLevel,
}

/// One step in arming the digital brownout detector.
#[derive(Clone, Copy, Debug, PartialEq, Eq, Structural)]
pub enum BrownoutStep {
    /// Take the analog brownout reset away from its fuse-driven default: clear
    /// [`FIB_MODE1_BIT`] in `FIB_ENABLE`.
    TakeAnalogReset,
    /// Turn the analog brownout reset off.
    DisableAnalogReset,
    /// Set the detector up.
    Configure(DetectorConfig),
    /// Hold the detector's counter clear.
    ClearCounter,
    /// Let the detector's counter run.
    ReleaseCounter,
    /// Write the threshold.
    SetThreshold(u8),
    /// Turn the detector on.
    Enable,
}

/// How the detector is set up.
pub open spec fn detector_config() -> DetectorConfig {
    DetectorConfig {
        intr_wait: 2,
        close_flash: true,
        power_down_rf: true,
        reset_wait: 0x3ff,
        reset: true,
        level: ResetLevel::System,
    }
}

/// The steps that arm the digital brownout detector, in order.
pub open spec fn brownout_steps() -> Seq<BrownoutStep> {
    seq![
        BrownoutStep::TakeAnalogReset,
        BrownoutStep::DisableAnalogReset,
        BrownoutStep::Configure(detector_config()),
        BrownoutStep::ClearCounter,
        BrownoutStep::ReleaseCounter,
        BrownoutStep::SetThreshold(BROWNOUT_LEVEL),
        BrownoutStep::Enable,
    ]
}

/// The steps that arm the digital brownout detector to reset the whole digital system,
/// RTC included, when the supply drops below [`BROWNOUT_LEVEL`].
///
/// That includes turning the bootloader's analog reset *off*: it always has the highest
/// priority, and left on, it could win the race and record a brownout as a power-on.
///
/// To be performed once, early, before the radio is started: the threshold is written
/// over the analog bus that the radio also uses, and nothing else is running yet to
/// contend for it.
pub fn arm_brownout_reset() -> (steps: [BrownoutStep; 7])
    ensures
        steps@ == brownout_steps(),
{
    let steps: [BrownoutStep; 7] = [
        BrownoutStep::TakeAnalogReset,
        BrownoutStep::DisableAnalogReset,
        BrownoutStep::Configure(
            DetectorConfig {
                intr_wait: 2,
                close_flash: true,
                power_down_rf: true,
                reset_wait: 0x3ff,
                reset: true,
                level: ResetLevel::System,
            },
        ),
        BrownoutStep::ClearCounter,
        BrownoutStep::ReleaseCounter,
        BrownoutStep::SetThreshold(BROWNOUT_LEVEL),
        BrownoutStep::Enable,
    ];
    proof {
        assert(steps@ =~= brownout_steps());
    }

    steps
}

/// What `FIB_ENABLE` has to hold once the analog brownout reset has been taken away from
/// its fuse-driven default, given what it holds now: that one bit clear, and every other
/// as it was.
pub fn without_analog_reset(fib_enable: u32) -> (value: u32)
    ensures
        value == fib_enable & !FIB_MODE1_BIT,
        value / 4 == fib_enable / 4,
        value % 4 == fib_enable % 2,
{
    proof {
        assert((fib_enable & !0b10u32) / 4 == fib_enable / 4) by (bit_vector);
        assert((fib_enable & !0b10u32) % 4 == fib_enable % 2) by (bit_vector);
    }

    fib_enable & !FIB_MODE1_BIT
}

/// What the threshold register has to hold for a threshold of `level`, given what it
/// holds now. The threshold shares the register with another field, which is kept.
pub fn set_bod_threshold(register: u8, level: u8) -> (value: u8)
    ensures
        value % 8 == level % 8,
        value / 8 == register / 8,
{
    proof {
        assert(((register & !0b111u8) | (level & 0b111u8)) % 8 == level % 8) by (bit_vector);
        assert(((register & !0b111u8) | (level & 0b111u8)) / 8 == register / 8) by (bit_vector);
    }

    (register & !THRESHOLD_MASK) | (level & THRESHOLD_MASK)
}

/// Which of the analog bus master's two controllers serves the threshold register, given
/// the master's selection bit for its block.
pub fn serving_controller(selected: bool) -> (controller: usize)
    ensures
        controller == if selected {
            0usize
        } else {
            1
        },
{
    if selected {
        0
    } else {
        1
    }
}

/// The raw codes tell all causes apart, and `0` stands for none of them.
pub proof fn law_codes_tell_causes_apart(a: Option<ResetCause>, b: Option<ResetCause>)
    ensures
        code_of(a) == code_of(b) <==> a == b,
{
}

/// A brownout is told apart from a power-on, and a watchdog from both: each boot reason
/// that matters stems from its own causes alone.
pub proof fn law_brownouts_are_told_apart(cause: Option<ResetCause>)
    ensures
        reason_of(cause) == BootReason::BrownOutReset <==> cause == Some(ResetCause::SysBrownOut),
        reason_of(cause) == BootReason::PowerOnReboot <==> cause == Some(ResetCause::ChipPowerOn),
        reason_of(cause) == BootReason::HardwareWatchdogReset <==> (cause matches Some(cause)
            && cause.is_watchdog()),
        reason_of(cause) != BootReason::SoftwareWatchdogReset,
        reason_of(cause) != BootReason::SoftwareUpdateCompleted,
{
}

/// Every cause has its reason: the eight watchdogs are hardware watchdogs, the two software
/// resets are software resets, and what is neither of these, a power-on or a brownout is left
/// unspecified.
pub proof fn law_every_cause_has_its_reason(cause: ResetCause)
    ensures
        reason_of(Some(cause)) == BootReason::HardwareWatchdogReset <==> {
            ||| cause == ResetCause::CoreMwdt0
            ||| cause == ResetCause::CoreMwdt1
            ||| cause == ResetCause::Cpu0Mwdt0
            ||| cause == ResetCause::Cpu0Mwdt1
            ||| cause == ResetCause::CoreRtcWdt
            ||| cause == ResetCause::Cpu0RtcWdt
            ||| cause == ResetCause::SysRtcWdt
            ||| cause == ResetCause::SysSuperWdt
        },
        reason_of(Some(cause)) == BootReason::SoftwareReset <==> cause == ResetCause::CoreSw
            || cause == ResetCause::Cpu0Sw,
        reason_of(Some(cause)) == BootReason::Unspecified <==> {
            ||| cause == ResetCause::CoreDeepSleep
            ||| cause == ResetCause::CoreSdio
            ||| cause == ResetCause::CoreEfuseCrc
            ||| cause == ResetCause::CoreUsbUart
            ||| cause == ResetCause::CoreUsbJtag
            ||| cause == ResetCause::Cpu0JtagCpu
        },
        reason_of(None) == BootReason::Unspecified,
        code_of(None) == 0,
        code_of(Some(cause)) != 0,
{
}

/// The codes that a reader of the log goes by.
pub proof fn law_codes_are_the_chips(cause: ResetCause)
    ensures
        code_of(Some(cause)) == 0x01 <==> cause == ResetCause::ChipPowerOn,
        code_of(Some(cause)) == 0x03 <==> cause == ResetCause::CoreSw,
        code_of(Some(cause)) == 0x08 <==> cause == ResetCause::CoreMwdt1,
        code_of(Some(cause)) == 0x0F <==> cause == ResetCause::SysBrownOut,
        code_of(Some(cause)) == 0x15 <==> cause == ResetCause::CoreUsbUart,
        code_of(Some(cause)) == 0x16 <==> cause == ResetCause::CoreUsbJtag,
{
}

/// The values of the boot reasons tell them apart, and are their places in the standard's list.
pub proof fn law_reasons_are_told_apart(a: BootReason, b: BootReason)
    ensures
        a.value() == b.value() <==> a == b,
        a.value() <= 6,
        a.value() == 0 <==> a == BootReason::Unspecified,
        a.value() == 1 <==> a == BootReason::PowerOnReboot,
        a.value() == 2 <==> a == BootReason::BrownOutReset,
        a.value() == 3 <==> a == BootReason::SoftwareWatchdogReset,
        a.value() == 4 <==> a == BootReason::HardwareWatchdogReset,
        a.value() == 5 <==> a == BootReason::SoftwareUpdateCompleted,
{
}

/// A brownout resets the board and spares it: the detector resets, suspends flash and powers
/// the radio down, its counter is cleared and then released, the analog reset is taken over
/// before it is turned off, and the threshold is the lowest there is.
pub proof fn law_brownouts_reset_the_board(steps: Seq<BrownoutStep>)
    requires
        steps == brownout_steps(),
    ensures
        steps.len() == 7,
        steps[0] == BrownoutStep::TakeAnalogReset,
        steps[1] == BrownoutStep::DisableAnalogReset,
        steps[2] matches BrownoutStep::Configure(config) && config.reset && config.close_flash
            && config.power_down_rf && config.level == ResetLevel::System && config.intr_wait == 2
            && config.reset_wait == 0x3FF,
        steps[3] == BrownoutStep::ClearCounter,
        steps[4] == BrownoutStep::ReleaseCounter,
        steps[5] == BrownoutStep::SetThreshold(7),
        steps[6] == BrownoutStep::Enable,
{
}

/// By the time the detector is on, it is set up to record a brownout as one, its
/// threshold is written, and the analog reset can no longer beat it.
pub proof fn law_detector_is_enabled_last(steps: Seq<BrownoutStep>)
    requires
        steps == brownout_steps(),
    ensures
        steps.last() == BrownoutStep::Enable,
        forall|i: int| 0 <= i < steps.len() - 1 ==> steps[i] != BrownoutStep::Enable,
        steps.drop_last().contains(BrownoutStep::TakeAnalogReset),
        steps.drop_last().contains(BrownoutStep::DisableAnalogReset),
        steps.drop_last().contains(BrownoutStep::SetThreshold(BROWNOUT_LEVEL)),
        steps.drop_last().contains(BrownoutStep::Configure(detector_config())),
        detector_config().level == ResetLevel::System,
{
    let before = steps.drop_last();
    assert(before[0] == BrownoutStep::TakeAnalogReset);
    assert(before[1] == BrownoutStep::DisableAnalogReset);
    assert(before[2] == BrownoutStep::Configure(detector_config()));
    assert(before[5] == BrownoutStep::SetThreshold(BROWNOUT_LEVEL));
}

/// An executor that is not stalled feeds the watchdog well within its timeout.
pub proof fn law_watchdog_is_fed_in_time()
    ensures
        0 < WATCHDOG_FEED_SECS < WATCHDOG_TIMEOUT_SECS,
{
}

} // verus!
