//! The Thermostat cluster's device-specific half.
//!
//! There is no control loop here: the Mill's own microcontroller owns the sensor, the
//! triac and the hysteresis, so the cluster is a *view* of that controller plus a way to
//! make requests of it. A write arrives as [`ThermostatDeviceLogic::apply`] and is turned
//! into command frames; everything the attributes report comes back from the status
//! stream in [`ThermostatDeviceLogic::report`].
//!
//! **The Mill wins.** A setpoint or mode that arrives from the heater and was not asked
//! for is a front-panel change, and is adopted into the cluster attributes. That includes
//! the first status frame after boot.
//!
//! **Whole degrees, on the wire only.** The command frame carries a written setpoint
//! rounded to the nearest whole degree - but the attribute keeps exactly what was
//! written. A controller that writes 21.50degC reads back 21.50degC while the heater runs
//! at 22. For the same reason a status frame only counts as a front-panel change when its
//! whole degree differs from the attribute's rounding.

use vstd::prelude::*;

use crate::clock::uptime_ms;
use crate::config::Settings;
use crate::heater::{Changed, HeaterState, MillHeater};
use crate::mill::COMMAND_LEN;
use crate::vendor_kv::{load_blob, VendorSlot};

verus! {

/// How long a command frame is given to show up in the status stream before the Mill's
/// own report is believed over it, in milliseconds.
///
/// Until this expires, a status frame that disagrees is assumed to have crossed the
/// command on the wire rather than to have overruled it.
pub const COMMAND_GRACE_MS: u64 = 15_000;

/// The relay bit for heating, in the cluster's running state.
pub const RELAY_HEAT: u16 = 0x0001;

/// The cluster's `SystemMode`.
#[derive(Clone, Copy, Debug, PartialEq, Eq, Structural)]
pub enum SystemMode {
    Off,
    Auto,
    Cool,
    Heat,
    EmergencyHeat,
    Precooling,
    FanOnly,
    Dry,
    Sleep,
}

/// What the cluster handler is told behind the cluster's back.
#[derive(Clone, Copy, Debug, PartialEq, Eq, Structural)]
pub enum Notification {
    /// The local temperature moved.
    LocalTemperature,
    /// The Mill switched its element.
    RunningState,
    /// The Mill's setpoint moved on its own, to this many hundredths of a degree.
    OccupiedHeatingSetpoint(i16),
    /// The Mill's power state changed on its own.
    SystemMode(SystemMode),
}

/// What weighing the setpoint the Mill reports came to.
#[derive(Clone, Copy, Debug, PartialEq, Eq, Structural)]
pub struct SetpointSync {
    /// The setpoint that was adopted, in hundredths of a degree.
    pub adopted: Option<i16>,
    /// The setpoint command, in whole degC, that the Mill did not take up in time.
    pub given_up: Option<u8>,
}

/// What weighing the power state the Mill reports came to.
#[derive(Clone, Copy, Debug, PartialEq, Eq, Structural)]
pub struct ModeSync {
    /// The mode that was adopted.
    pub adopted: Option<SystemMode>,
    /// The power command that the Mill did not take up in time.
    pub given_up: Option<bool>,
}

/// What there is to report once a status frame has arrived, or has failed to.
#[derive(Debug)]
pub struct Report {
    /// What the cluster handler is told, in order.
    pub told: Vec<Notification>,
    /// The setpoint command, in whole degC, that the Mill did not take up in time.
    pub setpoint_given_up: Option<u8>,
    /// The power command that the Mill did not take up in time.
    pub mode_given_up: Option<bool>,
}

/// What the thermostat's loop waited for.
#[derive(Clone, Copy, Debug, PartialEq, Eq, Structural)]
pub enum Event {
    /// A status frame arrived, and moved this.
    Status(Changed),
    /// No status frame arrived in time.
    Silence,
}

/// A heating-only thermostat that fronts a [`MillHeater`].
#[derive(Clone, Copy, Debug)]
pub struct ThermostatDeviceLogic {
    /// `OccupiedHeatingSetpoint` as last known here: pushed by the handler, or adopted
    /// from the Mill and reported to the handler. In hundredths of a degree.
    pub setpoint: i16,
    /// `SystemMode`, likewise.
    pub system_mode: SystemMode,
    /// Whether the handler has pushed anything yet. It does so once at startup, before
    /// anything can have been written and before the Mill has been heard from; that must
    /// not reach a heater that may have been turned up by hand in the meantime.
    pub applied: bool,
    /// A setpoint command in whole degC awaiting confirmation, and when it was sent in
    /// milliseconds since boot.
    pub pending_setpoint: Option<(u8, u64)>,
    /// A power command awaiting confirmation, likewise.
    pub pending_mode: Option<(bool, u64)>,
}

/// A temperature in hundredths of a degree, rounded to the nearest of the whole degrees
/// that the Mill's wire format can carry; halves go up.
pub open spec fn nearest_degree(centi: i16) -> u8 {
    let degrees = (centi + 50) / 100;
    if degrees < 0 {
        0
    } else if degrees > 255 {
        255
    } else {
        degrees as u8
    }
}

/// Round a temperature in 0.01degC to the whole degrees the Mill's wire format carries.
pub fn whole_degrees(centi: i16) -> (degrees: u8)
    ensures
        degrees == nearest_degree(centi),
{
    let shifted: i32 = centi as i32 + 50;

    if shifted < 0 {
        0
    } else if shifted / 100 > 255 {
        255
    } else {
        (shifted / 100) as u8
    }
}

/// The mode that a power state is.
pub open spec fn mode_of(heat: bool) -> SystemMode {
    if heat {
        SystemMode::Heat
    } else {
        SystemMode::Off
    }
}

/// The key to remove, given what is found under the one that older firmware used.
pub open spec fn left_behind(legacy: Option<Seq<u8>>) -> Option<VendorSlot> {
    match legacy {
        Some(_) => Some(VendorSlot::LegacyThermostatState),
        None => None,
    }
}

/// The relays that are energised.
pub open spec fn relays_of(heater: HeaterState) -> u16 {
    if heater.element_on {
        RELAY_HEAT
    } else {
        0
    }
}

/// Whether a command that was sent at `sent_ms` may still be on its way.
pub open spec fn in_flight(sent_ms: u64, now_ms: u64) -> bool {
    crate::heater::elapsed(sent_ms, now_ms) < COMMAND_GRACE_MS
}

impl ThermostatDeviceLogic {
    /// A thermostat with nothing pushed to it yet.
    pub open spec fn at_startup(settings: Settings) -> Self {
        ThermostatDeviceLogic {
            setpoint: settings.default_heating_setpoint,
            system_mode: SystemMode::Off,
            applied: false,
            pending_setpoint: None,
            pending_mode: None,
        }
    }

    /// Whether the heater is already asked for, or already runs at, `celsius`.
    ///
    /// An outstanding command always wins over what the heater last reported: it may not
    /// have been taken up yet.
    pub open spec fn agrees_on_setpoint(self, heater: HeaterState, celsius: u8) -> bool {
        match self.pending_setpoint {
            Some((pending, _)) => pending == celsius,
            None => heater.setpoint_c == Some(celsius),
        }
    }

    /// Whether the heater is already asked for, or already in, a power state.
    pub open spec fn agrees_on_mode(self, heater: HeaterState, heat: bool) -> bool {
        match self.pending_mode {
            Some((pending, _)) => pending == heat,
            None => heater.heat_mode == Some(heat),
        }
    }

    /// The frames that ask for whatever the heater does not already agree with, in the
    /// order in which they are sent.
    pub open spec fn requests(self, heater: HeaterState, heat: bool, celsius: u8) -> Seq<Seq<u8>> {
        let setpoint = if self.agrees_on_setpoint(heater, celsius) {
            Seq::empty()
        } else {
            seq![crate::mill::framed(crate::mill::setpoint_payload(celsius))]
        };
        let power = if self.agrees_on_mode(heater, heat) {
            Seq::empty()
        } else {
            seq![crate::mill::framed(crate::mill::power_payload(heat))]
        };
        setpoint + power
    }

    /// The thermostat once those frames have been sent at `now_ms`.
    pub open spec fn requested(
        self,
        heater: HeaterState,
        heat: bool,
        celsius: u8,
        now_ms: u64,
    ) -> Self {
        ThermostatDeviceLogic {
            pending_setpoint: if self.agrees_on_setpoint(heater, celsius) {
                self.pending_setpoint
            } else {
                Some((celsius, now_ms))
            },
            pending_mode: if self.agrees_on_mode(heater, heat) {
                self.pending_mode
            } else {
                Some((heat, now_ms))
            },
            ..self
        }
    }

    /// The thermostat once the handler has pushed a mode and a setpoint.
    pub open spec fn pushed(self, mode: SystemMode, setpoint: i16) -> Self {
        ThermostatDeviceLogic { system_mode: mode, setpoint, applied: true, ..self }
    }

    /// The thermostat once the setpoint the Mill reports has been weighed at `now_ms`,
    /// and the setpoint that was adopted, if one was.
    pub open spec fn setpoint_synced(
        self,
        heater: HeaterState,
        now_ms: u64,
    ) -> (Self, Option<i16>) {
        match heater.setpoint_c {
            None => (self, None),
            Some(reported) => {
                let crossed = match self.pending_setpoint {
                    Some((pending, sent_ms)) => pending != reported && in_flight(sent_ms, now_ms),
                    None => false,
                };
                if crossed {
                    (self, None)
                } else {
                    let settled = ThermostatDeviceLogic { pending_setpoint: None, ..self };
                    if reported == nearest_degree(self.setpoint) {
                        (settled, None)
                    } else {
                        let setpoint = (reported * 100) as i16;
                        (ThermostatDeviceLogic { setpoint, ..settled }, Some(setpoint))
                    }
                }
            },
        }
    }

    /// The thermostat once the power state the Mill reports has been weighed at `now_ms`,
    /// and the mode that was adopted, if one was.
    pub open spec fn mode_synced(
        self,
        heater: HeaterState,
        now_ms: u64,
    ) -> (Self, Option<SystemMode>) {
        match heater.heat_mode {
            None => (self, None),
            Some(reported) => {
                let crossed = match self.pending_mode {
                    Some((pending, sent_ms)) => pending != reported && in_flight(sent_ms, now_ms),
                    None => false,
                };
                if crossed {
                    (self, None)
                } else {
                    let settled = ThermostatDeviceLogic { pending_mode: None, ..self };
                    if mode_of(reported) == self.system_mode {
                        (settled, None)
                    } else {
                        (
                            ThermostatDeviceLogic { system_mode: mode_of(reported), ..settled },
                            Some(mode_of(reported)),
                        )
                    }
                }
            },
        }
    }

    /// The setpoint command that is given up on as the setpoint the Mill reports is
    /// weighed at `now_ms`: one it disagrees with, and that is no longer on its way.
    pub open spec fn setpoint_given_up(self, heater: HeaterState, now_ms: u64) -> Option<u8> {
        match (self.pending_setpoint, heater.setpoint_c) {
            (Some((pending, sent_ms)), Some(reported)) => if pending != reported && !in_flight(
                sent_ms,
                now_ms,
            ) {
                Some(pending)
            } else {
                None
            },
            _ => None,
        }
    }

    /// The power command that is given up on, likewise.
    pub open spec fn mode_given_up(self, heater: HeaterState, now_ms: u64) -> Option<bool> {
        match (self.pending_mode, heater.heat_mode) {
            (Some((pending, sent_ms)), Some(reported)) => if pending != reported && !in_flight(
                sent_ms,
                now_ms,
            ) {
                Some(pending)
            } else {
                None
            },
            _ => None,
        }
    }

    /// Whether reporting on a status frame leaves `after` behind and comes to `report`.
    pub open spec fn reports_to(
        self,
        after: Self,
        report: Report,
        heater: HeaterState,
        changed: Changed,
        setpoint_ms: u64,
        mode_ms: u64,
    ) -> bool {
        &&& (after, report.told@) == self.reported(heater, changed, setpoint_ms, mode_ms)
        &&& report.setpoint_given_up == self.setpoint_given_up(heater, setpoint_ms)
        &&& report.mode_given_up == self.mode_given_up(heater, mode_ms)
    }

    /// The thermostat once a status frame has been reported on, and what the handler is
    /// told, in order.
    pub open spec fn reported(
        self,
        heater: HeaterState,
        changed: Changed,
        setpoint_ms: u64,
        mode_ms: u64,
    ) -> (Self, Seq<Notification>) {
        let room = if changed.room {
            seq![Notification::LocalTemperature]
        } else {
            Seq::empty()
        };
        let element = if changed.element {
            seq![Notification::RunningState]
        } else {
            Seq::empty()
        };
        let (first, setpoint) = self.setpoint_synced(heater, setpoint_ms);
        let (second, mode) = first.mode_synced(heater, mode_ms);
        let setpoint = match setpoint {
            Some(setpoint) => seq![Notification::OccupiedHeatingSetpoint(setpoint)],
            None => Seq::empty(),
        };
        let mode = match mode {
            Some(mode) => seq![Notification::SystemMode(mode)],
            None => Seq::empty(),
        };
        (second, room + element + setpoint + mode)
    }
}

/// Frames as sequences of bytes.
pub open spec fn frames_of(frames: Seq<[u8; COMMAND_LEN]>) -> Seq<Seq<u8>> {
    frames.map_values(|frame: [u8; COMMAND_LEN]| frame@)
}

/// How long ago `since_ms` was, by a clock that reads `now_ms`.
fn elapsed_ms(since_ms: u64, now_ms: u64) -> (ms: u64)
    ensures
        ms == crate::heater::elapsed(since_ms, now_ms),
{
    now_ms.saturating_sub(since_ms)
}

impl ThermostatDeviceLogic {
    /// A thermostat with nothing pushed to it yet, and the key to remove, if older
    /// firmware left its state behind under it.
    ///
    /// That state is not migrated: the setpoint and the mode are adopted from the Mill's
    /// first status frame anyway.
    pub fn new(settings: &Settings, legacy: Option<&[u8]>) -> (made: (Self, Option<VendorSlot>))
        ensures
            made.0 == (ThermostatDeviceLogic {
                setpoint: settings.default_heating_setpoint,
                system_mode: SystemMode::Off,
                applied: false,
                pending_setpoint: None,
                pending_mode: None,
            }),
            made.0 == ThermostatDeviceLogic::at_startup(*settings),
            made.1 == if legacy is Some {
                Some(VendorSlot::LegacyThermostatState)
            } else {
                None
            },
            made.1 == left_behind(crate::heater::opt_view(legacy)),
    {
        let mut probe: [u8; 1] = [0u8; 1];
        let stale: Option<VendorSlot> = if load_blob(legacy, &mut probe).is_some() {
            Some(VendorSlot::LegacyThermostatState)
        } else {
            None
        };

        (
            ThermostatDeviceLogic {
                setpoint: settings.default_heating_setpoint,
                system_mode: SystemMode::Off,
                applied: false,
                pending_setpoint: None,
                pending_mode: None,
            },
            stale,
        )
    }

    /// The frames that ask for whatever the Mill is not already doing.
    ///
    /// Suppressing a command the heater already agrees with keeps a busy controller from
    /// filling the UART with no-ops.
    pub fn command(
        &mut self,
        heater: &MillHeater,
        system_mode: SystemMode,
        setpoint_c: u8,
        now_ms: u64,
    ) -> (frames: Vec<[u8; COMMAND_LEN]>)
        ensures
            *final(self) == old(self).requested(
                heater@.state,
                system_mode == SystemMode::Heat,
                setpoint_c,
                now_ms,
            ),
            frames_of(frames@) == old(self).requests(
                heater@.state,
                system_mode == SystemMode::Heat,
                setpoint_c,
            ),
    {
        let mut frames: Vec<[u8; COMMAND_LEN]> = Vec::new();
        let agreed: bool = match self.pending_setpoint {
            Some((pending, _)) => pending == setpoint_c,
            None => match heater.reported_setpoint() {
                Some(reported) => reported == setpoint_c as i16 * 100,
                None => false,
            },
        };

        if !agreed {
            frames.push(heater.request_setpoint(setpoint_c));
            self.pending_setpoint = Some((setpoint_c, now_ms));
        }
        let heat: bool = match system_mode {
            SystemMode::Heat => true,
            _ => false,
        };
        let agreed: bool = match self.pending_mode {
            Some((pending, _)) => pending == heat,
            None => match heater.reported_heat_mode() {
                Some(reported) => reported == heat,
                None => false,
            },
        };

        if !agreed {
            frames.push(heater.request_power(heat));
            self.pending_mode = Some((heat, now_ms));
        }
        proof {
            assert(frames_of(frames@) =~= old(self).requests(heater@.state, heat, setpoint_c));
        }

        frames
    }

    /// Adopt the setpoint the Mill reports, unless a command of ours is still in flight.
    ///
    /// The handler may clamp what it is told into its limits; comparing against the copy
    /// kept here rather than the attribute keeps a heater set outside those limits from
    /// being re-reported on every frame.
    pub fn sync_setpoint(&mut self, heater: &MillHeater, now_ms: u64) -> (sync: SetpointSync)
        ensures
            (*final(self), sync.adopted) == old(self).setpoint_synced(heater@.state, now_ms),
            sync.given_up == old(self).setpoint_given_up(heater@.state, now_ms),
    {
        let reported: i16 = match heater.reported_setpoint() {
            Some(reported) => reported,
            None => {
                return SetpointSync { adopted: None, given_up: None };
            },
        };
        let reported_c: u8 = whole_degrees(reported);
        let mut given_up: Option<u8> = None;

        if let Some((pending, sent_ms)) = self.pending_setpoint {
            if pending != reported_c {
                if elapsed_ms(sent_ms, now_ms) < COMMAND_GRACE_MS {
                    // Sent, not yet reflected: this frame was already on its way.
                    return SetpointSync { adopted: None, given_up: None };
                }
                given_up = Some(pending);
            }
            self.pending_setpoint = None;
        }

        if reported_c == whole_degrees(self.setpoint) {
            return SetpointSync { adopted: None, given_up };
        }
        self.setpoint = reported;

        SetpointSync { adopted: Some(reported), given_up }
    }

    /// Adopt the power state the Mill reports, unless a command of ours is still in
    /// flight.
    pub fn sync_mode(&mut self, heater: &MillHeater, now_ms: u64) -> (sync: ModeSync)
        ensures
            (*final(self), sync.adopted) == old(self).mode_synced(heater@.state, now_ms),
            sync.given_up == old(self).mode_given_up(heater@.state, now_ms),
    {
        let reported: bool = match heater.reported_heat_mode() {
            Some(reported) => reported,
            None => {
                return ModeSync { adopted: None, given_up: None };
            },
        };
        let mut given_up: Option<bool> = None;

        if let Some((pending, sent_ms)) = self.pending_mode {
            if pending != reported {
                if elapsed_ms(sent_ms, now_ms) < COMMAND_GRACE_MS {
                    return ModeSync { adopted: None, given_up: None };
                }
                given_up = Some(pending);
            }
            self.pending_mode = None;
        }
        let mode: SystemMode = if reported {
            SystemMode::Heat
        } else {
            SystemMode::Off
        };

        if mode == self.system_mode {
            return ModeSync { adopted: None, given_up };
        }
        self.system_mode = mode;

        ModeSync { adopted: Some(mode), given_up }
    }

    /// Re-report whatever a status frame - or the silence that expired one - moved.
    ///
    /// The setpoint and the mode are weighed every time, not only when this frame moved
    /// them: a command the Mill never took up shows as a *disagreement* that persists
    /// across frames.
    pub fn report(&mut self, heater: &MillHeater, changed: Changed) -> (report: Report)
        ensures
            exists|setpoint_ms: u64, mode_ms: u64|
                #[trigger] old(self).reports_to(
                    *final(self),
                    report,
                    heater@.state,
                    changed,
                    setpoint_ms,
                    mode_ms,
                ),
    {
        let setpoint_ms: u64 = uptime_ms();
        let mode_ms: u64 = uptime_ms();

        self.report_at(heater, changed, setpoint_ms, mode_ms)
    }

    /// [`Self::report`], with the setpoint weighed at `setpoint_ms` and the mode at
    /// `mode_ms`.
    pub fn report_at(
        &mut self,
        heater: &MillHeater,
        changed: Changed,
        setpoint_ms: u64,
        mode_ms: u64,
    ) -> (report: Report)
        ensures
            old(self).reports_to(
                *final(self),
                report,
                heater@.state,
                changed,
                setpoint_ms,
                mode_ms,
            ),
    {
        let mut told: Vec<Notification> = Vec::new();

        if changed.room {
            told.push(Notification::LocalTemperature);
        }

        if changed.element {
            told.push(Notification::RunningState);
        }

        let setpoint: SetpointSync = self.sync_setpoint(heater, setpoint_ms);

        if let Some(adopted) = setpoint.adopted {
            told.push(Notification::OccupiedHeatingSetpoint(adopted));
        }
        let mode: ModeSync = self.sync_mode(heater, mode_ms);

        if let Some(adopted) = mode.adopted {
            told.push(Notification::SystemMode(adopted));
        }
        proof {
            assert(told@ =~= old(self).reported(heater@.state, changed, setpoint_ms, mode_ms).1);
        }

        Report { told, setpoint_given_up: setpoint.given_up, mode_given_up: mode.given_up }
    }

    /// What there is to report once a status frame has arrived, or has failed to: silence
    /// invalidates everything the Mill last said.
    ///
    /// The setpoint and mode attributes keep their last values through a silence: they
    /// are cluster state, not sensor readings that can go null.
    pub fn handle(&mut self, heater: &mut MillHeater, event: Event) -> (report: Report)
        ensures
            exists|silence_ms: u64, setpoint_ms: u64, mode_ms: u64|
                #[trigger] old(self).handled(
                    *final(self),
                    old(heater)@,
                    final(heater)@,
                    event,
                    report,
                    silence_ms,
                    setpoint_ms,
                    mode_ms,
                ),
    {
        let silence_ms: u64 = uptime_ms();
        let setpoint_ms: u64 = uptime_ms();
        let mode_ms: u64 = uptime_ms();

        self.handle_at(heater, event, silence_ms, setpoint_ms, mode_ms)
    }

    /// [`Self::handle`], with a silence taking effect at `silence_ms`.
    pub fn handle_at(
        &mut self,
        heater: &mut MillHeater,
        event: Event,
        silence_ms: u64,
        setpoint_ms: u64,
        mode_ms: u64,
    ) -> (report: Report)
        ensures
            old(self).handled(
                *final(self),
                old(heater)@,
                final(heater)@,
                event,
                report,
                silence_ms,
                setpoint_ms,
                mode_ms,
            ),
    {
        let changed: Changed = match event {
            Event::Status(changed) => changed,
            Event::Silence => heater.forget_at(silence_ms),
        };

        self.report_at(heater, changed, setpoint_ms, mode_ms)
    }

    /// Whether handling `event` leaves `after` and `heater_after` behind and comes to
    /// `report`.
    pub open spec fn handled(
        self,
        after: Self,
        heater: crate::heater::Link,
        heater_after: crate::heater::Link,
        event: Event,
        report: Report,
        silence_ms: u64,
        setpoint_ms: u64,
        mode_ms: u64,
    ) -> bool {
        match event {
            Event::Status(changed) => {
                &&& heater_after == heater
                &&& self.reports_to(after, report, heater.state, changed, setpoint_ms, mode_ms)
            },
            Event::Silence => {
                &&& heater_after.phase == heater.phase
                &&& heater_after.state == heater.state.forgotten(silence_ms)
                &&& self.reports_to(
                    after,
                    report,
                    heater_after.state,
                    heater.state.lost(),
                    setpoint_ms,
                    mode_ms,
                )
            },
        }
    }

    /// `None` - reported as null - until the Mill has been heard from, and again if it
    /// goes quiet. There is no sensor on this side of the UART to fall back on.
    pub fn local_temperature(&self, heater: &MillHeater) -> (centi: Option<i16>)
        ensures
            centi == crate::heater::centidegrees_of(heater@.state.room_c),
    {
        heater.room_temperature()
    }

    /// The heater is a single-stage heater with no fan, so the only relay it can ever
    /// have energised is the one for heating - and it is the Mill that energises it.
    pub fn running_state(&self, heater: &MillHeater) -> (relays: u16)
        ensures
            relays == if heater@.state.element_on {
                RELAY_HEAT
            } else {
                0
            },
            relays == relays_of(heater@.state),
    {
        if heater.heating() {
            RELAY_HEAT
        } else {
            0
        }
    }

    /// Take in the mode and the heating setpoint that the handler pushes, returning the
    /// frames to send.
    ///
    /// The first push is the one at startup: nothing has been written yet and the Mill
    /// has not been heard from, so there is nothing to send - and sending the restored
    /// state would overwrite a setpoint somebody turned up by hand while this board was
    /// rebooting.
    pub fn apply(
        &mut self,
        heater: &MillHeater,
        system_mode: SystemMode,
        heating_setpoint: i16,
    ) -> (frames: Vec<[u8; COMMAND_LEN]>)
        ensures
            exists|now_ms: u64|
                (*final(self), frames_of(frames@)) == #[trigger] old(self).applied_to(
                    heater@.state,
                    system_mode,
                    heating_setpoint,
                    now_ms,
                ),
    {
        let now_ms: u64 = uptime_ms();

        self.apply_at(heater, system_mode, heating_setpoint, now_ms)
    }

    /// [`Self::apply`], at `now_ms`.
    pub fn apply_at(
        &mut self,
        heater: &MillHeater,
        system_mode: SystemMode,
        heating_setpoint: i16,
        now_ms: u64,
    ) -> (frames: Vec<[u8; COMMAND_LEN]>)
        ensures
            (*final(self), frames_of(frames@)) == old(self).applied_to(
                heater@.state,
                system_mode,
                heating_setpoint,
                now_ms,
            ),
    {
        let startup: bool = !self.applied;

        self.system_mode = system_mode;
        self.setpoint = heating_setpoint;
        self.applied = true;

        if startup {
            let frames: Vec<[u8; COMMAND_LEN]> = Vec::new();
            proof {
                assert(frames_of(frames@) =~= Seq::<Seq<u8>>::empty());
            }

            return frames;
        }

        self.command(heater, system_mode, whole_degrees(heating_setpoint), now_ms)
    }

    /// The thermostat once the handler has pushed a mode and a setpoint at `now_ms`, and
    /// the frames that are sent.
    pub open spec fn applied_to(
        self,
        heater: HeaterState,
        mode: SystemMode,
        setpoint: i16,
        now_ms: u64,
    ) -> (Self, Seq<Seq<u8>>) {
        let pushed = self.pushed(mode, setpoint);
        let heat = mode == SystemMode::Heat;
        let celsius = nearest_degree(setpoint);
        if self.applied {
            (
                pushed.requested(heater, heat, celsius, now_ms),
                pushed.requests(heater, heat, celsius),
            )
        } else {
            (pushed, Seq::empty())
        }
    }
}

/// Rounding never moves a temperature by more than half a degree, halves go up, and whole
/// degrees are left alone, within what the wire can carry; what is beyond it goes to the
/// nearest end.
pub proof fn law_rounds_to_the_nearest_degree(centi: i16, celsius: u8)
    ensures
        -50 <= centi < 25_550 ==> -50 < 100 * nearest_degree(centi) - centi <= 50,
        centi < -50 ==> nearest_degree(centi) == 0,
        centi >= 25_550 ==> nearest_degree(centi) == 255,
        nearest_degree((celsius * 100) as i16) == celsius,
{
}

/// A warmer setpoint is never rounded to a cooler one.
pub proof fn law_rounding_is_monotone(a: i16, b: i16)
    requires
        a <= b,
    ensures
        nearest_degree(a) <= nearest_degree(b),
{
}

/// The startup push sends nothing, whatever it pushes and whatever the heater says.
pub proof fn law_startup_sends_nothing(
    t: ThermostatDeviceLogic,
    heater: HeaterState,
    mode: SystemMode,
    setpoint: i16,
    now_ms: u64,
)
    requires
        !t.applied,
    ensures
        t.applied_to(heater, mode, setpoint, now_ms).1 == Seq::<Seq<u8>>::empty(),
        t.applied_to(heater, mode, setpoint, now_ms).0.applied,
        t.applied_to(heater, mode, setpoint, now_ms).0.pending_setpoint == t.pending_setpoint,
        t.applied_to(heater, mode, setpoint, now_ms).0.pending_mode == t.pending_mode,
{
}

/// The attribute keeps exactly what was written, to the hundredth, and so does what the
/// thermostat compares the Mill's reports against.
pub proof fn law_written_state_is_kept(
    t: ThermostatDeviceLogic,
    heater: HeaterState,
    mode: SystemMode,
    setpoint: i16,
    now_ms: u64,
)
    ensures
        t.applied_to(heater, mode, setpoint, now_ms).0.setpoint == setpoint,
        t.applied_to(heater, mode, setpoint, now_ms).0.system_mode == mode,
{
}

/// Pushing the same state again sends nothing: what was asked for is not asked for twice
/// while it is outstanding, nor once the heater agrees.
pub proof fn law_repeated_writes_send_nothing(
    t: ThermostatDeviceLogic,
    heater: HeaterState,
    mode: SystemMode,
    setpoint: i16,
    now_ms: u64,
    later_ms: u64,
)
    requires
        t.applied,
    ensures
        ({
            let once = t.applied_to(heater, mode, setpoint, now_ms).0;
            once.applied_to(heater, mode, setpoint, later_ms) == (once, Seq::<Seq<u8>>::empty())
        }),
{
    let once = t.applied_to(heater, mode, setpoint, now_ms).0;
    assert(once.applied_to(heater, mode, setpoint, later_ms).1 =~= Seq::<Seq<u8>>::empty());
}

/// A write that the heater does not agree with puts the setpoint, rounded to whole
/// degrees, and the power state on the wire, in that order.
pub proof fn law_new_writes_are_sent(
    t: ThermostatDeviceLogic,
    heater: HeaterState,
    mode: SystemMode,
    setpoint: i16,
    now_ms: u64,
)
    requires
        t.applied,
        t.pending_setpoint is None,
        t.pending_mode is None,
        heater.setpoint_c != Some(nearest_degree(setpoint)),
        heater.heat_mode != Some(mode == SystemMode::Heat),
    ensures
        t.applied_to(heater, mode, setpoint, now_ms).1 == seq![
            crate::mill::framed(crate::mill::setpoint_payload(nearest_degree(setpoint))),
            crate::mill::framed(crate::mill::power_payload(mode == SystemMode::Heat)),
        ],
        t.applied_to(heater, mode, setpoint, now_ms).0.pending_setpoint == Some(
            (nearest_degree(setpoint), now_ms),
        ),
        t.applied_to(heater, mode, setpoint, now_ms).0.pending_mode == Some(
            (mode == SystemMode::Heat, now_ms),
        ),
{
    assert(t.applied_to(heater, mode, setpoint, now_ms).1 =~= seq![
        crate::mill::framed(crate::mill::setpoint_payload(nearest_degree(setpoint))),
        crate::mill::framed(crate::mill::power_payload(mode == SystemMode::Heat)),
    ]);
}

/// A written setpoint is not fought over: once the Mill reports the whole degree it was
/// commanded, the attribute is left at exactly what was written, nothing is told to the
/// handler, and the command counts as taken up - whenever the report comes.
pub proof fn law_confirmed_setpoint_is_left_alone(
    t: ThermostatDeviceLogic,
    heater: HeaterState,
    mode: SystemMode,
    setpoint: i16,
    sent_ms: u64,
    confirmed: HeaterState,
    now_ms: u64,
)
    requires
        t.applied,
        confirmed.setpoint_c == Some(nearest_degree(setpoint)),
    ensures
        ({
            let sent = t.applied_to(heater, mode, setpoint, sent_ms).0;
            let (after, told) = sent.setpoint_synced(confirmed, now_ms);
            &&& told is None
            &&& after.setpoint == setpoint
            &&& after.pending_setpoint is None
        }),
{
}

/// The Mill wins: a setpoint it reports while nothing of ours is on its way is adopted,
/// first frame after boot included, and the handler is told exactly when its whole degree
/// differs from what was held.
pub proof fn law_the_mill_wins_on_the_setpoint(
    t: ThermostatDeviceLogic,
    heater: HeaterState,
    reported: u8,
    now_ms: u64,
)
    requires
        heater.setpoint_c == Some(reported),
        t.pending_setpoint matches Some((pending, sent_ms)) ==> pending == reported || !in_flight(
            sent_ms,
            now_ms,
        ),
    ensures
        ({
            let (after, told) = t.setpoint_synced(heater, now_ms);
            &&& nearest_degree(after.setpoint) == reported
            &&& after.pending_setpoint is None
            &&& told is Some <==> nearest_degree(t.setpoint) != reported
            &&& told matches Some(setpoint) ==> setpoint == reported * 100 && after.setpoint
                == setpoint
            &&& told is None ==> after.setpoint == t.setpoint
        }),
{
}

/// The Mill wins on the power state as well.
pub proof fn law_the_mill_wins_on_the_mode(
    t: ThermostatDeviceLogic,
    heater: HeaterState,
    reported: bool,
    now_ms: u64,
)
    requires
        heater.heat_mode == Some(reported),
        t.pending_mode matches Some((pending, sent_ms)) ==> pending == reported || !in_flight(
            sent_ms,
            now_ms,
        ),
    ensures
        ({
            let (after, told) = t.mode_synced(heater, now_ms);
            &&& after.system_mode == mode_of(reported)
            &&& after.pending_mode is None
            &&& told is Some <==> t.system_mode != mode_of(reported)
            &&& told matches Some(mode) ==> mode == mode_of(reported)
        }),
{
}

/// A frame that crossed a command on the wire changes nothing: within the grace period a
/// disagreeing report is neither adopted nor told to the handler.
pub proof fn law_crossed_frames_are_ignored(
    t: ThermostatDeviceLogic,
    heater: HeaterState,
    now_ms: u64,
)
    ensures
        (t.pending_setpoint matches Some((pending, sent_ms)) && heater.setpoint_c is Some
            && heater.setpoint_c != Some(pending) && in_flight(sent_ms, now_ms))
            ==> t.setpoint_synced(heater, now_ms) == (t, None::<i16>),
        (t.pending_mode matches Some((pending, sent_ms)) && heater.heat_mode is Some
            && heater.heat_mode != Some(pending) && in_flight(sent_ms, now_ms))
            ==> t.mode_synced(heater, now_ms) == (t, None::<SystemMode>),
{
}

/// A command is given up on once, and only where the Mill disagrees with it after its
/// grace: then it is no longer outstanding, and the Mill's own report stands.
pub proof fn law_unheeded_commands_are_given_up(
    t: ThermostatDeviceLogic,
    heater: HeaterState,
    now_ms: u64,
    later_ms: u64,
)
    ensures
        ({
            let after = t.setpoint_synced(heater, now_ms).0;
            t.setpoint_given_up(heater, now_ms) matches Some(pending) ==> {
                &&& t.pending_setpoint is Some
                &&& heater.setpoint_c matches Some(reported) && reported != pending
                    && nearest_degree(after.setpoint) == reported
                &&& after.pending_setpoint is None
                &&& after.setpoint_given_up(heater, later_ms) is None
            }
        }),
        ({
            let after = t.mode_synced(heater, now_ms).0;
            t.mode_given_up(heater, now_ms) matches Some(pending) ==> {
                &&& t.pending_mode is Some
                &&& heater.heat_mode matches Some(reported) && reported != pending
                    && after.system_mode == mode_of(reported)
                &&& after.pending_mode is None
                &&& after.mode_given_up(heater, later_ms) is None
            }
        }),
{
}

/// A steady heater is reported on once: weighing the same report again, at the same
/// reading of the clock or a later one, tells the handler nothing unless a command has
/// run out of grace in between.
pub proof fn law_steady_heater_is_quiet(
    t: ThermostatDeviceLogic,
    heater: HeaterState,
    now_ms: u64,
    later_ms: u64,
)
    requires
        t.pending_setpoint matches Some((_, sent_ms)) ==> in_flight(sent_ms, now_ms) == in_flight(
            sent_ms,
            later_ms,
        ),
        t.pending_mode matches Some((_, sent_ms)) ==> in_flight(sent_ms, now_ms) == in_flight(
            sent_ms,
            later_ms,
        ),
    ensures
        ({
            let quiet = Changed { room: false, element: false };
            let once = t.reported(heater, quiet, now_ms, now_ms).0;
            once.reported(heater, quiet, later_ms, later_ms) == (once, Seq::<Notification>::empty())
        }),
{
    let quiet = Changed { room: false, element: false };
    let once = t.reported(heater, quiet, now_ms, now_ms).0;
    if heater.setpoint_c is Some {
        law_rounds_to_the_nearest_degree(0, heater.setpoint_c->Some_0);
    }
    assert(once.reported(heater, quiet, later_ms, later_ms).1 =~= Seq::<Notification>::empty());
}

/// What a controller asks for reaches the Mill. The power state that stands is the one
/// outstanding or, with none outstanding, the one reported; whenever it is not the one
/// pushed, and only then, the power frame for the pushed state is among those sent. The same
/// holds of the setpoint, each on its own and whatever else is pending, and nothing else is
/// sent.
pub proof fn law_disagreements_are_sent(
    t: ThermostatDeviceLogic,
    heater: HeaterState,
    mode: SystemMode,
    setpoint: i16,
    now_ms: u64,
)
    requires
        t.applied,
    ensures
        ({
            let frames = t.applied_to(heater, mode, setpoint, now_ms).1;
            let heat = mode == SystemMode::Heat;
            let celsius = nearest_degree(setpoint);
            let power = crate::mill::framed(crate::mill::power_payload(heat));
            let target = crate::mill::framed(crate::mill::setpoint_payload(celsius));
            &&& t.pending_mode matches Some((pending, _)) ==> (frames.contains(power) <==> pending
                != heat)
            &&& t.pending_mode is None ==> (frames.contains(power) <==> heater.heat_mode != Some(
                heat,
            ))
            &&& t.pending_setpoint matches Some((pending, _)) ==> (frames.contains(target)
                <==> pending != celsius)
            &&& t.pending_setpoint is None ==> (frames.contains(target) <==> heater.setpoint_c
                != Some(celsius))
            &&& forall|i: int|
                0 <= i < frames.len() ==> #[trigger] frames[i] == power || frames[i] == target
            &&& forall|i: int, j: int|
                0 <= i < j < frames.len() ==> frames[i] == target && frames[j] == power
        }),
{
    let heat = mode == SystemMode::Heat;
    let celsius = nearest_degree(setpoint);
    lemma_requests(t.pushed(mode, setpoint), heater, heat, celsius, now_ms);
}

/// A command counts as outstanding only if it was sent: what is outstanding after a push is
/// what was outstanding before it, unless the frame for the pushed state is among those
/// sent, and then it is the pushed state, as of now.
pub proof fn law_only_sent_commands_are_outstanding(
    t: ThermostatDeviceLogic,
    heater: HeaterState,
    mode: SystemMode,
    setpoint: i16,
    now_ms: u64,
)
    ensures
        ({
            let (after, frames) = t.applied_to(heater, mode, setpoint, now_ms);
            let heat = mode == SystemMode::Heat;
            let celsius = nearest_degree(setpoint);
            let power = crate::mill::framed(crate::mill::power_payload(heat));
            let target = crate::mill::framed(crate::mill::setpoint_payload(celsius));
            &&& frames.contains(power) ==> after.pending_mode == Some((heat, now_ms))
            &&& !frames.contains(power) ==> after.pending_mode == t.pending_mode
            &&& frames.contains(target) ==> after.pending_setpoint == Some((celsius, now_ms))
            &&& !frames.contains(target) ==> after.pending_setpoint == t.pending_setpoint
        }),
{
    let heat = mode == SystemMode::Heat;
    let celsius = nearest_degree(setpoint);
    if t.applied {
        lemma_requests(t.pushed(mode, setpoint), heater, heat, celsius, now_ms);
    }
}

/// The last push stands: whatever was asked for before and whatever the heater reported,
/// once a push has been made, what is outstanding, or else reported, is what was pushed.
pub proof fn law_the_last_push_stands(
    t: ThermostatDeviceLogic,
    heater: HeaterState,
    mode: SystemMode,
    setpoint: i16,
    now_ms: u64,
)
    requires
        t.applied,
    ensures
        ({
            let after = t.applied_to(heater, mode, setpoint, now_ms).0;
            let heat = mode == SystemMode::Heat;
            let celsius = nearest_degree(setpoint);
            &&& after.pending_mode matches Some((pending, _)) ==> pending == heat
            &&& after.pending_mode is None ==> heater.heat_mode == Some(heat)
            &&& after.pending_setpoint matches Some((pending, _)) ==> pending == celsius
            &&& after.pending_setpoint is None ==> heater.setpoint_c == Some(celsius)
            &&& after.applied
        }),
{
}

/// What a request sends and leaves outstanding, for any thermostat.
proof fn lemma_requests(
    t: ThermostatDeviceLogic,
    heater: HeaterState,
    heat: bool,
    celsius: u8,
    now_ms: u64,
)
    ensures
        ({
            let frames = t.requests(heater, heat, celsius);
            let after = t.requested(heater, heat, celsius, now_ms);
            let power = crate::mill::framed(crate::mill::power_payload(heat));
            let target = crate::mill::framed(crate::mill::setpoint_payload(celsius));
            let on_power = match t.pending_mode {
                Some((pending, _)) => pending != heat,
                None => heater.heat_mode != Some(heat),
            };
            let on_target = match t.pending_setpoint {
                Some((pending, _)) => pending != celsius,
                None => heater.setpoint_c != Some(celsius),
            };
            &&& frames.contains(power) <==> on_power
            &&& frames.contains(target) <==> on_target
            &&& forall|i: int|
                0 <= i < frames.len() ==> #[trigger] frames[i] == power || frames[i] == target
            &&& forall|i: int, j: int|
                0 <= i < j < frames.len() ==> frames[i] == target && frames[j] == power
            &&& after.pending_mode == if on_power {
                Some((heat, now_ms))
            } else {
                t.pending_mode
            }
            &&& after.pending_setpoint == if on_target {
                Some((celsius, now_ms))
            } else {
                t.pending_setpoint
            }
            &&& after.setpoint == t.setpoint
            &&& after.system_mode == t.system_mode
            &&& after.applied == t.applied
        }),
{
    let frames = t.requests(heater, heat, celsius);
    let power = crate::mill::framed(crate::mill::power_payload(heat));
    let target = crate::mill::framed(crate::mill::setpoint_payload(celsius));
    crate::mill::law_commands_are_told_apart(heat, heat, celsius, celsius);
    if !t.agrees_on_setpoint(heater, celsius) {
        assert(frames[0] == target);
    }
    if !t.agrees_on_mode(heater, heat) {
        assert(frames[frames.len() - 1] == power);
    }
}

/// How long a command is waited for: it may still be on its way for fifteen seconds after it
/// was sent, and no longer.
pub proof fn law_commands_are_given_fifteen_seconds(sent_ms: u64, now_ms: u64)
    ensures
        in_flight(sent_ms, now_ms) <==> now_ms < sent_ms + 15_000,
{
}

/// A power state is heating or off, and no other mode.
pub proof fn law_power_states_are_modes(heat: bool)
    ensures
        mode_of(heat) == SystemMode::Heat <==> heat,
        mode_of(heat) == SystemMode::Off <==> !heat,
{
}

/// A command is given up on exactly where the Mill reports something else once its fifteen
/// seconds are over. Until then, and where the Mill reports nothing, it stays outstanding;
/// once the Mill reports it, it is outstanding no more.
pub proof fn law_commands_end_in_time(t: ThermostatDeviceLogic, heater: HeaterState, now_ms: u64)
    ensures
        t.pending_setpoint matches Some((pending, sent_ms)) ==> {
            let after = t.setpoint_synced(heater, now_ms).0;
            &&& after.pending_setpoint == t.pending_setpoint || after.pending_setpoint is None
            &&& after.pending_setpoint is None <==> heater.setpoint_c is Some && (heater.setpoint_c
                == Some(pending) || now_ms >= sent_ms + 15_000)
            &&& t.setpoint_given_up(heater, now_ms) is Some <==> heater.setpoint_c is Some
                && heater.setpoint_c != Some(pending) && now_ms >= sent_ms + 15_000
            &&& t.setpoint_given_up(heater, now_ms) is Some ==> t.setpoint_given_up(
                heater,
                now_ms,
            ) == Some(pending)
        },
        t.pending_setpoint is None ==> {
            &&& t.setpoint_synced(heater, now_ms).0.pending_setpoint is None
            &&& t.setpoint_given_up(heater, now_ms) is None
        },
        t.pending_mode matches Some((pending, sent_ms)) ==> {
            let after = t.mode_synced(heater, now_ms).0;
            &&& after.pending_mode == t.pending_mode || after.pending_mode is None
            &&& after.pending_mode is None <==> heater.heat_mode is Some && (heater.heat_mode
                == Some(pending) || now_ms >= sent_ms + 15_000)
            &&& t.mode_given_up(heater, now_ms) is Some <==> heater.heat_mode is Some
                && heater.heat_mode != Some(pending) && now_ms >= sent_ms + 15_000
            &&& t.mode_given_up(heater, now_ms) is Some ==> t.mode_given_up(heater, now_ms) == Some(
                pending,
            )
        },
        t.pending_mode is None ==> {
            &&& t.mode_synced(heater, now_ms).0.pending_mode is None
            &&& t.mode_given_up(heater, now_ms) is None
        },
{
}

/// The setpoint and the mode are weighed apart: weighing one leaves everything about the
/// other as it was, and weighing either leaves it standing that the handler has pushed.
pub proof fn law_setpoint_and_mode_are_weighed_apart(
    t: ThermostatDeviceLogic,
    heater: HeaterState,
    now_ms: u64,
)
    ensures
        ({
            let after = t.setpoint_synced(heater, now_ms).0;
            &&& after.system_mode == t.system_mode
            &&& after.pending_mode == t.pending_mode
            &&& after.applied == t.applied
        }),
        ({
            let after = t.mode_synced(heater, now_ms).0;
            &&& after.setpoint == t.setpoint
            &&& after.pending_setpoint == t.pending_setpoint
            &&& after.applied == t.applied
        }),
{
}

/// Where a notification stands among those that one report gives.
pub open spec fn place(notification: Notification) -> int {
    match notification {
        Notification::LocalTemperature => 0,
        Notification::RunningState => 1,
        Notification::OccupiedHeatingSetpoint(_) => 2,
        Notification::SystemMode(_) => 3,
    }
}

/// The handler is told everything that moved, once, and nothing that did not: the local
/// temperature if and only if the room reading moved, the running state if and only if the
/// element switched, in either direction, and the setpoint and the mode if and only if what
/// the thermostat holds for them moved, with what it holds now - in that order.
pub proof fn law_whatever_moved_is_told(
    t: ThermostatDeviceLogic,
    after: ThermostatDeviceLogic,
    report: Report,
    heater: HeaterState,
    changed: Changed,
    setpoint_ms: u64,
    mode_ms: u64,
)
    requires
        t.reports_to(after, report, heater, changed, setpoint_ms, mode_ms),
    ensures
        report.told@.contains(Notification::LocalTemperature) <==> changed.room,
        report.told@.contains(Notification::RunningState) <==> changed.element,
        forall|setpoint: i16|
            #![trigger report.told@.contains(Notification::OccupiedHeatingSetpoint(setpoint))]
            report.told@.contains(Notification::OccupiedHeatingSetpoint(setpoint))
                <==> after.setpoint != t.setpoint && setpoint == after.setpoint,
        forall|mode: SystemMode|
            #![trigger report.told@.contains(Notification::SystemMode(mode))]
            report.told@.contains(Notification::SystemMode(mode)) <==> after.system_mode
                != t.system_mode && mode == after.system_mode,
        forall|i: int, j: int|
            #![trigger report.told@[i], report.told@[j]]
            0 <= i < j < report.told@.len() ==> place(report.told@[i]) < place(report.told@[j]),
        report.setpoint_given_up == t.setpoint_given_up(heater, setpoint_ms),
        report.mode_given_up == t.mode_given_up(heater, mode_ms),
{
    let told = report.told@;
    let (first, setpoint) = t.setpoint_synced(heater, setpoint_ms);
    let (second, mode) = first.mode_synced(heater, mode_ms);
    if heater.setpoint_c is Some {
        law_rounds_to_the_nearest_degree(0, heater.setpoint_c->Some_0);
    }
    assert(setpoint is Some <==> first.setpoint != t.setpoint);
    assert(mode is Some <==> second.system_mode != first.system_mode);
    let room = if changed.room {
        1int
    } else {
        0
    };
    let element = if changed.element {
        1int
    } else {
        0
    };
    let adopted = if setpoint is Some {
        1int
    } else {
        0
    };
    if changed.room {
        assert(told[0] == Notification::LocalTemperature);
    }
    if changed.element {
        assert(told[room] == Notification::RunningState);
    }
    if setpoint is Some {
        assert(told[room + element] == Notification::OccupiedHeatingSetpoint(setpoint->Some_0));
    }
    if mode is Some {
        assert(told[room + element + adopted] == Notification::SystemMode(mode->Some_0));
    }
}

/// What one report leaves behind is what weighing the setpoint and then the mode does: the
/// Mill's report is weighed on both, whether or not the frame moved any reading.
pub proof fn law_every_frame_is_weighed(
    t: ThermostatDeviceLogic,
    heater: HeaterState,
    changed: Changed,
    setpoint_ms: u64,
    mode_ms: u64,
)
    ensures
        ({
            let after = t.reported(heater, changed, setpoint_ms, mode_ms).0;
            let by_setpoint = t.setpoint_synced(heater, setpoint_ms).0;
            let by_mode = t.mode_synced(heater, mode_ms).0;
            &&& after.setpoint == by_setpoint.setpoint
            &&& after.pending_setpoint == by_setpoint.pending_setpoint
            &&& after.system_mode == by_mode.system_mode
            &&& after.pending_mode == by_mode.pending_mode
            &&& after.applied == t.applied
        }),
{
}

/// From the wire to the handler: a status frame that is folded into the heater's state and
/// then handled has the handler told of the room exactly where the reading served for it
/// moved, and of the relay exactly where the element switched, on or off.
pub proof fn law_status_frames_are_told_of(
    t: ThermostatDeviceLogic,
    after: ThermostatDeviceLogic,
    before: HeaterState,
    heater: crate::heater::Link,
    heater_after: crate::heater::Link,
    status: crate::mill::Status,
    report: Report,
    status_ms: u64,
    silence_ms: u64,
    setpoint_ms: u64,
    mode_ms: u64,
)
    requires
        heater.state == before.applied(status, status_ms),
        t.handled(
            after,
            heater,
            heater_after,
            Event::Status(before.moved_by(status)),
            report,
            silence_ms,
            setpoint_ms,
            mode_ms,
        ),
    ensures
        heater_after == heater,
        report.told@.contains(Notification::LocalTemperature) <==> heater.state.room_c
            != before.room_c,
        report.told@.contains(Notification::RunningState) <==> status.element_on
            != before.element_on,
        report.told@.contains(Notification::RunningState) <==> relays_of(heater.state) != relays_of(
            before,
        ),
{
    law_whatever_moved_is_told(
        t,
        after,
        report,
        heater.state,
        before.moved_by(status),
        setpoint_ms,
        mode_ms,
    );
}

/// Handling a status frame weighs what the Mill reports, whatever the frame moved: the setpoint
/// and the mode it reports are what the thermostat holds from then on, unless a command that
/// says otherwise was sent less than fifteen seconds ago or they round to what it holds anyway;
/// what it does not report stands. The handler is told of each if and only if it moved, and a
/// command is told to be given up on if and only if its time is over.
pub proof fn law_handling_weighs_the_report(
    t: ThermostatDeviceLogic,
    after: ThermostatDeviceLogic,
    heater: crate::heater::Link,
    heater_after: crate::heater::Link,
    changed: Changed,
    report: Report,
    silence_ms: u64,
    setpoint_ms: u64,
    mode_ms: u64,
)
    requires
        t.handled(
            after,
            heater,
            heater_after,
            Event::Status(changed),
            report,
            silence_ms,
            setpoint_ms,
            mode_ms,
        ),
    ensures
        ({
            let s = heater.state;
            let waits = match t.pending_setpoint {
                Some((pending, sent_ms)) => s.setpoint_c != Some(pending) && setpoint_ms < sent_ms
                    + 15_000,
                None => false,
            };
            &&& s.setpoint_c is None || waits ==> after.setpoint == t.setpoint
                && after.pending_setpoint == t.pending_setpoint
            &&& s.setpoint_c is Some && !waits ==> {
                &&& after.pending_setpoint is None
                &&& nearest_degree(t.setpoint) == s.setpoint_c->Some_0 ==> after.setpoint
                    == t.setpoint
                &&& nearest_degree(t.setpoint) != s.setpoint_c->Some_0 ==> after.setpoint == 100
                    * s.setpoint_c->Some_0
            }
            &&& report.setpoint_given_up == if s.setpoint_c is Some && !waits
                && t.pending_setpoint is Some && s.setpoint_c != Some(t.pending_setpoint->Some_0.0)
            {
                Some(t.pending_setpoint->Some_0.0)
            } else {
                None
            }
        }),
        ({
            let s = heater.state;
            let waits = match t.pending_mode {
                Some((pending, sent_ms)) => s.heat_mode != Some(pending) && mode_ms < sent_ms
                    + 15_000,
                None => false,
            };
            &&& s.heat_mode is None || waits ==> after.system_mode == t.system_mode
                && after.pending_mode == t.pending_mode
            &&& s.heat_mode is Some && !waits ==> {
                &&& after.pending_mode is None
                &&& after.system_mode == SystemMode::Heat <==> s.heat_mode == Some(true)
                &&& after.system_mode == SystemMode::Off <==> s.heat_mode == Some(false)
            }
            &&& report.mode_given_up == if s.heat_mode is Some && !waits && t.pending_mode is Some
                && s.heat_mode != Some(t.pending_mode->Some_0.0) {
                Some(t.pending_mode->Some_0.0)
            } else {
                None
            }
        }),
        report.told@.contains(Notification::OccupiedHeatingSetpoint(after.setpoint))
            <==> after.setpoint != t.setpoint,
        report.told@.contains(Notification::SystemMode(after.system_mode)) <==> after.system_mode
            != t.system_mode,
        report.told@.contains(Notification::LocalTemperature) <==> changed.room,
        report.told@.contains(Notification::RunningState) <==> changed.element,
        after.applied == t.applied,
        heater_after == heater,
{
    law_whatever_moved_is_told(
        t,
        after,
        report,
        heater.state,
        changed,
        setpoint_ms,
        mode_ms,
    );
    law_every_frame_is_weighed(t, heater.state, changed, setpoint_ms, mode_ms);
}

/// The heating relay is served as energised exactly while the element draws power, and no
/// other relay ever is.
pub proof fn law_relay_follows_the_element(heater: HeaterState)
    ensures
        relays_of(heater) == 1 <==> heater.element_on,
        relays_of(heater) == 0 <==> !heater.element_on,
        relays_of(heater) == 0 ==> heater.active_power_mw() == 0,
{
}

/// A thermostat that has just started holds the configured setpoint, off, with nothing
/// outstanding, and its first push reaches nobody.
pub proof fn law_starts_from_the_configuration(
    settings: Settings,
    heater: HeaterState,
    mode: SystemMode,
    setpoint: i16,
    now_ms: u64,
)
    ensures
        ({
            let fresh = ThermostatDeviceLogic::at_startup(settings);
            &&& fresh.setpoint == settings.default_heating_setpoint
            &&& fresh.system_mode == SystemMode::Off
            &&& fresh.pending_setpoint is None
            &&& fresh.pending_mode is None
            &&& fresh.applied_to(heater, mode, setpoint, now_ms).1.len() == 0
        }),
{
}

/// What older firmware left behind is removed if and only if it is there, whatever it holds, and
/// nothing that is still in use is.
pub proof fn law_only_leftovers_are_removed(legacy: Option<Seq<u8>>)
    ensures
        left_behind(legacy) is Some <==> legacy is Some,
        left_behind(legacy) matches Some(slot) ==> !crate::vendor_kv::reset_slots().contains(slot),
{
    crate::vendor_kv::law_reset_removes_what_is_kept(VendorSlot::LegacyThermostatState);
}

/// Silence takes nothing from the cluster's own state: the setpoint, the mode and what is
/// outstanding stay as they were, and only the readings that were lost are re-reported.
pub proof fn law_silence_keeps_the_setpoint(
    t: ThermostatDeviceLogic,
    after: ThermostatDeviceLogic,
    heater: crate::heater::Link,
    heater_after: crate::heater::Link,
    report: Report,
    silence_ms: u64,
    setpoint_ms: u64,
    mode_ms: u64,
)
    requires
        heater.state.wf(),
        t.handled(
            after,
            heater,
            heater_after,
            Event::Silence,
            report,
            silence_ms,
            setpoint_ms,
            mode_ms,
        ),
    ensures
        after == t,
        report.told@.contains(Notification::LocalTemperature) <==> heater.state.room_c is Some,
        report.told@.contains(Notification::RunningState) <==> heater.state.element_on,
        report.told@.len() <= 2,
        report.setpoint_given_up is None,
        report.mode_given_up is None,
        !heater_after.state.is_online(),
{
    let told = report.told@;
    let room = heater.state.room_c is Some;
    let element = heater.state.element_on;
    if room {
        assert(told[0] == Notification::LocalTemperature);
    }
    if element {
        assert(told[told.len() - 1] == Notification::RunningState);
    }
}

} // verus!
