//! The Electrical Sensor device type's device-specific half: what the heater's heating
//! element is drawing right now, and what it has drawn over its lifetime.
//!
//! There is no metering hardware of any kind. The Mill reports whether its element is on
//! and nothing more, so the one reading served here is the element's plate rating gated
//! on that single bit. Nothing else is served: voltage, current, frequency, power factor
//! and the RMS, apparent and reactive quantities would all have to be *derived* from a
//! nominal supply this board never measures, and a client cannot tell a derived reading
//! from a measured one.

use vstd::prelude::*;

use crate::clock::uptime_ms;
use crate::config::Settings;
use crate::heater::{ClosedPeriod, MillHeater, ENERGY_LEN};

verus! {

/// The top of the lifetime energy counter's range, in milliwatt-hours.
///
/// The counter is an `i64` of milliwatt-*seconds*, so this is where it rolls over.
/// Quoting `i64::MAX` there would claim a range the counter cannot reach.
pub const MAX_ENERGY_MWH: i64 = 2_562_047_788_015_215;

/// A quantity that is measured.
#[derive(Clone, Copy, Debug, PartialEq, Eq, Structural)]
pub enum MeasurementType {
    /// The power drawn, in milliwatts.
    ActivePower,
    /// The energy drawn, in milliwatt-hours.
    ElectricalEnergy,
}

/// One entry of an accuracy list: a quantity that is read from `min` to `max`, to within
/// the same share of the reading throughout.
#[derive(Clone, Copy, Debug, PartialEq, Eq, Structural)]
pub struct MeasurementAccuracy {
    /// What is measured.
    pub measurement: MeasurementType,
    /// The lowest reading.
    pub min: i64,
    /// The highest reading.
    pub max: i64,
    /// How far off a reading may be, in hundredths of a percent.
    pub percent: u16,
}

/// The accuracy of the power.
pub open spec fn power_accuracy(settings: Settings) -> MeasurementAccuracy {
    MeasurementAccuracy {
        measurement: MeasurementType::ActivePower,
        min: 0,
        max: (settings.circuit_max_watts * 1000) as i64,
        percent: settings.meter_accuracy,
    }
}

/// The accuracy of the lifetime total.
pub open spec fn energy_accuracy(settings: Settings) -> MeasurementAccuracy {
    MeasurementAccuracy {
        measurement: MeasurementType::ElectricalEnergy,
        min: 0,
        max: MAX_ENERGY_MWH,
        percent: settings.meter_accuracy,
    }
}

/// A quantity that is read from zero to `max`, at the configured accuracy.
fn meter_accuracy(
    settings: &Settings,
    measurement: MeasurementType,
    max: i64,
) -> (accuracy: MeasurementAccuracy)
    ensures
        accuracy == (MeasurementAccuracy {
            measurement,
            min: 0,
            max,
            percent: settings.meter_accuracy,
        }),
{
    MeasurementAccuracy { measurement, min: 0, max, percent: settings.meter_accuracy }
}

/// An energy reading and where in time it lies, in milliseconds since boot. This device
/// has no wall clock, so a reading is located in time by uptime alone.
#[derive(Clone, Copy, Debug, PartialEq, Eq, Structural)]
pub struct EnergyMeasurement {
    /// The energy, in milliwatt-hours.
    pub energy_mwh: i64,
    /// The start of the window, for a reading that covers one.
    pub start_ms: Option<u64>,
    /// The end of the window, or when a cumulative reading was taken.
    pub end_ms: u64,
}

/// What the element is drawing right now.
#[derive(Clone, Copy, Debug, PartialEq, Eq, Structural)]
pub struct ElecPwrDeviceLogic {
    /// The last power handed to a subscriber, in milliwatts, so that a notification is
    /// only raised when the reading actually moved.
    pub reported_power_mw: i64,
}

impl ElecPwrDeviceLogic {
    /// The meter once the power has been resampled, and whether it moved.
    pub open spec fn sampled(self, heater: crate::heater::HeaterState) -> (Self, bool) {
        (
            ElecPwrDeviceLogic { reported_power_mw: heater.active_power_mw() as i64 },
            heater.active_power_mw() != self.reported_power_mw,
        )
    }

    /// A meter whose subscribers know the power drawn right now.
    pub fn new(heater: &MillHeater) -> (logic: Self)
        ensures
            logic.reported_power_mw == heater@.state.active_power_mw(),
    {
        ElecPwrDeviceLogic { reported_power_mw: heater.active_power_mw() }
    }

    /// The one entry of the accuracy list, for the one reading served: from zero to the
    /// most the circuit can carry.
    pub fn accuracy(settings: &Settings) -> (accuracy: MeasurementAccuracy)
        ensures
            accuracy.measurement == MeasurementType::ActivePower,
            accuracy.min == 0,
            accuracy.max == settings.circuit_max_watts * 1000,
            accuracy.percent == settings.meter_accuracy,
            accuracy == power_accuracy(*settings),
    {
        let max: i64 = settings.circuit_max_watts as i64 * 1000;

        meter_accuracy(settings, MeasurementType::ActivePower, max)
    }

    /// The power drawn right now, in milliwatts. It is always known: a heater that has
    /// not been heard from is taken to draw nothing.
    pub fn active_power(&self, heater: &MillHeater) -> (power: Option<i64>)
        ensures
            power == Some(heater@.state.active_power_mw() as i64),
    {
        Some(heater.active_power_mw())
    }

    /// Resample the power, returning whether it moved since it was last reported.
    pub fn sample(&mut self, heater: &MillHeater) -> (moved: bool)
        ensures
            moved == (heater@.state.active_power_mw() != old(self).reported_power_mw),
            final(self).reported_power_mw == heater@.state.active_power_mw(),
            (*final(self), moved) == old(self).sampled(heater@.state),
    {
        let power: i64 = heater.active_power_mw();

        if power != self.reported_power_mw {
            self.reported_power_mw = power;

            return true;
        }

        false
    }
}

/// A reading that moved on its own.
#[derive(Clone, Copy, Debug, PartialEq, Eq, Structural)]
pub enum EnergyNotification {
    /// The lifetime total.
    CumulativeEnergyImported,
    /// The energy of the most recent measurement period.
    PeriodicEnergyImported,
}

/// What a measurement tick came to.
#[derive(Debug)]
pub struct EnergyTick {
    /// The readings to notify subscribers of, in order.
    pub notify: Vec<EnergyNotification>,
    /// The lifetime counter as it now has to be persisted, or `None` if nothing was
    /// drawn.
    pub store: Option<[u8; ENERGY_LEN]>,
}

/// The lifetime total as it is read at `now_ms`.
pub open spec fn total_reading(
    heater: crate::heater::HeaterState,
    now_ms: u64,
) -> EnergyMeasurement {
    EnergyMeasurement { energy_mwh: heater.energy_mwh() as i64, start_ms: None, end_ms: now_ms }
}

/// The most recent measurement period that drew anything, as it is read.
pub open spec fn period_reading(heater: crate::heater::HeaterState) -> Option<EnergyMeasurement> {
    match heater.period {
        Some((energy_mwh, start_ms, end_ms)) => Some(
            EnergyMeasurement { energy_mwh, start_ms: Some(start_ms), end_ms },
        ),
        None => None,
    }
}

/// When the lifetime total was last reset, as far as that is known.
pub open spec fn reset_reading(heater: crate::heater::HeaterState) -> Option<u64> {
    if heater.reset_at_boot {
        Some(0)
    } else {
        None
    }
}

/// The notifications that closing a measurement period raises.
pub open spec fn notifications_of(closed: ClosedPeriod) -> Seq<EnergyNotification> {
    let cumulative = if closed.moved.cumulative {
        seq![EnergyNotification::CumulativeEnergyImported]
    } else {
        Seq::empty()
    };
    let periodic = if closed.moved.periodic {
        seq![EnergyNotification::PeriodicEnergyImported]
    } else {
        Seq::empty()
    };
    cumulative + periodic
}

/// Whether a measurement tick leaves `after` behind and comes to `tick`.
pub open spec fn ticks_to(
    before: crate::heater::Link,
    after: crate::heater::Link,
    tick: EnergyTick,
    mark_ms: u64,
    end_ms: u64,
) -> bool {
    let moved = before.state.accumulated(mark_ms);
    let closed = ClosedPeriod { moved, store: tick.store };
    &&& before.closes_to(after, closed, mark_ms, end_ms)
    &&& tick.notify@ == notifications_of(closed)
}

/// What the element has drawn over the device's lifetime.
#[derive(Clone, Copy, Debug, PartialEq, Eq, Structural)]
pub struct ElecEnergyDeviceLogic;

impl ElecEnergyDeviceLogic {
    /// A meter. It has no state of its own: it reads the heater's.
    pub fn new() -> (logic: Self)
        ensures
            logic == ElecEnergyDeviceLogic,
    {
        ElecEnergyDeviceLogic
    }

    /// The accuracy of the lifetime total.
    pub fn accuracy(settings: &Settings) -> (accuracy: MeasurementAccuracy)
        ensures
            accuracy.measurement == MeasurementType::ElectricalEnergy,
            accuracy.min == 0,
            accuracy.max == MAX_ENERGY_MWH,
            accuracy.percent == settings.meter_accuracy,
            accuracy == energy_accuracy(*settings),
    {
        meter_accuracy(settings, MeasurementType::ElectricalEnergy, MAX_ENERGY_MWH)
    }

    /// The lifetime total, as of now.
    pub fn cumulative_energy_imported(
        &self,
        heater: &MillHeater,
    ) -> (reading: Option<EnergyMeasurement>)
        ensures
            reading matches Some(reading) && reading.energy_mwh == heater@.state.energy_mwh()
                && reading.start_ms is None,
    {
        let now_ms: u64 = uptime_ms();

        self.cumulative_energy_imported_at(heater, now_ms)
    }

    /// [`Self::cumulative_energy_imported`], as of `now_ms`.
    pub fn cumulative_energy_imported_at(
        &self,
        heater: &MillHeater,
        now_ms: u64,
    ) -> (reading: Option<EnergyMeasurement>)
        ensures
            reading == Some(
                EnergyMeasurement {
                    energy_mwh: heater@.state.energy_mwh() as i64,
                    start_ms: None,
                    end_ms: now_ms,
                },
            ),
            reading == Some(total_reading(heater@.state, now_ms)),
    {
        Some(
            EnergyMeasurement {
                energy_mwh: heater.energy_mwh(),
                start_ms: None,
                end_ms: now_ms,
            },
        )
    }

    /// When the lifetime total was last reset, in milliseconds since boot: at boot, if
    /// there was nothing to restore it from, and otherwise at no time that is known.
    pub fn cumulative_energy_reset(&self, heater: &MillHeater) -> (reset_ms: Option<u64>)
        ensures
            reset_ms == if heater@.state.reset_at_boot {
                Some(0u64)
            } else {
                None
            },
            reset_ms == reset_reading(heater@.state),
    {
        if heater.reset_at_boot() {
            Some(0)
        } else {
            None
        }
    }

    /// The energy of the most recent measurement period that drew anything, with both
    /// ends of its window.
    pub fn periodic_energy_imported(
        &self,
        heater: &MillHeater,
    ) -> (reading: Option<EnergyMeasurement>)
        ensures
            reading == match heater@.state.period {
                Some((energy_mwh, start_ms, end_ms)) => Some(
                    EnergyMeasurement { energy_mwh, start_ms: Some(start_ms), end_ms },
                ),
                None => None,
            },
            reading == period_reading(heater@.state),
    {
        match heater.last_period() {
            Some((energy_mwh, start_ms, end_ms)) => Some(
                EnergyMeasurement { energy_mwh, start_ms: Some(start_ms), end_ms },
            ),
            None => None,
        }
    }

    /// Close the open measurement period. Doing so here keeps the energy counter owned
    /// by the cluster that reports it.
    pub fn tick(&self, heater: &mut MillHeater) -> (tick: EnergyTick)
        ensures
            exists|mark_ms: u64, end_ms: u64|
                #[trigger] ticks_to(old(heater)@, final(heater)@, tick, mark_ms, end_ms),
    {
        let mark_ms: u64 = uptime_ms();
        let end_ms: u64 = uptime_ms();

        self.tick_at(heater, mark_ms, end_ms)
    }

    /// [`Self::tick`], with the counters brought up to `mark_ms` and the window ended at
    /// `end_ms`.
    pub fn tick_at(&self, heater: &mut MillHeater, mark_ms: u64, end_ms: u64) -> (tick: EnergyTick)
        ensures
            ticks_to(old(heater)@, final(heater)@, tick, mark_ms, end_ms),
    {
        let closed: ClosedPeriod = heater.close_period_at(mark_ms, end_ms);
        let mut notify: Vec<EnergyNotification> = Vec::new();

        if closed.moved.cumulative {
            notify.push(EnergyNotification::CumulativeEnergyImported);
        }

        if closed.moved.periodic {
            notify.push(EnergyNotification::PeriodicEnergyImported);
        }
        proof {
            assert(notify@ =~= notifications_of(closed));
        }

        EnergyTick { notify, store: closed.store }
    }
}

/// The lifetime total stays within the range its accuracy is quoted for, and reaches the
/// top of it.
pub proof fn law_energy_is_within_range(state: crate::heater::HeaterState)
    ensures
        -MAX_ENERGY_MWH <= state.energy_mwh() <= MAX_ENERGY_MWH,
        state.energy_mws == i64::MAX ==> state.energy_mwh() == MAX_ENERGY_MWH,
{
}

/// The power stays within the range its accuracy is quoted for, as long as the element is
/// rated no higher than the circuit can carry.
pub proof fn law_power_is_within_range(state: crate::heater::HeaterState, settings: Settings)
    requires
        state.element_watts <= settings.circuit_max_watts,
    ensures
        0 <= state.active_power_mw() <= settings.circuit_max_watts * 1000,
{
}

/// What is claimed of the readings is what was configured: the power from nothing to what the
/// circuit can supply, in milliwatts, and both readings to within the configured accuracy.
pub proof fn law_claims_are_the_configured_ones(settings: Settings)
    ensures
        power_accuracy(settings).measurement == MeasurementType::ActivePower,
        power_accuracy(settings).min == 0,
        power_accuracy(settings).max == 1000 * settings.circuit_max_watts,
        power_accuracy(settings).percent == settings.meter_accuracy,
        energy_accuracy(settings).measurement == MeasurementType::ElectricalEnergy,
        energy_accuracy(settings).min == 0,
        3600 * energy_accuracy(settings).max <= i64::MAX < 3600 * (energy_accuracy(settings).max
            + 1),
        energy_accuracy(settings).percent == settings.meter_accuracy,
{
}

/// A change of power is told once: sampling tells of one if and only if the power differs from
/// the one last told, and sampling again tells of none until it changes.
pub proof fn law_power_changes_are_told_once(
    meter: ElecPwrDeviceLogic,
    now: crate::heater::HeaterState,
    later: crate::heater::HeaterState,
)
    ensures
        ({
            let (once, moved) = meter.sampled(now);
            let (twice, again) = once.sampled(later);
            &&& once.reported_power_mw == now.active_power_mw()
            &&& moved <==> meter.reported_power_mw != now.active_power_mw()
            &&& again <==> later.active_power_mw() != now.active_power_mw()
        }),
{
}

/// Subscribers are told of the lifetime total if and only if it moved, and of the period if and
/// only if one was published; of the total first, and of nothing else.
pub proof fn law_moved_readings_are_told(closed: ClosedPeriod)
    ensures
        notifications_of(closed).contains(EnergyNotification::CumulativeEnergyImported)
            <==> closed.moved.cumulative,
        notifications_of(closed).contains(EnergyNotification::PeriodicEnergyImported)
            <==> closed.moved.periodic,
        notifications_of(closed).len() <= 2,
        closed.moved.cumulative ==> notifications_of(closed)[0]
            == EnergyNotification::CumulativeEnergyImported,
        notifications_of(closed).no_duplicates(),
{
    let told = notifications_of(closed);
    if closed.moved.cumulative {
        assert(told[0] == EnergyNotification::CumulativeEnergyImported);
    }
    if closed.moved.periodic {
        assert(told[told.len() - 1] == EnergyNotification::PeriodicEnergyImported);
    }
}

/// The readings are what was counted: the total in whole milliwatt-hours, as of the time it is
/// read; and, once a period that drew has been closed, that period's energy in whole
/// milliwatt-hours over the window from where it began to where it was closed.
pub proof fn law_readings_are_what_was_counted(
    s: crate::heater::HeaterState,
    mark_ms: u64,
    end_ms: u64,
)
    requires
        s.energy_mws >= 0,
        s.integrated(mark_ms).period_mws > 0,
    ensures
        ({
            let total = total_reading(s, end_ms);
            &&& 3600 * total.energy_mwh <= s.energy_mws < 3600 * total.energy_mwh + 3600
            &&& total.start_ms is None
            &&& total.end_ms == end_ms
        }),
        ({
            let drawn = s.integrated(mark_ms).period_mws;
            &&& period_reading(s.closed(mark_ms, end_ms)) matches Some(period) && 3600
                * period.energy_mwh <= drawn < 3600 * period.energy_mwh + 3600 && period.start_ms
                == Some(s.period_start_ms) && period.end_ms == end_ms
        }),
        period_reading(s) is Some <==> s.period is Some,
        reset_reading(s) is Some <==> s.reset_at_boot,
        reset_reading(s) matches Some(at_ms) ==> at_ms == 0,
{
    crate::heater::law_published_energy_is_the_counted_energy(s, mark_ms, end_ms);
    crate::heater::law_total_is_read_to_the_milliwatt_hour(s);
}

/// A tick publishes, tells and persists together: where the open period drew, its energy is
/// told of and the lifetime counter is handed over to be persisted as it then stands; where it
/// did not, nothing is told and nothing is handed over.
pub proof fn law_ticks_publish_what_was_drawn(
    before: crate::heater::Link,
    after: crate::heater::Link,
    tick: EnergyTick,
    mark_ms: u64,
    end_ms: u64,
)
    requires
        ticks_to(before, after, tick, mark_ms, end_ms),
    ensures
        ({
            let drawn = before.state.integrated(mark_ms).period_mws;
            &&& tick.notify@.contains(EnergyNotification::PeriodicEnergyImported) <==> drawn != 0
            &&& tick.store is Some <==> drawn != 0
            &&& tick.store matches Some(bytes) ==> crate::bytes::le_i64(bytes@)
                == after.state.energy_mws
            &&& drawn == 0 ==> tick.notify@.len() == 0
            &&& tick.notify@.contains(EnergyNotification::CumulativeEnergyImported) <==> drawn != 0
                && after.state.energy_mwh() != before.state.reported_mwh
            &&& after.state == before.state.closed(mark_ms, end_ms)
        }),
{
    let moved = before.state.accumulated(mark_ms);
    law_moved_readings_are_told(ClosedPeriod { moved, store: tick.store });
}

/// The lifetime total is only reported as moved along with a measurement period: energy
/// does not appear in one without having been drawn in the other.
pub proof fn law_total_moves_with_a_period(state: crate::heater::HeaterState, mark_ms: u64)
    ensures
        state.accumulated(mark_ms).cumulative ==> state.accumulated(mark_ms).periodic,
{
}

} // verus!
