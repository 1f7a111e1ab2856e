//! The heater: the state the Mill's own microcontroller reports over its UART, and the
//! energy counters derived from it.
//!
//! This is *not* a relay driver: the Mill keeps its temperature sensor, its triac and
//! its whole control loop, and this board only advises it. So the two directions are
//! asymmetric, and deliberately so:
//!
//! - **Out** ([`MillHeater::request_power`], [`MillHeater::request_setpoint`]):
//!   fire-and-forget frames. No ack, no sequence number, no retry. The next status
//!   frame is the only confirmation there is.
//! - **In** ([`MillHeater::recv_status`]): what the Mill says the room, the setpoint,
//!   the mode and the element are actually doing - including a setpoint somebody
//!   changed on the front panel, which arrives by exactly the same path.
//!
//! The element's state is *observed*, and the metering half
//! ([`MillHeater::active_power_mw`] and the energy counters) is derived from that
//! observation and the element's plate rating.
//!
//! Each function that needs the time comes twice: once reading the clock, and once, with
//! `_at` in its name, taking the readings as arguments.

use vstd::prelude::*;

use crate::bytes::{i64_from_le_bytes, i64_to_le_bytes};
use crate::clock::uptime_ms;
use crate::mill::{power_command, setpoint_command, Decoder, Received, Status, COMMAND_LEN};
use crate::vendor_kv::load_blob;

verus! {

/// How often the open energy measurement period is closed and published, in seconds.
pub const ENERGY_PERIOD_SECS: u64 = 5;

/// How often the electrical readings are resampled, in seconds. Faster than
/// [`ENERGY_PERIOD_SECS`], so that the element starting shows up promptly.
pub const METER_TICK_SECS: u64 = 1;

/// How long the Mill may stay silent before everything it said is treated as stale, in
/// seconds.
///
/// When it trips, the readings go null rather than staying frozen at whatever arrived
/// last: a thermostat that keeps reporting a temperature it can no longer see is worse
/// than one that admits it does not know.
pub const STATUS_TIMEOUT_SECS: u64 = 120;

/// The nominal supply voltage, in millivolts.
pub const SUPPLY_VOLTAGE_MV: i64 = 230_000;

/// The nominal supply frequency, in millihertz.
pub const SUPPLY_FREQUENCY_MHZ: i64 = 50_000;

/// A purely resistive load draws all of its current in phase with the supply, so its
/// power factor is unity - 100.00%, in hundredths of a percent.
pub const UNITY_POWER_FACTOR: i64 = 10_000;

/// How many bytes are taken off the UART at a time.
pub const RX_CHUNK: usize = 32;

/// How many malformed frames get logged in full before the logging backs off to a
/// count.
pub const MALFORMED_LOG_LIMIT: u32 = 8;

/// Past [`MALFORMED_LOG_LIMIT`], every how many malformed frames the count is logged.
pub const MALFORMED_TALLY: u32 = 100;

/// How many well-formed frames are logged raw and loudly before the raw logging goes
/// quiet.
pub const RAW_LOG_LIMIT: u32 = 8;

/// The length of the persisted energy counter.
pub const ENERGY_LEN: usize = 8;

/// What a status frame - or the silence that expires one - moved.
///
/// Only the two pure *readings* are reported this way, because only they are the
/// heater's alone to move. The setpoint and the power state are cluster attributes as
/// well, and reconciling those with what the Mill reports is the thermostat's business.
#[derive(Clone, Copy, Debug, Default, PartialEq, Eq, Structural)]
pub struct Changed {
    /// The measured room temperature.
    pub room: bool,
    /// The element.
    pub element: bool,
}

/// What a measurement tick moved.
///
/// The two readings do not move together: the lifetime counter only changes when the
/// running total crosses a whole milliwatt-hour, while a measurement period closes
/// whenever the element ran during it.
#[derive(Clone, Copy, Debug, Default, PartialEq, Eq, Structural)]
pub struct Accumulated {
    /// The cumulative energy reading changed.
    pub cumulative: bool,
    /// A new periodic energy reading is available.
    pub periodic: bool,
}

/// How loudly a malformed frame is logged.
#[derive(Clone, Copy, Debug, PartialEq, Eq, Structural)]
pub enum Notice {
    /// In full: what was wrong with it, and its bytes.
    Full,
    /// As a running count of malformed frames.
    Tally,
    /// Not at all.
    Silent,
}

/// What there is to log about a frame that was completed.
#[derive(Debug)]
pub enum FrameLog {
    /// A well-formed frame: its payload, whether it is one of the first few, which are
    /// logged loudly, how long after the previous well-formed frame it came, and
    /// whether it is a status frame.
    Raw { payload: Vec<u8>, loud: bool, gap_ms: Option<u64>, status: bool },
    /// A frame whose checksum did not match, and how many malformed frames that makes.
    BadChecksum { payload: Vec<u8>, count: u32, notice: Notice },
    /// A frame that was too long, and how many malformed frames that makes.
    TooLong { count: u32, notice: Notice },
}

/// A [`FrameLog`] with its payload as a sequence.
pub enum FrameNote {
    /// A well-formed frame.
    Raw { payload: Seq<u8>, loud: bool, gap_ms: Option<u64>, status: bool },
    /// A frame whose checksum did not match.
    BadChecksum { payload: Seq<u8>, count: u32, notice: Notice },
    /// A frame that was too long.
    TooLong { count: u32, notice: Notice },
}

impl View for FrameLog {
    type V = FrameNote;

    open spec fn view(&self) -> FrameNote {
        match *self {
            FrameLog::Raw { payload, loud, gap_ms, status } => FrameNote::Raw {
                payload: payload@,
                loud,
                gap_ms,
                status,
            },
            FrameLog::BadChecksum { payload, count, notice } => FrameNote::BadChecksum {
                payload: payload@,
                count,
                notice,
            },
            FrameLog::TooLong { count, notice } => FrameNote::TooLong { count, notice },
        }
    }
}

/// What [`MillHeater::recv_status`] made of a chunk of received bytes.
pub struct Reception {
    /// What the status frame in the chunk moved, or `None` if there was none.
    pub changed: Option<Changed>,
    /// What there is to log, in order.
    pub logs: Vec<FrameLog>,
    /// How many bytes of the chunk were taken in: up to and with the status frame, or all
    /// of them if there was none. The rest is to be handed over again.
    pub consumed: usize,
}

/// What closing a measurement period came to.
#[derive(Clone, Copy, Debug)]
pub struct ClosedPeriod {
    /// Which readings moved.
    pub moved: Accumulated,
    /// The lifetime counter as it now has to be persisted, or `None` if nothing was
    /// drawn. An idle device does not rewrite flash every tick.
    pub store: Option<[u8; ENERGY_LEN]>,
}

/// Everything the heater knows and counts.
#[derive(Clone, Copy, Debug)]
pub struct HeaterState {
    /// Malformed frames seen since boot.
    pub malformed: u32,
    /// Well-formed frames seen since boot.
    pub frames: u32,
    /// When the last well-formed frame arrived, in milliseconds since boot.
    pub last_frame_ms: Option<u64>,
    /// Whether the element is drawing power, as of the last status frame. `false` while
    /// the Mill's state is unknown - which understates the energy counters rather than
    /// inventing energy that may not have been drawn.
    pub element_on: bool,
    /// The measured room temperature in whole degC, or `None` until a status frame says
    /// otherwise.
    pub room_c: Option<u8>,
    /// The Mill's own setpoint in whole degC, as last reported.
    pub setpoint_c: Option<u8>,
    /// The Mill's own power state, as last reported.
    pub heat_mode: Option<bool>,
    /// When the last status frame arrived, in milliseconds since boot, or `None` while
    /// nothing has been heard from the Mill.
    pub last_status_ms: Option<u64>,
    /// What the element is rated at, in watts.
    pub element_watts: u16,
    /// When the counters were last brought up to date, in milliseconds since boot.
    pub mark_ms: u64,
    /// Energy drawn in the open measurement period, in milliwatt-seconds.
    pub period_mws: i64,
    /// When the open measurement period began, in milliseconds since boot.
    pub period_start_ms: u64,
    /// The last measurement period that actually drew something: the energy in it, in
    /// milliwatt-hours, and the window it covers in milliseconds since boot. `None`
    /// until the element has run at all.
    pub period: Option<(i64, u64, u64)>,
    /// Energy drawn over the device's lifetime, in milliwatt-*seconds*, so that a whole
    /// number of seconds at a whole number of milliwatts stays exact.
    pub energy_mws: i64,
    /// The lifetime figure in milliwatt-hours as last reported.
    pub reported_mwh: i64,
    /// Whether the counter started this boot at zero because there was nothing to
    /// restore - which is what a factory reset leaves behind.
    pub reset_at_boot: bool,
}

/// The quotient of `x` by a positive `d`, rounded towards zero.
pub open spec fn quotient(x: int, d: int) -> int {
    if x >= 0 {
        x / d
    } else {
        -((-x) / d)
    }
}

/// `x` as an `i64` counter shows it: itself, or what is left once the counter has rolled
/// over.
pub open spec fn rolled_over(x: int) -> i64 {
    let low = x % 0x1_0000_0000_0000_0000;
    if low > i64::MAX {
        (low - 0x1_0000_0000_0000_0000) as i64
    } else {
        low as i64
    }
}

/// How long after `since_ms` the clock reads `now_ms`; `0` if it went backwards.
pub open spec fn elapsed(since_ms: u64, now_ms: u64) -> int {
    if now_ms >= since_ms {
        now_ms - since_ms
    } else {
        0
    }
}

/// What a persisted energy counter is restored to, and whether there was nothing to
/// restore it from. A blob shorter than the counter is no counter.
pub open spec fn restored_energy(stored: Option<Seq<u8>>) -> (i64, bool) {
    match stored {
        Some(bytes) => if bytes.len() >= ENERGY_LEN {
            (crate::bytes::le_i64(bytes.take(ENERGY_LEN as int)) as i64, false)
        } else {
            (0, true)
        },
        None => (0, true),
    }
}

impl HeaterState {
    /// The power drawn right now, in milliwatts.
    pub open spec fn active_power_mw(self) -> int {
        if self.element_on {
            self.element_watts * 1000
        } else {
            0
        }
    }

    /// The current that the power drawn right now takes at the nominal supply voltage, in
    /// milliamps.
    pub open spec fn active_current_ma(self) -> int {
        self.active_power_mw() * 1000 / SUPPLY_VOLTAGE_MV as int
    }

    /// The energy drawn over the device's lifetime, in milliwatt-hours.
    pub open spec fn energy_mwh(self) -> int {
        quotient(self.energy_mws as int, 3600)
    }

    /// The energy drawn since the counters were last brought up to date, in
    /// milliwatt-seconds.
    pub open spec fn drawn_mws(self, now_ms: u64) -> int {
        quotient(
            rolled_over(
                self.active_power_mw() * rolled_over(elapsed(self.mark_ms, now_ms)),
            ) as int,
            1000,
        )
    }

    /// The state with both counters brought up to `now_ms`.
    pub open spec fn integrated(self, now_ms: u64) -> HeaterState {
        HeaterState {
            mark_ms: now_ms,
            energy_mws: rolled_over(self.energy_mws + self.drawn_mws(now_ms)),
            period_mws: rolled_over(self.period_mws + self.drawn_mws(now_ms)),
            ..self
        }
    }

    /// What [`MillHeater::new_at`] comes up with.
    pub open spec fn at_boot(
        stored: Option<Seq<u8>>,
        element_watts: u16,
        now_ms: u64,
    ) -> HeaterState {
        let (energy_mws, reset_at_boot) = restored_energy(stored);
        HeaterState {
            malformed: 0,
            frames: 0,
            last_frame_ms: None,
            element_on: false,
            room_c: None,
            setpoint_c: None,
            heat_mode: None,
            last_status_ms: None,
            element_watts,
            mark_ms: now_ms,
            period_mws: 0,
            period_start_ms: now_ms,
            period: None,
            energy_mws,
            reported_mwh: quotient(energy_mws as int, 3600) as i64,
            reset_at_boot,
        }
    }

    /// Whether anything has been heard from the Mill since boot, or since it was last
    /// given up on.
    pub open spec fn is_online(self) -> bool {
        self.last_status_ms is Some
    }

    /// What every state satisfies: while the Mill has not been heard from, nothing is
    /// known of it, and no power is metered.
    pub open spec fn wf(self) -> bool {
        !self.is_online() ==> {
            &&& self.room_c is None
            &&& self.setpoint_c is None
            &&& self.heat_mode is None
            &&& !self.element_on
        }
    }

    /// The lifetime counter as it stood when the open measurement period began, in
    /// milliwatt-seconds.
    pub open spec fn last_close_mws(self) -> i64 {
        rolled_over(self.energy_mws - self.period_mws)
    }

    /// Whether the lifetime figure last reported is the one the open measurement period
    /// began at.
    pub open spec fn tallied(self) -> bool {
        self.reported_mwh == quotient(self.last_close_mws() as int, 3600)
    }

    /// The state once the Mill has been given up on at `now_ms`: the energy drawn so far
    /// is credited at the last power there was reason to believe in, and then nothing it
    /// said counts any more.
    pub open spec fn forgotten(self, now_ms: u64) -> HeaterState {
        if self.is_online() {
            HeaterState {
                last_status_ms: None,
                setpoint_c: None,
                heat_mode: None,
                room_c: None,
                element_on: false,
                ..self.integrated(now_ms)
            }
        } else {
            self
        }
    }

    /// The readings that giving up on the Mill invalidates.
    pub open spec fn lost(self) -> Changed {
        if self.is_online() {
            Changed { room: self.room_c is Some, element: self.element_on }
        } else {
            Changed { room: false, element: false }
        }
    }

    /// The state once `status` has been reported at `now_ms`.
    ///
    /// The counters are brought up to date at the old power before the element's state
    /// changes it. A reading the frame does not carry leaves the last one standing.
    pub open spec fn applied(self, status: Status, now_ms: u64) -> HeaterState {
        let counted = if status.element_on != self.element_on {
            self.integrated(now_ms)
        } else {
            self
        };
        HeaterState {
            last_status_ms: Some(now_ms),
            element_on: status.element_on,
            setpoint_c: if status.setpoint_c is Some {
                status.setpoint_c
            } else {
                self.setpoint_c
            },
            heat_mode: if status.heat_mode is Some {
                status.heat_mode
            } else {
                self.heat_mode
            },
            room_c: if status.room_c is Some {
                status.room_c
            } else {
                self.room_c
            },
            ..counted
        }
    }

    /// The readings that `status` moves.
    pub open spec fn moved_by(self, status: Status) -> Changed {
        Changed {
            room: status.room_c is Some && status.room_c != self.room_c,
            element: status.element_on != self.element_on,
        }
    }

    /// The state once the open measurement period has been closed: the counters brought
    /// up to `mark_ms`, and the window ended at `end_ms`.
    ///
    /// A period in which nothing was drawn carries no information and is not published,
    /// but the window is still advanced, so the next period covers only the time the
    /// element actually ran.
    pub open spec fn closed(self, mark_ms: u64, end_ms: u64) -> HeaterState {
        let counted = self.integrated(mark_ms);
        let next = HeaterState { period_start_ms: end_ms, period_mws: 0, ..counted };
        if counted.period_mws == 0 {
            next
        } else {
            HeaterState {
                period: Some(
                    (
                        quotient(counted.period_mws as int, 3600) as i64,
                        self.period_start_ms,
                        end_ms,
                    ),
                ),
                reported_mwh: counted.energy_mwh() as i64,
                ..next
            }
        }
    }

    /// The readings that closing the open measurement period moves.
    pub open spec fn accumulated(self, mark_ms: u64) -> Accumulated {
        let counted = self.integrated(mark_ms);
        let drew = counted.period_mws != 0;
        Accumulated {
            cumulative: drew && counted.energy_mwh() != self.reported_mwh,
            periodic: drew,
        }
    }

    /// The state once the element's rating has been set at `now_ms`: what was drawn so
    /// far is credited at the old rating.
    pub open spec fn rerated(self, watts: u16, now_ms: u64) -> HeaterState {
        HeaterState { element_watts: watts, ..self.integrated(now_ms) }
    }

    /// How many well-formed frames there are with one more.
    pub open spec fn one_more_frame(self) -> u32 {
        if self.frames < u32::MAX {
            (self.frames + 1) as u32
        } else {
            u32::MAX
        }
    }

    /// How many malformed frames there are with one more.
    pub open spec fn one_more_malformed(self) -> u32 {
        if self.malformed < u32::MAX {
            (self.malformed + 1) as u32
        } else {
            0
        }
    }

    /// What there is to log about a well-formed frame that arrives at `now_ms`.
    pub open spec fn raw_note(self, payload: Seq<u8>, now_ms: u64) -> FrameNote {
        FrameNote::Raw {
            payload,
            loud: self.one_more_frame() <= RAW_LOG_LIMIT,
            gap_ms: match self.last_frame_ms {
                Some(previous_ms) => Some(elapsed(previous_ms, now_ms) as u64),
                None => None,
            },
            status: crate::mill::is_status(payload),
        }
    }
}

/// How loudly the malformed frame that makes it `count` is logged: loudly at first, and
/// then only by count.
pub open spec fn notice_of(count: u32) -> Notice {
    if count <= MALFORMED_LOG_LIMIT {
        Notice::Full
    } else if count % MALFORMED_TALLY == 0 {
        Notice::Tally
    } else {
        Notice::Silent
    }
}

/// The heater as its link and its state.
pub struct Link {
    /// Where in the envelope the receiver stands.
    pub phase: crate::mill::Phase,
    /// Everything the heater knows and counts.
    pub state: HeaterState,
}

impl Link {
    /// What one received byte comes to: the heater after it, the status frame it
    /// completes, and what there is to log.
    pub open spec fn decoded(
        self,
        byte: u8,
        now_ms: u64,
    ) -> (Link, Option<Status>, Option<FrameNote>) {
        let phase = self.phase.after(byte);
        match self.phase.outcome(byte) {
            None => (Link { phase, state: self.state }, None, None),
            Some(crate::mill::Outcome::Frame(payload)) => (
                Link {
                    phase,
                    state: HeaterState {
                        frames: self.state.one_more_frame(),
                        last_frame_ms: Some(now_ms),
                        ..self.state
                    },
                },
                crate::mill::status_of(payload),
                Some(self.state.raw_note(payload, now_ms)),
            ),
            Some(crate::mill::Outcome::BadChecksum(payload)) => {
                let count = self.state.one_more_malformed();
                (
                    Link { phase, state: HeaterState { malformed: count, ..self.state } },
                    None,
                    Some(FrameNote::BadChecksum { payload, count, notice: notice_of(count) }),
                )
            },
            Some(crate::mill::Outcome::TooLong) => {
                let count = self.state.one_more_malformed();
                (
                    Link { phase, state: HeaterState { malformed: count, ..self.state } },
                    None,
                    Some(FrameNote::TooLong { count, notice: notice_of(count) }),
                )
            },
        }
    }

    /// What a chunk of received bytes comes to: the heater after it, what its first
    /// status frame moved, and what there is to log.
    ///
    /// The first status frame settles the chunk; what follows it is not looked at yet.
    pub open spec fn received(
        self,
        chunk: Seq<u8>,
        now_ms: u64,
    ) -> (Link, Option<Changed>, Seq<FrameNote>)
        decreases chunk.len(),
    {
        if chunk.len() == 0 {
            (self, None, Seq::empty())
        } else {
            let (link, status, note) = self.decoded(chunk[0], now_ms);
            let notes = match note {
                Some(note) => seq![note],
                None => Seq::empty(),
            };
            match status {
                Some(status) => (
                    Link { state: link.state.applied(status, now_ms), ..link },
                    Some(link.state.moved_by(status)),
                    notes,
                ),
                None => {
                    let (last, changed, rest) = link.received(chunk.skip(1), now_ms);
                    (last, changed, notes + rest)
                },
            }
        }
    }

    /// How many bytes of a chunk are taken in: up to and with the one that completes its
    /// first status frame, or all of them if none does.
    pub open spec fn reach(self, chunk: Seq<u8>, now_ms: u64) -> nat
        decreases chunk.len(),
    {
        if chunk.len() == 0 {
            0
        } else {
            let (link, status, _) = self.decoded(chunk[0], now_ms);
            match status {
                Some(_) => 1,
                None => 1 + link.reach(chunk.skip(1), now_ms),
            }
        }
    }

    /// Whether taking in a chunk leaves `after` behind and comes to `reception`: no byte is
    /// taken in past the first status frame, and none before it is left out.
    pub open spec fn receives_to(
        self,
        after: Link,
        reception: Reception,
        chunk: Seq<u8>,
        now_ms: u64,
    ) -> bool {
        let n = reception.consumed as int;
        &&& n <= chunk.len()
        &&& n == self.reach(chunk, now_ms)
        &&& (after, reception.changed, notes_of(reception.logs@)) == self.received(
            chunk.take(n),
            now_ms,
        )
        &&& reception.changed is None ==> n == chunk.len()
        &&& reception.changed is Some ==> n > 0 && self.received(
            chunk.take(n - 1),
            now_ms,
        ).1 is None
    }

    /// What every status frame in a run of bytes moves, one after the other: what is left
    /// of the bytes after one is taken in next.
    pub open spec fn resolved(self, bytes: Seq<u8>, now_ms: u64) -> Seq<Changed>
        decreases bytes.len(),
    {
        let n = self.reach(bytes, now_ms) as int;
        let (link, changed, _) = self.received(bytes, now_ms);
        match changed {
            Some(changed) => if 0 < n <= bytes.len() {
                seq![changed] + link.resolved(bytes.skip(n), now_ms)
            } else {
                seq![changed]
            },
            None => Seq::empty(),
        }
    }
}

/// The heater: the receiving end of its link, and everything it knows and counts.
pub struct MillHeater {
    decoder: Decoder,
    state: HeaterState,
}

impl View for MillHeater {
    type V = Link;

    closed spec fn view(&self) -> Link {
        Link { phase: self.decoder.phase(), state: self.state }
    }
}

/// `x * y`, rolled over, and `x + y`, rolled over, are what the wrapping operations give.
proof fn lemma_wrapping(x: i64, y: i64)
    ensures
        x.wrapping_add(y) == rolled_over(x + y),
        x.wrapping_mul(y) == rolled_over(x * y),
{
}

/// An elapsed time as a signed number.
fn signed(ms: u64) -> (value: i64)
    ensures
        value == rolled_over(ms as int),
{
    proof {
        assert(ms <= 0x7fff_ffff_ffff_ffff ==> ms as i64 == ms) by (bit_vector);
        assert(ms > 0x7fff_ffff_ffff_ffff ==> ms as i64 == ms - 0x1_0000_0000_0000_0000)
            by (bit_vector);
    }

    ms as i64
}

impl HeaterState {
    /// The power drawn right now, in milliwatts.
    fn power(&self) -> (power: i64)
        ensures
            power == self.active_power_mw(),
    {
        if self.element_on {
            self.element_watts as i64 * 1000
        } else {
            0
        }
    }

    /// The energy drawn over the device's lifetime, in milliwatt-hours.
    fn lifetime_mwh(&self) -> (mwh: i64)
        ensures
            mwh == self.energy_mwh(),
    {
        self.energy_mws / 3600
    }

    /// Bring both energy counters up to now, at the power drawn since the last time
    /// this ran.
    ///
    /// A real meter integrates continuously; this one integrates once per sample, which
    /// is the same thing as long as the power only changes at a sample boundary - and
    /// every path that changes the power calls this first so that it does.
    pub fn integrate(&mut self, now_ms: u64)
        ensures
            *final(self) == old(self).integrated(now_ms),
    {
        let elapsed_ms: i64 = signed(now_ms.saturating_sub(self.mark_ms));
        let power: i64 = self.power();
        proof {
            lemma_wrapping(power, elapsed_ms);
        }
        let drawn_mws: i64 = power.wrapping_mul(elapsed_ms) / 1000;
        proof {
            lemma_wrapping(self.energy_mws, drawn_mws);
            lemma_wrapping(self.period_mws, drawn_mws);
        }
        self.mark_ms = now_ms;
        self.energy_mws = self.energy_mws.wrapping_add(drawn_mws);
        self.period_mws = self.period_mws.wrapping_add(drawn_mws);
    }

    /// Fold a status frame into the reported state.
    fn apply(&mut self, status: Status, now_ms: u64) -> (changed: Changed)
        ensures
            *final(self) == old(self).applied(status, now_ms),
            changed == old(self).moved_by(status),
    {
        self.last_status_ms = Some(now_ms);

        let element: bool = status.element_on != self.element_on;

        if element {
            self.integrate(now_ms);
            self.element_on = status.element_on;
        }

        if status.setpoint_c.is_some() {
            self.setpoint_c = status.setpoint_c;
        }

        if status.heat_mode.is_some() {
            self.heat_mode = status.heat_mode;
        }

        let room: bool = match (status.room_c, self.room_c) {
            (Some(new), Some(old_c)) => new != old_c,
            (Some(_), None) => true,
            (None, _) => false,
        };

        if status.room_c.is_some() {
            self.room_c = status.room_c;
        }

        Changed { room, element }
    }

    /// Count a malformed frame.
    fn count_malformed(&mut self) -> (count: u32)
        ensures
            count == old(self).one_more_malformed(),
            *final(self) == (HeaterState { malformed: count, ..*old(self) }),
    {
        let count: u32 = self.malformed.wrapping_add(1);

        self.malformed = count;

        count
    }
}

/// How loudly the malformed frame that makes it `count` is logged.
fn notice(count: u32) -> (notice: Notice)
    ensures
        notice == notice_of(count),
{
    if count <= MALFORMED_LOG_LIMIT {
        Notice::Full
    } else if count % MALFORMED_TALLY == 0 {
        Notice::Tally
    } else {
        Notice::Silent
    }
}

impl MillHeater {
    /// A heater that has not been heard from, its lifetime energy counter restored from
    /// what the key-value store holds for it, metering at `element_watts`.
    pub fn new(stored: Option<&[u8]>, element_watts: u16) -> (heater: Self)
        ensures
            heater@.phase == crate::mill::Phase::Idle,
            exists|now_ms: u64|
                heater@.state == #[trigger] HeaterState::at_boot(
                    opt_view(stored),
                    element_watts,
                    now_ms,
                ),
    {
        let now_ms: u64 = uptime_ms();

        Self::new_at(stored, element_watts, now_ms)
    }

    /// [`Self::new`], at `now_ms`.
    pub fn new_at(stored: Option<&[u8]>, element_watts: u16, now_ms: u64) -> (heater: Self)
        ensures
            heater@.phase == crate::mill::Phase::Idle,
            heater@.state == HeaterState::at_boot(opt_view(stored), element_watts, now_ms),
    {
        let mut buf: [u8; ENERGY_LEN] = [0u8; ENERGY_LEN];
        let loaded: Option<usize> = load_blob(stored, &mut buf);
        let mut energy_mws: i64 = 0;
        let mut reset_at_boot: bool = true;

        if loaded == Some(ENERGY_LEN) {
            energy_mws = i64_from_le_bytes(&buf);
            reset_at_boot = false;
            proof {
                assert(buf@ =~= opt_view(stored)->Some_0.take(ENERGY_LEN as int));
            }
        }

        MillHeater {
            decoder: Decoder::new(),
            state: HeaterState {
                malformed: 0,
                frames: 0,
                last_frame_ms: None,
                element_on: false,
                room_c: None,
                setpoint_c: None,
                heat_mode: None,
                last_status_ms: None,
                element_watts,
                mark_ms: now_ms,
                period_mws: 0,
                period_start_ms: now_ms,
                period: None,
                energy_mws,
                reported_mwh: energy_mws / 3600,
                reset_at_boot,
            },
        }
    }
}

impl MillHeater {
    /// Whether the element is drawing power, as last reported.
    pub fn heating(&self) -> (on: bool)
        ensures
            on == self@.state.element_on,
    {
        self.state.element_on
    }

    /// The measured room temperature in 0.01degC, or `None` while the Mill's reading is
    /// unknown or stale.
    pub fn room_temperature(&self) -> (centi: Option<i16>)
        ensures
            centi == centidegrees_of(self@.state.room_c),
    {
        centidegrees(self.state.room_c)
    }

    /// The Mill's own target temperature in 0.01degC, as last reported.
    pub fn reported_setpoint(&self) -> (centi: Option<i16>)
        ensures
            centi == centidegrees_of(self@.state.setpoint_c),
    {
        centidegrees(self.state.setpoint_c)
    }

    /// Whether the Mill reports itself in heat mode, as last reported.
    pub fn reported_heat_mode(&self) -> (heat: Option<bool>)
        ensures
            heat == self@.state.heat_mode,
    {
        self.state.heat_mode
    }

    /// Whether anything has been heard from the Mill since boot (or since the last
    /// timeout).
    pub fn is_online(&self) -> (online: bool)
        ensures
            online == self@.state.is_online(),
    {
        self.state.last_status_ms.is_some()
    }

    /// The frame that asks the Mill to turn heating on or off.
    pub fn request_power(&self, heat: bool) -> (frame: [u8; COMMAND_LEN])
        ensures
            frame@ == crate::mill::framed(crate::mill::power_payload(heat)),
    {
        power_command(heat)
    }

    /// The frame that asks the Mill for a target temperature in whole degC.
    pub fn request_setpoint(&self, celsius: u8) -> (frame: [u8; COMMAND_LEN])
        ensures
            frame@ == crate::mill::framed(crate::mill::setpoint_payload(celsius)),
    {
        setpoint_command(celsius)
    }

    /// Take in a chunk of received bytes, up to the first status frame it completes, and
    /// fold that into the reported state. What follows it in the chunk is not taken in, and
    /// is to be handed over again: [`Reception::consumed`] says from where.
    ///
    /// Frames that are not status frames, and frames that fail their checksum, are
    /// counted, noted for the log and skipped. Every status frame resolves, even one
    /// that says exactly what the last one said: a steady-state heater repeating itself
    /// must not look like a heater that has stopped talking.
    pub fn recv_status(&mut self, chunk: &[u8]) -> (reception: Reception)
        ensures
            exists|now_ms: u64|
                #[trigger] old(self)@.receives_to(final(self)@, reception, chunk@, now_ms),
    {
        let now_ms: u64 = uptime_ms();

        self.recv_status_at(chunk, now_ms)
    }

    /// [`Self::recv_status`], at `now_ms`.
    pub fn recv_status_at(&mut self, chunk: &[u8], now_ms: u64) -> (reception: Reception)
        ensures
            old(self)@.receives_to(final(self)@, reception, chunk@, now_ms),
    {
        let mut logs: Vec<FrameLog> = Vec::new();
        let mut i: usize = 0;
        let ghost whole = self@.received(chunk@, now_ms);
        proof {
            lemma_reach(self@, chunk@, now_ms);
            assert(chunk@.skip(0) =~= chunk@);
            assert(notes_of(logs@) + whole.2 =~= whole.2);
        }

        while i < chunk.len()
            invariant
                i <= chunk@.len(),
                ({
                    let (link, changed, notes) = self@.received(chunk@.skip(i as int), now_ms);
                    whole == (link, changed, notes_of(logs@) + notes)
                }),
                whole == old(self)@.received(chunk@, now_ms),
                old(self)@.reach(chunk@, now_ms) == i + self@.reach(
                    chunk@.skip(i as int),
                    now_ms,
                ),
                ({
                    let n = old(self)@.reach(chunk@, now_ms) as int;
                    &&& n <= chunk@.len()
                    &&& whole == old(self)@.received(chunk@.take(n), now_ms)
                    &&& whole.1 is None ==> n == chunk@.len()
                    &&& whole.1 is Some ==> n > 0 && old(self)@.received(
                        chunk@.take(n - 1),
                        now_ms,
                    ).1 is None
                }),
            decreases chunk@.len() - i,
        {
            let ghost before = self@;
            let ghost logged = logs@;
            let ghost rest = chunk@.skip(i as int);
            proof {
                assert(rest[0] == chunk@[i as int]);
                assert(rest.skip(1) =~= chunk@.skip(i + 1));
            }
            let (status, log) = self.decode_at(chunk[i], now_ms);

            if let Some(log) = log {
                logs.push(log);
            }
            proof {
                let (link, heard, note) = before.decoded(rest[0], now_ms);
                let notes = match note {
                    Some(note) => seq![note],
                    None => Seq::empty(),
                };
                assert(notes_of(logs@) =~= notes_of(logged) + notes);
                let (last, changed, later) = link.received(rest.skip(1), now_ms);
                assert(notes_of(logged) + (notes + later) =~= notes_of(logs@) + later);
            }

            if let Some(status) = status {
                let changed: Changed = self.state.apply(status, now_ms);

                return Reception { changed: Some(changed), logs, consumed: i + 1 };
            }
            i += 1;
        }
        proof {
            assert(chunk@.skip(i as int) =~= Seq::<u8>::empty());
            assert(notes_of(logs@) + Seq::<FrameNote>::empty() =~= notes_of(logs@));
        }

        Reception { changed: None, logs, consumed: i }
    }

    /// Feed one received byte to the decoder, returning a parsed status frame and what
    /// there is to log.
    pub fn decode_at(
        &mut self,
        byte: u8,
        now_ms: u64,
    ) -> (decoded: (Option<Status>, Option<FrameLog>))
        ensures
            ({
                let (link, status, note) = old(self)@.decoded(byte, now_ms);
                &&& final(self)@ == link
                &&& decoded.0 == status
                &&& opt_note(decoded.1) == note
            }),
    {
        match self.decoder.push(byte) {
            None => (None, None),
            Some(Received::Frame(payload)) => {
                let gap_ms: Option<u64> = match self.state.last_frame_ms {
                    Some(previous_ms) => Some(now_ms.saturating_sub(previous_ms)),
                    None => None,
                };
                let count: u32 = self.state.frames.saturating_add(1);

                self.state.last_frame_ms = Some(now_ms);
                self.state.frames = count;

                let status: Option<Status> = Status::parse(payload);
                let log: FrameLog = FrameLog::Raw {
                    payload: vstd::slice::slice_to_vec(payload),
                    loud: count <= RAW_LOG_LIMIT,
                    gap_ms,
                    status: status.is_some(),
                };

                (status, Some(log))
            },
            Some(Received::BadChecksum(payload)) => {
                let count: u32 = self.state.count_malformed();
                let log: FrameLog = FrameLog::BadChecksum {
                    payload: vstd::slice::slice_to_vec(payload),
                    count,
                    notice: notice(count),
                };

                (None, Some(log))
            },
            Some(Received::TooLong) => {
                let count: u32 = self.state.count_malformed();

                (None, Some(FrameLog::TooLong { count, notice: notice(count) }))
            },
        }
    }

    /// Give up on everything the Mill last said, because it has gone quiet.
    ///
    /// Returns which readings that invalidated, so the cluster can re-report them as
    /// null.
    pub fn forget(&mut self) -> (changed: Changed)
        ensures
            final(self)@.phase == old(self)@.phase,
            exists|now_ms: u64|
                final(self)@.state == #[trigger] old(self)@.state.forgotten(now_ms),
            changed == old(self)@.state.lost(),
    {
        let now_ms: u64 = uptime_ms();

        self.forget_at(now_ms)
    }

    /// [`Self::forget`], at `now_ms`.
    pub fn forget_at(&mut self, now_ms: u64) -> (changed: Changed)
        ensures
            final(self)@.phase == old(self)@.phase,
            final(self)@.state == old(self)@.state.forgotten(now_ms),
            changed == old(self)@.state.lost(),
    {
        if !self.is_online() {
            return Changed { room: false, element: false };
        }
        // Credit the energy drawn up to now at the last power there was reason to
        // believe in, before the element is assumed off.

        self.state.integrate(now_ms);

        let changed: Changed = Changed {
            room: self.state.room_c.is_some(),
            element: self.state.element_on,
        };

        // Back to knowing nothing, so the next frame to arrive is a first frame again.
        self.state.last_status_ms = None;
        self.state.setpoint_c = None;
        self.state.heat_mode = None;
        self.state.room_c = None;
        self.state.element_on = false;

        changed
    }

    /// The power drawn right now, in milliwatts.
    pub fn active_power_mw(&self) -> (power: i64)
        ensures
            power == self@.state.active_power_mw(),
    {
        self.state.power()
    }

    /// The current drawn right now, in milliamps, derived from the power and the nominal
    /// supply voltage.
    pub fn active_current_ma(&self) -> (current: i64)
        ensures
            current == self@.state.active_power_mw() * 1000 / SUPPLY_VOLTAGE_MV as int,
            current == self@.state.active_current_ma(),
    {
        self.active_power_mw() * 1000 / SUPPLY_VOLTAGE_MV
    }

    /// The energy drawn over the device's lifetime, in milliwatt-hours.
    pub fn energy_mwh(&self) -> (mwh: i64)
        ensures
            mwh == self@.state.energy_mwh(),
    {
        self.state.lifetime_mwh()
    }

    /// Whether the lifetime counter was zeroed at this boot, as far as the device can
    /// tell: nothing was there to restore. Anything earlier is unknown.
    pub fn reset_at_boot(&self) -> (reset: bool)
        ensures
            reset == self@.state.reset_at_boot,
    {
        self.state.reset_at_boot
    }

    /// The last measurement period that drew anything: its energy in milliwatt-hours,
    /// and the window it covers in milliseconds since boot.
    pub fn last_period(&self) -> (period: Option<(i64, u64, u64)>)
        ensures
            period == self@.state.period,
    {
        self.state.period
    }

    /// Close the open measurement period and report which readings moved.
    pub fn close_period(&mut self) -> (closed: ClosedPeriod)
        ensures
            exists|mark_ms: u64, end_ms: u64|
                #![trigger old(self)@.state.closed(mark_ms, end_ms)]
                old(self)@.closes_to(final(self)@, closed, mark_ms, end_ms),
    {
        let mark_ms: u64 = uptime_ms();
        let end_ms: u64 = uptime_ms();

        self.close_period_at(mark_ms, end_ms)
    }

    /// [`Self::close_period`], with the counters brought up to `mark_ms` and the window
    /// ended at `end_ms`.
    pub fn close_period_at(&mut self, mark_ms: u64, end_ms: u64) -> (closed: ClosedPeriod)
        ensures
            old(self)@.closes_to(final(self)@, closed, mark_ms, end_ms),
    {
        self.state.integrate(mark_ms);

        let start_ms: u64 = self.state.period_start_ms;
        let drawn_mws: i64 = self.state.period_mws;

        self.state.period_start_ms = end_ms;
        self.state.period_mws = 0;

        if drawn_mws == 0 {
            return ClosedPeriod {
                moved: Accumulated { cumulative: false, periodic: false },
                store: None,
            };
        }
        self.state.period = Some((drawn_mws / 3600, start_ms, end_ms));

        let reported_mwh: i64 = self.state.reported_mwh;
        let lifetime_mwh: i64 = self.state.lifetime_mwh();

        self.state.reported_mwh = lifetime_mwh;

        ClosedPeriod {
            moved: Accumulated { cumulative: lifetime_mwh != reported_mwh, periodic: true },
            store: Some(i64_to_le_bytes(self.state.energy_mws)),
        }
    }

    /// Meter the element at `watts` from now on.
    pub fn set_element_watts(&mut self, watts: u16)
        ensures
            final(self)@.phase == old(self)@.phase,
            exists|now_ms: u64|
                final(self)@.state == #[trigger] old(self)@.state.rerated(watts, now_ms),
    {
        let now_ms: u64 = uptime_ms();

        self.set_element_watts_at(watts, now_ms)
    }

    /// [`Self::set_element_watts`], at `now_ms`.
    pub fn set_element_watts_at(&mut self, watts: u16, now_ms: u64)
        ensures
            final(self)@.phase == old(self)@.phase,
            final(self)@.state == old(self)@.state.rerated(watts, now_ms),
    {
        self.state.integrate(now_ms);
        self.state.element_watts = watts;
    }
}

impl Link {
    /// Whether closing the open measurement period leaves `after` behind and comes to
    /// `closed`: the lifetime counter is to be persisted if and only if anything was
    /// drawn.
    pub open spec fn closes_to(
        self,
        after: Link,
        closed: ClosedPeriod,
        mark_ms: u64,
        end_ms: u64,
    ) -> bool {
        &&& after.phase == self.phase
        &&& after.state == self.state.closed(mark_ms, end_ms)
        &&& closed.moved == self.state.accumulated(mark_ms)
        &&& closed.store is Some <==> closed.moved.periodic
        &&& closed.store matches Some(bytes) ==> crate::bytes::le_i64(bytes@)
            == after.state.energy_mws
    }
}

/// Whole degrees as the hundredths the clusters serve.
pub open spec fn centidegrees_of(celsius: Option<u8>) -> Option<i16> {
    match celsius {
        Some(celsius) => Some((celsius * 100) as i16),
        None => None,
    }
}

/// Whole degrees as the hundredths the clusters serve.
fn centidegrees(celsius: Option<u8>) -> (centi: Option<i16>)
    ensures
        centi == centidegrees_of(celsius),
{
    match celsius {
        Some(celsius) => Some(celsius as i16 * 100),
        None => None,
    }
}

/// Log entries with their payloads as sequences.
pub open spec fn notes_of(logs: Seq<FrameLog>) -> Seq<FrameNote> {
    logs.map_values(|log: FrameLog| log@)
}

/// A log entry that may be absent, with its payload as a sequence.
pub open spec fn opt_note(log: Option<FrameLog>) -> Option<FrameNote> {
    match log {
        Some(log) => Some(log@),
        None => None,
    }
}

/// The contents of a blob that may be absent.
pub open spec fn opt_view(stored: Option<&[u8]>) -> Option<Seq<u8>> {
    match stored {
        Some(bytes) => Some(bytes@),
        None => None,
    }
}

/// Whether the energy drawn by `now_ms` can be computed in an `i64`. At the highest
/// rating there is, a sample would have to be four years late for it not to be.
pub open spec fn countable(s: HeaterState, now_ms: u64) -> bool {
    s.active_power_mw() * elapsed(s.mark_ms, now_ms) <= i64::MAX
}

/// The energy drawn since the counters were last brought up to date is exactly the power
/// times the time: nothing is lost to rounding. In milliwatt-seconds that is watts times
/// milliseconds.
pub proof fn law_drawn_is_exact(s: HeaterState, now_ms: u64)
    requires
        countable(s, now_ms),
    ensures
        s.drawn_mws(now_ms) == if s.element_on {
            s.element_watts * elapsed(s.mark_ms, now_ms)
        } else {
            0
        },
{
    let ms = elapsed(s.mark_ms, now_ms);
    let watts = s.element_watts as int;
    let power = s.active_power_mw();
    if power == 0 {
        assert(power * rolled_over(ms) == 0) by (nonlinear_arith)
            requires
                power == 0,
        ;
        assert(watts == 0 ==> watts * ms == 0) by (nonlinear_arith);
    } else {
        assert(ms <= i64::MAX) by (nonlinear_arith)
            requires
                power >= 1,
                ms >= 0,
                power * ms <= i64::MAX,
        ;
        assert(rolled_over(ms) == ms);
        assert((watts * 1000) * ms == (watts * ms) * 1000) by (nonlinear_arith);
        assert(watts * ms >= 0) by (nonlinear_arith)
            requires
                watts >= 0,
                ms >= 0,
        ;
        assert(rolled_over((watts * ms) * 1000) == (watts * ms) * 1000);
    }
}

/// The lifetime energy counter never goes down, short of rolling over.
pub proof fn law_energy_is_monotone(s: HeaterState, now_ms: u64)
    requires
        countable(s, now_ms),
        s.energy_mws + s.drawn_mws(now_ms) <= i64::MAX,
    ensures
        s.integrated(now_ms).energy_mws == s.energy_mws + s.drawn_mws(now_ms),
        s.integrated(now_ms).energy_mws >= s.energy_mws,
        s.integrated(now_ms).energy_mwh() >= s.energy_mwh(),
{
    law_drawn_is_exact(s, now_ms);
    let watts = s.element_watts as int;
    let ms = elapsed(s.mark_ms, now_ms);
    assert(watts * ms >= 0) by (nonlinear_arith)
        requires
            watts >= 0,
            ms >= 0,
    ;
}

/// The measurement period and the lifetime counter are always credited with the same
/// energy, so the periods add up to the lifetime total.
pub proof fn law_periods_add_up(s: HeaterState, now_ms: u64)
    requires
        i64::MIN <= s.energy_mws + s.drawn_mws(now_ms) <= i64::MAX,
        i64::MIN <= s.period_mws + s.drawn_mws(now_ms) <= i64::MAX,
    ensures
        s.integrated(now_ms).energy_mws - s.energy_mws == s.integrated(now_ms).period_mws
            - s.period_mws,
{
}

/// How often the meter is sampled makes no difference: bringing the counters up to date
/// on the way to `end_ms` leaves exactly what bringing them up to date at `end_ms` does.
pub proof fn law_sampling_is_immaterial(s: HeaterState, mid_ms: u64, end_ms: u64)
    requires
        s.mark_ms <= mid_ms <= end_ms,
        countable(s, end_ms),
    ensures
        s.integrated(mid_ms).integrated(end_ms) == s.integrated(end_ms),
{
    let mid = s.integrated(mid_ms);
    let power = s.active_power_mw();
    assert(power * (mid_ms - s.mark_ms) <= power * (end_ms - s.mark_ms)) by (nonlinear_arith)
        requires
            power >= 0,
            mid_ms <= end_ms,
    ;
    assert(power * (end_ms - mid_ms) <= power * (end_ms - s.mark_ms)) by (nonlinear_arith)
        requires
            power >= 0,
            s.mark_ms <= mid_ms,
    ;
    law_drawn_is_exact(s, mid_ms);
    law_drawn_is_exact(mid, end_ms);
    law_drawn_is_exact(s, end_ms);
    let watts = s.element_watts as int;
    let first = mid_ms - s.mark_ms;
    let second = end_ms - mid_ms;
    assert(watts * first + watts * second == watts * (first + second)) by (nonlinear_arith);
    lemma_rolled_over_twice(s.energy_mws as int, s.drawn_mws(mid_ms), mid.drawn_mws(end_ms));
    lemma_rolled_over_twice(s.period_mws as int, s.drawn_mws(mid_ms), mid.drawn_mws(end_ms));
}

/// Between two switches of the element, however the time is cut into samples, both counters
/// are credited with the rating times the time it was on for, short of rolling over.
#[verifier::spinoff_prover]
pub proof fn law_energy_is_rating_times_time(s: HeaterState, mid_ms: u64, end_ms: u64)
    requires
        s.mark_ms <= mid_ms <= end_ms,
        countable(s, end_ms),
        s.energy_mws + s.element_watts * (end_ms - s.mark_ms) <= i64::MAX,
        s.period_mws + s.element_watts * (end_ms - s.mark_ms) <= i64::MAX,
    ensures
        ({
            let sampled = s.integrated(mid_ms).integrated(end_ms);
            let drawn = if s.element_on {
                s.element_watts * (end_ms - s.mark_ms)
            } else {
                0
            };
            &&& sampled.energy_mws == s.energy_mws + drawn
            &&& sampled.period_mws == s.period_mws + drawn
        }),
{
    law_sampling_is_immaterial(s, mid_ms, end_ms);
    law_drawn_is_exact(s, end_ms);
    let most = s.element_watts * (end_ms - s.mark_ms);
    assert(most >= 0) by (nonlinear_arith)
        requires
            most == s.element_watts * (end_ms - s.mark_ms),
            end_ms >= s.mark_ms,
    ;
    let drawn = s.drawn_mws(end_ms);
    assert(0 <= drawn <= most);
    lemma_not_rolled_over((s.energy_mws + drawn) as i64);
    lemma_not_rolled_over((s.period_mws + drawn) as i64);
}

/// A clock that reads earlier than it last did credits nothing.
pub proof fn law_clock_going_back_credits_nothing(s: HeaterState, now_ms: u64)
    requires
        now_ms <= s.mark_ms,
    ensures
        s.integrated(now_ms) == (HeaterState { mark_ms: now_ms, ..s }),
{
    let power = s.active_power_mw();
    assert(elapsed(s.mark_ms, now_ms) == 0);
    assert(rolled_over(0) == 0);
    assert(power * 0 == 0) by (nonlinear_arith);
    assert(s.drawn_mws(now_ms) == 0);
    lemma_not_rolled_over(s.energy_mws);
    lemma_not_rolled_over(s.period_mws);
}

/// Adding on a counter that rolls over can be done in steps.
proof fn lemma_rolled_over_twice(x: int, y: int, z: int)
    ensures
        rolled_over(rolled_over(x + y) + z) == rolled_over(x + y + z),
{
    let m = 0x1_0000_0000_0000_0000int;
    let a = x + y;
    let r = rolled_over(a) as int;
    assert(r % m == a % m);
    assert((r + z) % m == (a + z) % m) by {
        assert(r - a == m * ((r - a) / m)) by {
            assert((r - a) % m == 0);
        }
        vstd::arithmetic::div_mod::lemma_mod_multiples_vanish((r - a) / m, a + z, m);
    }
}

/// No energy is credited at a power that was never drawn: a status frame that switches
/// the element credits what was drawn before it at the power before it, and one that
/// does not leaves the counters to the next sample.
pub proof fn law_switching_credits_the_old_power(s: HeaterState, status: Status, now_ms: u64)
    ensures
        status.element_on != s.element_on ==> {
            &&& s.applied(status, now_ms).energy_mws == s.integrated(now_ms).energy_mws
            &&& s.applied(status, now_ms).period_mws == s.integrated(now_ms).period_mws
            &&& s.applied(status, now_ms).mark_ms == now_ms
        },
        status.element_on == s.element_on ==> {
            &&& s.applied(status, now_ms).energy_mws == s.energy_mws
            &&& s.applied(status, now_ms).period_mws == s.period_mws
            &&& s.applied(status, now_ms).mark_ms == s.mark_ms
        },
{
}

/// Correcting the rating is safe: the lifetime total becomes the sum of two segments,
/// each at the rating in force while it was drawn.
#[verifier::spinoff_prover]
pub proof fn law_rerating_sums_two_segments(
    s: HeaterState,
    watts: u16,
    changed_ms: u64,
    now_ms: u64,
)
    requires
        s.element_on,
        s.mark_ms <= changed_ms <= now_ms,
        countable(s, changed_ms),
        countable(s.rerated(watts, changed_ms), now_ms),
        s.energy_mws + s.element_watts * (changed_ms - s.mark_ms) + watts * (now_ms - changed_ms)
            <= i64::MAX,
    ensures
        s.rerated(watts, changed_ms).integrated(now_ms).energy_mws == s.energy_mws
            + s.element_watts * (changed_ms - s.mark_ms) + watts * (now_ms - changed_ms),
{
    let changed = s.rerated(watts, changed_ms);
    let first = s.element_watts * (changed_ms - s.mark_ms);
    let second = watts * (now_ms - changed_ms);
    assert(first >= 0) by (nonlinear_arith)
        requires
            first == s.element_watts * (changed_ms - s.mark_ms),
            changed_ms >= s.mark_ms,
    ;
    assert(second >= 0) by (nonlinear_arith)
        requires
            second == watts * (now_ms - changed_ms),
            now_ms >= changed_ms,
    ;
    law_drawn_is_exact(s, changed_ms);
    assert(s.drawn_mws(changed_ms) == first);
    law_energy_is_monotone(s, changed_ms);
    assert(changed.energy_mws == s.energy_mws + first);
    law_drawn_is_exact(changed, now_ms);
    assert(changed.drawn_mws(now_ms) == second);
    law_energy_is_monotone(changed, now_ms);
}

/// Power-cycling the board keeps the energy counter: what closing a period hands over to
/// be persisted is what the next boot restores.
pub proof fn law_counter_survives_a_power_cycle(
    before: Link,
    after: Link,
    closed: ClosedPeriod,
    mark_ms: u64,
    end_ms: u64,
    watts: u16,
    boot_ms: u64,
)
    requires
        before.closes_to(after, closed, mark_ms, end_ms),
        closed.store is Some,
    ensures
        ({
            let booted = HeaterState::at_boot(Some(closed.store->Some_0@), watts, boot_ms);
            &&& booted.energy_mws == after.state.energy_mws
            &&& booted.reported_mwh == after.state.energy_mwh()
            &&& !booted.reset_at_boot
        }),
{
    let bytes = closed.store->Some_0@;
    assert(bytes.take(ENERGY_LEN as int) =~= bytes);
}

/// With nothing to restore, the counter starts at zero and says so.
pub proof fn law_reset_board_starts_at_zero(watts: u16, boot_ms: u64)
    ensures
        HeaterState::at_boot(None, watts, boot_ms).energy_mws == 0,
        HeaterState::at_boot(None, watts, boot_ms).reset_at_boot,
        HeaterState::at_boot(None, watts, boot_ms).period is None,
{
}

/// An idle heater reports nothing and has nothing persisted, however often its period is
/// closed, and its lifetime total does not move.
pub proof fn law_idle_periods_are_silent(
    before: Link,
    after: Link,
    closed: ClosedPeriod,
    mark_ms: u64,
    end_ms: u64,
)
    requires
        before.closes_to(after, closed, mark_ms, end_ms),
        !before.state.element_on,
        before.state.period_mws == 0,
    ensures
        closed.moved == (Accumulated { cumulative: false, periodic: false }),
        closed.store is None,
        after.state.energy_mws == before.state.energy_mws,
        after.state.period == before.state.period,
        after.state.period_mws == 0,
        !after.state.element_on,
{
    let s = before.state;
    let ms = rolled_over(elapsed(s.mark_ms, mark_ms)) as int;
    assert(0 * ms == 0) by (nonlinear_arith);
    assert(s.drawn_mws(mark_ms) == 0);
}

/// Closing a period ends one window where the next one starts, and leaves nothing drawn
/// in it.
pub proof fn law_windows_are_contiguous(s: HeaterState, mark_ms: u64, end_ms: u64)
    ensures
        s.closed(mark_ms, end_ms).period_start_ms == end_ms,
        s.closed(mark_ms, end_ms).period_mws == 0,
        s.accumulated(mark_ms).periodic ==> {
            &&& s.closed(mark_ms, end_ms).period matches Some((_, from, to)) && from
                == s.period_start_ms && to == end_ms
        },
{
}

/// No reading outlives the link: every operation keeps it so that, while the Mill has not
/// been heard from, nothing is known of it and no power is metered.
pub proof fn law_nothing_is_known_offline(
    link: Link,
    stored: Option<Seq<u8>>,
    status: Status,
    byte: u8,
    chunk: Seq<u8>,
    watts: u16,
    now_ms: u64,
    end_ms: u64,
)
    requires
        link.state.wf(),
    ensures
        HeaterState::at_boot(stored, watts, now_ms).wf(),
        link.decoded(byte, now_ms).0.state.wf(),
        link.received(chunk, now_ms).0.state.wf(),
        link.state.applied(status, now_ms).wf(),
        link.state.forgotten(now_ms).wf(),
        link.state.closed(now_ms, end_ms).wf(),
        link.state.rerated(watts, now_ms).wf(),
{
    lemma_receiving_keeps(link, chunk, now_ms);
}

/// Only setting the rating moves the rating.
pub proof fn law_rating_is_only_set(
    link: Link,
    status: Status,
    byte: u8,
    chunk: Seq<u8>,
    now_ms: u64,
    end_ms: u64,
)
    ensures
        link.decoded(byte, now_ms).0.state.element_watts == link.state.element_watts,
        link.received(chunk, now_ms).0.state.element_watts == link.state.element_watts,
        link.state.applied(status, now_ms).element_watts == link.state.element_watts,
        link.state.forgotten(now_ms).element_watts == link.state.element_watts,
        link.state.closed(now_ms, end_ms).element_watts == link.state.element_watts,
{
    lemma_receiving_keeps(link, chunk, now_ms);
}

/// What receiving a chunk leaves as it was, of what every operation keeps.
proof fn lemma_receiving_keeps(link: Link, chunk: Seq<u8>, now_ms: u64)
    ensures
        ({
            let after = link.received(chunk, now_ms).0.state;
            &&& link.state.wf() ==> after.wf()
            &&& after.element_watts == link.state.element_watts
            &&& link.state.tallied() ==> after.tallied()
        }),
    decreases chunk.len(),
{
    if chunk.len() > 0 {
        let (next, status, _) = link.decoded(chunk[0], now_ms);
        match status {
            Some(status) => {
                lemma_integrating_keeps_the_tally(next.state, now_ms);
            },
            None => {
                lemma_receiving_keeps(next, chunk.skip(1), now_ms);
            },
        }
    }
}

/// Crediting the same energy to both counters leaves their difference as it was.
proof fn lemma_integrating_keeps_the_tally(s: HeaterState, now_ms: u64)
    ensures
        s.integrated(now_ms).last_close_mws() == s.last_close_mws(),
{
    lemma_rolled_over_difference(
        s.energy_mws as int,
        s.period_mws as int,
        s.drawn_mws(now_ms),
    );
}

/// Adding the same to two counters that roll over leaves their difference as it was.
proof fn lemma_rolled_over_difference(x: int, y: int, z: int)
    ensures
        rolled_over(rolled_over(x + z) - rolled_over(y + z)) == rolled_over(x - y),
{
    let m = 0x1_0000_0000_0000_0000int;
    let a = rolled_over(x + z) as int;
    let b = rolled_over(y + z) as int;
    assert((a - (x + z)) % m == 0);
    assert((b - (y + z)) % m == 0);
    let p = (a - (x + z)) / m;
    let q = (b - (y + z)) / m;
    assert(a - (x + z) == m * p);
    assert(b - (y + z) == m * q);
    assert(a - b == m * (p - q) + (x - y)) by (nonlinear_arith)
        requires
            a - (x + z) == m * p,
            b - (y + z) == m * q,
    ;
    vstd::arithmetic::div_mod::lemma_mod_multiples_vanish(p - q, x - y, m);
}

/// The lifetime total as last reported is the one that the previous measurement period was
/// closed at: every operation keeps it so, and closing a period leaves it at the total
/// there is. So a period is said to have moved the total exactly where the
/// total differs, in whole milliwatt-hours, from the one at the close before it.
#[verifier::spinoff_prover]
pub proof fn law_reported_total_is_the_last_close(
    link: Link,
    stored: Option<Seq<u8>>,
    status: Status,
    chunk: Seq<u8>,
    watts: u16,
    now_ms: u64,
    end_ms: u64,
)
    requires
        link.state.tallied(),
    ensures
        HeaterState::at_boot(stored, watts, now_ms).tallied(),
        link.received(chunk, now_ms).0.state.tallied(),
        link.state.applied(status, now_ms).tallied(),
        link.state.forgotten(now_ms).tallied(),
        link.state.rerated(watts, now_ms).tallied(),
        ({
            let after = link.state.closed(now_ms, end_ms);
            &&& after.tallied()
            &&& after.reported_mwh == after.energy_mwh()
            &&& link.state.accumulated(now_ms).cumulative <==> after.energy_mwh() != quotient(
                link.state.last_close_mws() as int,
                3600,
            )
        }),
{
    let s = link.state;
    let counted = s.integrated(now_ms);
    lemma_receiving_keeps(link, chunk, now_ms);
    lemma_integrating_keeps_the_tally(s, now_ms);
    assert(s.rerated(watts, now_ms).last_close_mws() == counted.last_close_mws());
    assert(s.forgotten(now_ms).tallied());
    assert(s.applied(status, now_ms).tallied());
    lemma_closing_keeps_the_tally(s, now_ms, end_ms);
    let booted = HeaterState::at_boot(stored, watts, now_ms);
    lemma_not_rolled_over(booted.energy_mws);
    assert(booted.last_close_mws() == booted.energy_mws);
}

/// What a counter shows is what it shows once it has rolled over.
proof fn lemma_not_rolled_over(x: i64)
    ensures
        rolled_over(x as int) == x,
{
}

/// Closing a period reports the total there is.
proof fn lemma_closing_keeps_the_tally(s: HeaterState, mark_ms: u64, end_ms: u64)
    requires
        s.tallied(),
    ensures
        ({
            let after = s.closed(mark_ms, end_ms);
            &&& after.tallied()
            &&& after.reported_mwh == after.energy_mwh()
            &&& s.accumulated(mark_ms).cumulative <==> after.energy_mwh() != quotient(
                s.last_close_mws() as int,
                3600,
            )
        }),
{
    let counted = s.integrated(mark_ms);
    let after = s.closed(mark_ms, end_ms);
    lemma_integrating_keeps_the_tally(s, mark_ms);
    lemma_not_rolled_over(counted.energy_mws);
    assert(after.energy_mws == counted.energy_mws);
    assert(after.period_mws == 0);
    assert(after.last_close_mws() == after.energy_mws);
    if counted.period_mws == 0 {
        assert(counted.last_close_mws() == counted.energy_mws);
        assert(after.reported_mwh == s.reported_mwh);
    } else {
        assert(after.reported_mwh == counted.energy_mwh());
    }
}

/// Giving up on the Mill leaves nothing it said standing: no reading, no setpoint, no
/// mode, no power. Giving up again changes nothing and reports nothing.
pub proof fn law_forgetting_is_complete(s: HeaterState, now_ms: u64, later_ms: u64)
    requires
        s.is_online(),
    ensures
        ({
            let f = s.forgotten(now_ms);
            &&& !f.is_online()
            &&& f.room_c is None
            &&& f.setpoint_c is None
            &&& f.heat_mode is None
            &&& f.active_power_mw() == 0
            &&& f.energy_mws == s.integrated(now_ms).energy_mws
            &&& f.forgotten(later_ms) == f
            &&& f.lost() == (Changed { room: false, element: false })
        }),
{
}

/// A frame that carries no reading leaves the last one standing; one that carries a
/// reading replaces it.
pub proof fn law_null_means_no_news(s: HeaterState, status: Status, now_ms: u64)
    ensures
        ({
            let a = s.applied(status, now_ms);
            &&& a.is_online()
            &&& a.room_c == if status.room_c is Some { status.room_c } else { s.room_c }
            &&& a.setpoint_c == if status.setpoint_c is Some {
                status.setpoint_c
            } else {
                s.setpoint_c
            }
            &&& a.heat_mode == if status.heat_mode is Some { status.heat_mode } else { s.heat_mode }
        }),
{
}

/// A heater that repeats itself moves nothing, but is still heard from.
pub proof fn law_repetition_moves_nothing(
    s: HeaterState,
    status: Status,
    now_ms: u64,
    later_ms: u64,
)
    ensures
        s.applied(status, now_ms).moved_by(status) == (Changed { room: false, element: false }),
        s.applied(status, now_ms).applied(status, later_ms).last_status_ms == Some(later_ms),
        s.applied(status, now_ms).applied(status, later_ms) == (HeaterState {
            last_status_ms: Some(later_ms),
            ..s.applied(status, now_ms)
        }),
{
}

/// A chunk that holds exactly one status frame, received between frames, is folded into
/// the state whole.
pub proof fn law_status_frame_is_taken_up(link: Link, payload: Seq<u8>, now_ms: u64)
    requires
        link.phase == crate::mill::Phase::Idle,
        crate::mill::framable(payload),
        crate::mill::is_status(payload),
    ensures
        ({
            let (after, changed, notes) = link.received(crate::mill::framed(payload), now_ms);
            let heard = HeaterState {
                frames: link.state.one_more_frame(),
                last_frame_ms: Some(now_ms),
                ..link.state
            };
            &&& after.phase == crate::mill::Phase::Idle
            &&& after.state == heard.applied(crate::mill::status_of(payload)->Some_0, now_ms)
            &&& changed == Some(heard.moved_by(crate::mill::status_of(payload)->Some_0))
            &&& notes == seq![link.state.raw_note(payload, now_ms)]
            &&& link.reach(crate::mill::framed(payload), now_ms) == crate::mill::framed(
                payload,
            ).len()
        }),
{
    let frame = crate::mill::framed(payload);
    let body = payload.push(crate::mill::checksum_of(payload));
    assert forall|i: int| 0 <= i < body.len() implies body[i] != crate::mill::END by {
        if i < payload.len() {
            assert(payload.contains(payload[i]));
        }
    }
    let opened = Link { phase: crate::mill::Phase::InFrame(Seq::empty()), ..link };
    assert(link.decoded(frame[0], now_ms) == (opened, None::<Status>, None::<FrameNote>));
    assert(frame.skip(1) =~= body.push(crate::mill::END));
    assert(Seq::<u8>::empty() + body =~= body);
    assert(body.drop_last() =~= payload);
    lemma_body_is_taken_in(link.state, Seq::empty(), body, now_ms);
    let last = opened.received(body.push(crate::mill::END), now_ms);
    assert(Seq::<FrameNote>::empty() + last.2 =~= last.2);
}

/// The rest of a frame, from the bytes already held to its end marker.
proof fn lemma_body_is_taken_in(state: HeaterState, held: Seq<u8>, rest: Seq<u8>, now_ms: u64)
    requires
        held.len() + rest.len() <= crate::mill::MAX_PAYLOAD,
        held.len() + rest.len() > 0,
        forall|i: int| 0 <= i < rest.len() ==> rest[i] != crate::mill::END,
        ({
            let body = held + rest;
            &&& body.last() == crate::mill::checksum_of(body.drop_last())
            &&& crate::mill::is_status(body.drop_last())
        }),
    ensures
        ({
            let payload = (held + rest).drop_last();
            let heard = HeaterState {
                frames: state.one_more_frame(),
                last_frame_ms: Some(now_ms),
                ..state
            };
            (Link { phase: crate::mill::Phase::InFrame(held), state }).received(
                rest.push(crate::mill::END),
                now_ms,
            ) == (
                Link {
                    phase: crate::mill::Phase::Idle,
                    state: heard.applied(crate::mill::status_of(payload)->Some_0, now_ms),
                },
                Some(heard.moved_by(crate::mill::status_of(payload)->Some_0)),
                seq![state.raw_note(payload, now_ms)],
            )
        }),
        (Link { phase: crate::mill::Phase::InFrame(held), state }).reach(
            rest.push(crate::mill::END),
            now_ms,
        ) == rest.len() + 1,
    decreases rest.len(),
{
    let link = Link { phase: crate::mill::Phase::InFrame(held), state };
    let bytes = rest.push(crate::mill::END);
    if rest.len() == 0 {
        assert(held + rest =~= held);
        assert(bytes[0] == crate::mill::END);
    } else {
        let more = held.push(rest[0]);
        assert(more + rest.skip(1) =~= held + rest);
        assert(bytes.skip(1) =~= rest.skip(1).push(crate::mill::END));
        lemma_body_is_taken_in(state, more, rest.skip(1), now_ms);
        let next = Link { phase: crate::mill::Phase::InFrame(more), state };
        assert(link.decoded(bytes[0], now_ms) == (next, None::<Status>, None::<FrameNote>));
        let last = next.received(bytes.skip(1), now_ms);
        assert(Seq::<FrameNote>::empty() + last.2 =~= last.2);
    }
}

/// What is taken in of a chunk is its bytes up to and with those of its first status
/// frame, and the bytes after it make no difference.
proof fn lemma_reach(link: Link, chunk: Seq<u8>, now_ms: u64)
    ensures
        ({
            let n = link.reach(chunk, now_ms) as int;
            let whole = link.received(chunk, now_ms);
            &&& n <= chunk.len()
            &&& whole == link.received(chunk.take(n), now_ms)
            &&& whole.1 is None ==> n == chunk.len()
            &&& whole.1 is Some ==> n > 0 && link.received(chunk.take(n - 1), now_ms).1 is None
        }),
    decreases chunk.len(),
{
    let n = link.reach(chunk, now_ms) as int;
    if chunk.len() == 0 {
        assert(chunk.take(0) =~= chunk);
    } else {
        let (next, status, _) = link.decoded(chunk[0], now_ms);
        let taken = chunk.take(n);
        match status {
            Some(_) => {
                assert(taken[0] == chunk[0]);
                assert(chunk.take(0) =~= Seq::<u8>::empty());
            },
            None => {
                let rest = chunk.skip(1);
                lemma_reach(next, rest, now_ms);
                assert(taken[0] == chunk[0]);
                assert(taken.skip(1) =~= rest.take(n - 1));
                if n > 1 {
                    let short = chunk.take(n - 1);
                    assert(short[0] == chunk[0]);
                    assert(short.skip(1) =~= rest.take(n - 2));
                } else {
                    assert(rest.take(0) =~= Seq::<u8>::empty());
                }
            },
        }
    }
}

/// How the bytes are cut into chunks makes no difference: as long as `x` completes no
/// status frame, receiving `x` and then `y` is receiving `x + y`.
pub proof fn law_chunking_is_immaterial(link: Link, x: Seq<u8>, y: Seq<u8>, now_ms: u64)
    requires
        link.received(x, now_ms).1 is None,
    ensures
        ({
            let (mid, _, noted) = link.received(x, now_ms);
            let (last, changed, notes) = mid.received(y, now_ms);
            &&& link.received(x + y, now_ms) == (last, changed, noted + notes)
            &&& link.reach(x + y, now_ms) == x.len() + mid.reach(y, now_ms)
        }),
    decreases x.len(),
{
    if x.len() == 0 {
        assert(x + y =~= y);
        let notes = link.received(y, now_ms).2;
        assert(Seq::<FrameNote>::empty() + notes =~= notes);
    } else {
        let (next, status, note) = link.decoded(x[0], now_ms);
        let rest = x.skip(1);
        assert((x + y)[0] == x[0]);
        assert((x + y).skip(1) =~= rest + y);
        law_chunking_is_immaterial(next, rest, y, now_ms);
        let first = match note {
            Some(note) => seq![note],
            None => Seq::empty(),
        };
        let (mid, _, noted) = next.received(rest, now_ms);
        let notes = mid.received(y, now_ms).2;
        assert(first + (noted + notes) =~= (first + noted) + notes);
    }
}

/// No byte after a status frame is lost: where `x` ends with the one that completes its
/// first status frame, exactly `x` is taken in of `x + y`, as if it came alone, and `y` is
/// what is left to be received next.
pub proof fn law_rest_of_a_chunk_is_left(link: Link, x: Seq<u8>, y: Seq<u8>, now_ms: u64)
    requires
        link.received(x, now_ms).1 is Some,
        link.reach(x, now_ms) == x.len(),
    ensures
        link.received(x + y, now_ms) == link.received(x, now_ms),
        link.reach(x + y, now_ms) == x.len(),
        (x + y).skip(link.reach(x + y, now_ms) as int) == y,
    decreases x.len(),
{
    let (next, status, _) = link.decoded(x[0], now_ms);
    assert((x + y)[0] == x[0]);
    assert((x + y).skip(x.len() as int) =~= y);
    if status is None {
        assert((x + y).skip(1) =~= x.skip(1) + y);
        law_rest_of_a_chunk_is_left(next, x.skip(1), y, now_ms);
    }
}

/// All of what is taken in of a chunk is taken in if it comes alone.
proof fn lemma_reach_is_reached(link: Link, chunk: Seq<u8>, now_ms: u64)
    ensures
        ({
            let n = link.reach(chunk, now_ms) as int;
            link.reach(chunk.take(n), now_ms) == n
        }),
    decreases chunk.len(),
{
    lemma_reach(link, chunk, now_ms);
    let n = link.reach(chunk, now_ms) as int;
    if chunk.len() > 0 {
        let (next, status, _) = link.decoded(chunk[0], now_ms);
        let taken = chunk.take(n);
        assert(taken[0] == chunk[0]);
        if status is None {
            let rest = chunk.skip(1);
            lemma_reach_is_reached(next, rest, now_ms);
            assert(taken.skip(1) =~= rest.take(n - 1));
        }
    }
}

/// What a reception comes to is what its bytes do: the heater afterwards, what moved and what
/// there is to log are those of the whole chunk, and what is left of it are the bytes past its
/// first status frame, or none if it has none.
pub proof fn law_receptions_are_of_the_chunk(
    link: Link,
    after: Link,
    reception: Reception,
    chunk: Seq<u8>,
    now_ms: u64,
)
    requires
        link.receives_to(after, reception, chunk, now_ms),
    ensures
        after == link.received(chunk, now_ms).0,
        reception.changed == link.received(chunk, now_ms).1,
        reception.logs@.len() == link.received(chunk, now_ms).2.len(),
        forall|i: int|
            0 <= i < reception.logs@.len() ==> (#[trigger] reception.logs@[i])@ == link.received(
                chunk,
                now_ms,
            ).2[i],
        reception.consumed <= chunk.len(),
        reception.changed is None ==> reception.consumed == chunk.len(),
        after.phase == link.phase.after_all(chunk.take(reception.consumed as int)),
        reception.changed is Some <==> status_frames(link.phase.outcomes(chunk)) > 0,
        status_frames(link.phase.outcomes(chunk.take(reception.consumed as int)))
            == if reception.changed is Some {
            1nat
        } else {
            0
        },
{
    let n = reception.consumed as int;
    lemma_reach(link, chunk, now_ms);
    lemma_received_phase(link, chunk, now_ms);
    law_every_status_frame_resolves(link, chunk, now_ms);
    law_every_status_frame_resolves(link, chunk.take(n), now_ms);
    lemma_reach(link, chunk.take(n), now_ms);
    assert forall|i: int| 0 <= i < reception.logs@.len() implies (
    #[trigger] reception.logs@[i])@ == link.received(chunk, now_ms).2[i] by {
        assert(notes_of(reception.logs@)[i] == reception.logs@[i]@);
    }
    if reception.changed is Some {
        lemma_reach_is_reached(link, chunk, now_ms);
        let last = link.received(chunk.take(n), now_ms).0;
        assert(chunk.take(n).skip(n) =~= Seq::<u8>::empty());
        assert(last.resolved(Seq::<u8>::empty(), now_ms) =~= Seq::<Changed>::empty());
    }
}

/// How many of the frames that were completed are status frames.
pub open spec fn status_frames(outcomes: Seq<crate::mill::Outcome>) -> nat
    decreases outcomes.len(),
{
    if outcomes.len() == 0 {
        0
    } else {
        let one: nat = match outcomes.last() {
            crate::mill::Outcome::Frame(payload) => if crate::mill::is_status(payload) {
                1
            } else {
                0
            },
            _ => 0,
        };
        status_frames(outcomes.drop_last()) + one
    }
}

/// Status frames add up.
proof fn lemma_status_frames_add(a: Seq<crate::mill::Outcome>, b: Seq<crate::mill::Outcome>)
    ensures
        status_frames(a + b) == status_frames(a) + status_frames(b),
    decreases b.len(),
{
    if b.len() == 0 {
        assert(a + b =~= a);
    } else {
        assert((a + b).drop_last() =~= a + b.drop_last());
        lemma_status_frames_add(a, b.drop_last());
    }
}

/// Every status frame resolves, however many of them one read delivers and wherever it is
/// cut: taking in what is left until nothing is resolves once for each status frame that
/// the bytes complete, and for nothing else.
pub proof fn law_every_status_frame_resolves(link: Link, bytes: Seq<u8>, now_ms: u64)
    ensures
        link.resolved(bytes, now_ms).len() == status_frames(link.phase.outcomes(bytes)),
    decreases bytes.len(),
{
    if bytes.len() > 0 {
        let (next, status, _) = link.decoded(bytes[0], now_ms);
        let first = seq![bytes[0]];
        let rest = bytes.skip(1);
        assert(first + rest =~= bytes);
        crate::mill::law_stream_concat(link.phase, first, rest);
        assert(first.drop_last() =~= Seq::<u8>::empty());
        assert(link.phase.after_all(first.drop_last()) == link.phase);
        assert(link.phase.outcomes(first.drop_last()) =~= Seq::<crate::mill::Outcome>::empty());
        assert(link.phase.after_all(first) == next.phase);
        let completed = link.phase.outcomes(first);
        lemma_status_frames_add(completed, next.phase.outcomes(rest));
        match link.phase.outcome(bytes[0]) {
            Some(outcome) => {
                assert(completed =~= seq![outcome]);
                assert(completed.drop_last() =~= Seq::<crate::mill::Outcome>::empty());
            },
            None => {
                assert(completed =~= Seq::<crate::mill::Outcome>::empty());
            },
        }
        assert(status_frames(Seq::<crate::mill::Outcome>::empty()) == 0);
        assert(status_frames(completed) == if status is Some { 1nat } else { 0nat });
        match status {
            Some(status) => {
                let applied = Link { state: next.state.applied(status, now_ms), ..next };
                law_every_status_frame_resolves(applied, rest, now_ms);
                assert(link.reach(bytes, now_ms) == 1);
            },
            None => {
                law_every_status_frame_resolves(next, rest, now_ms);
                lemma_reach(next, rest, now_ms);
                let n = next.reach(rest, now_ms) as int;
                assert(link.reach(bytes, now_ms) == n + 1);
                assert(bytes.skip(n + 1) =~= rest.skip(n));
                assert(link.resolved(bytes, now_ms) =~= next.resolved(rest, now_ms));
            },
        }
    }
}

/// Two status frames that one read delivers resolve one after the other: the first call
/// folds in the first and takes in no more, and the second, given what is left, folds in
/// the second.
pub proof fn law_two_status_frames_resolve_in_turn(
    link: Link,
    first: Seq<u8>,
    second: Seq<u8>,
    now_ms: u64,
    later_ms: u64,
)
    requires
        link.phase == crate::mill::Phase::Idle,
        crate::mill::framable(first),
        crate::mill::is_status(first),
        crate::mill::framable(second),
        crate::mill::is_status(second),
    ensures
        ({
            let chunk = crate::mill::framed(first) + crate::mill::framed(second);
            let n = link.reach(chunk, now_ms) as int;
            let (after, changed, _) = link.received(chunk, now_ms);
            &&& changed is Some
            &&& after == link.received(crate::mill::framed(first), now_ms).0
            &&& chunk.skip(n) == crate::mill::framed(second)
            &&& after.received(chunk.skip(n), later_ms) == after.received(
                crate::mill::framed(second),
                later_ms,
            )
            &&& after.received(chunk.skip(n), later_ms).1 is Some
        }),
{
    let x = crate::mill::framed(first);
    let y = crate::mill::framed(second);
    law_status_frame_is_taken_up(link, first, now_ms);
    law_rest_of_a_chunk_is_left(link, x, y, now_ms);
    law_status_frame_is_taken_up(link.received(x, now_ms).0, second, later_ms);
}

/// What a period is published at: the energy drawn in it, in whole milliwatt-hours, less than
/// one of which is left out. What was drawn is what was counted before, and the rating times
/// the time since, if the element was on.
#[verifier::spinoff_prover]
pub proof fn law_period_is_published_to_the_milliwatt_hour(
    s: HeaterState,
    mark_ms: u64,
    end_ms: u64,
)
    requires
        s.period_mws >= 0,
        s.mark_ms <= mark_ms,
        countable(s, mark_ms),
        s.period_mws + s.element_watts * (mark_ms - s.mark_ms) <= i64::MAX,
    ensures
        ({
            let after = s.closed(mark_ms, end_ms);
            let drawn = s.period_mws + if s.element_on {
                s.element_watts * (mark_ms - s.mark_ms)
            } else {
                0
            };
            &&& drawn > 0 ==> {
                &&& after.period matches Some((mwh, from, to)) && 3600 * mwh <= drawn < 3600 * mwh
                    + 3600 && from == s.period_start_ms && to == end_ms
                &&& s.accumulated(mark_ms).periodic
            }
            &&& drawn == 0 ==> {
                &&& after.period == s.period
                &&& after.reported_mwh == s.reported_mwh
                &&& !s.accumulated(mark_ms).periodic
                &&& !s.accumulated(mark_ms).cumulative
            }
        }),
{
    law_drawn_is_exact(s, mark_ms);
    let most = s.element_watts * (mark_ms - s.mark_ms);
    assert(most >= 0) by (nonlinear_arith)
        requires
            most == s.element_watts * (mark_ms - s.mark_ms),
            mark_ms >= s.mark_ms,
    ;
    let drawn = s.period_mws + s.drawn_mws(mark_ms);
    assert(0 <= drawn <= i64::MAX);
    lemma_not_rolled_over(drawn as i64);
    assert(s.integrated(mark_ms).period_mws == drawn);
}

/// A period that drew is published, and its energy is what was counted in it, to the
/// milliwatt-hour and rounded towards nothing; the period before it stands otherwise.
pub proof fn law_published_energy_is_the_counted_energy(
    s: HeaterState,
    mark_ms: u64,
    end_ms: u64,
)
    ensures
        ({
            let drawn = s.integrated(mark_ms).period_mws;
            let after = s.closed(mark_ms, end_ms);
            &&& s.accumulated(mark_ms).periodic <==> drawn != 0
            &&& drawn == 0 ==> after.period == s.period
            &&& drawn > 0 ==> {
                &&& after.period matches Some((mwh, _, _)) && 3600 * mwh <= drawn < 3600 * mwh
                    + 3600
            }
            &&& drawn < 0 ==> {
                &&& after.period matches Some((mwh, _, _)) && 3600 * mwh - 3600 < drawn <= 3600
                    * mwh
            }
        }),
{
}

/// The lifetime total is read to the milliwatt-hour as well: the whole milliwatt-hours drawn,
/// less than one of which is left out.
pub proof fn law_total_is_read_to_the_milliwatt_hour(s: HeaterState)
    ensures
        s.energy_mws >= 0 ==> 3600 * s.energy_mwh() <= s.energy_mws < 3600 * s.energy_mwh() + 3600,
        s.energy_mws < 0 ==> 3600 * s.energy_mwh() - 3600 < s.energy_mws <= 3600 * s.energy_mwh(),
{
}

/// The power is the rating while the element is on and nothing while it is off, and the
/// current is what that power draws at 230 V, in whole milliamps.
pub proof fn law_power_is_the_rating(s: HeaterState)
    ensures
        s.element_on ==> s.active_power_mw() == 1000 * s.element_watts,
        !s.element_on ==> s.active_power_mw() == 0,
        230 * s.active_current_ma() <= s.active_power_mw() < 230 * s.active_current_ma() + 230,
{
}

/// Bringing the counters up to date moves the two counters and the time they stand at, and
/// nothing else; so does setting the rating, but for the rating, which is then the one set.
pub proof fn law_counting_moves_only_the_counters(s: HeaterState, watts: u16, now_ms: u64)
    ensures
        s.integrated(now_ms) == (HeaterState {
            mark_ms: now_ms,
            energy_mws: s.integrated(now_ms).energy_mws,
            period_mws: s.integrated(now_ms).period_mws,
            ..s
        }),
        s.rerated(watts, now_ms).element_watts == watts,
        s.rerated(watts, now_ms) == (HeaterState {
            element_watts: s.rerated(watts, now_ms).element_watts,
            ..s.integrated(now_ms)
        }),
{
}

/// Closing a period moves the counters, the window and what was published, and nothing that
/// the Mill said; the lifetime counter is what it would have been without closing.
pub proof fn law_closing_touches_no_reading(s: HeaterState, mark_ms: u64, end_ms: u64)
    ensures
        ({
            let after = s.closed(mark_ms, end_ms);
            &&& after.energy_mws == s.integrated(mark_ms).energy_mws
            &&& after.mark_ms == mark_ms
            &&& after == (HeaterState {
                mark_ms: after.mark_ms,
                energy_mws: after.energy_mws,
                period_mws: after.period_mws,
                period_start_ms: after.period_start_ms,
                period: after.period,
                reported_mwh: after.reported_mwh,
                ..s
            })
        }),
{
}

/// What is reported as moved is what moved: a status frame, or giving up on the Mill, is said
/// to have moved the room reading if and only if it differs afterwards, and the element if
/// and only if it switched.
pub proof fn law_moved_means_different(s: HeaterState, status: Status, now_ms: u64)
    requires
        s.wf(),
    ensures
        s.moved_by(status).room <==> s.applied(status, now_ms).room_c != s.room_c,
        s.moved_by(status).element <==> s.applied(status, now_ms).element_on != s.element_on,
        s.lost().room <==> s.forgotten(now_ms).room_c != s.room_c,
        s.lost().element <==> s.forgotten(now_ms).element_on != s.element_on,
        s.lost().room <==> s.room_c is Some,
        s.lost().element <==> s.element_on,
{
}

/// The element is on if and only if the last status frame said so, and taking one up moves
/// nothing but what it reports, when it came, and the counters.
pub proof fn law_the_last_status_stands(s: HeaterState, status: Status, now_ms: u64)
    ensures
        ({
            let after = s.applied(status, now_ms);
            &&& after.element_on == status.element_on
            &&& after.last_status_ms == Some(now_ms)
            &&& after == (HeaterState {
                element_on: after.element_on,
                room_c: after.room_c,
                setpoint_c: after.setpoint_c,
                heat_mode: after.heat_mode,
                last_status_ms: after.last_status_ms,
                mark_ms: after.mark_ms,
                energy_mws: after.energy_mws,
                period_mws: after.period_mws,
                ..s
            })
        }),
{
}

/// Giving up on the Mill costs no energy and no count: what was drawn until then is credited,
/// and what was counted, published and rated stands.
pub proof fn law_forgetting_keeps_the_counts(s: HeaterState, now_ms: u64)
    ensures
        ({
            let after = s.forgotten(now_ms);
            &&& s.is_online() ==> after.energy_mws == s.integrated(now_ms).energy_mws
                && after.period_mws == s.integrated(now_ms).period_mws && after.mark_ms == now_ms
            &&& !s.is_online() ==> after == s
            &&& after == (HeaterState {
                element_on: after.element_on,
                room_c: after.room_c,
                setpoint_c: after.setpoint_c,
                heat_mode: after.heat_mode,
                last_status_ms: after.last_status_ms,
                mark_ms: after.mark_ms,
                energy_mws: after.energy_mws,
                period_mws: after.period_mws,
                ..s
            })
        }),
{
}

/// A heater that has just booted has not been heard from and has drawn nothing this boot. Its
/// lifetime counter is the one its first eight stored bytes stand for, or zero, and then says
/// so, if there are fewer; what else is stored makes no difference.
pub proof fn law_boot_restores_the_counter(
    stored: Option<Seq<u8>>,
    bytes: Seq<u8>,
    more: Seq<u8>,
    watts: u16,
    now_ms: u64,
)
    requires
        bytes.len() == 8,
    ensures
        HeaterState::at_boot(Some(bytes + more), watts, now_ms).energy_mws
            == crate::bytes::le_i64(bytes),
        !HeaterState::at_boot(Some(bytes + more), watts, now_ms).reset_at_boot,
        ({
            let booted = HeaterState::at_boot(stored, watts, now_ms);
            &&& booted.reset_at_boot <==> (stored matches Some(stored) ==> stored.len() < 8)
            &&& booted.reset_at_boot ==> booted.energy_mws == 0
            &&& booted.element_watts == watts
            &&& booted.mark_ms == now_ms && booted.period_start_ms == now_ms
            &&& booted.period_mws == 0 && booted.period is None
            &&& booted.reported_mwh == booted.energy_mwh()
            &&& !booted.is_online() && !booted.element_on
            &&& booted.room_c is None && booted.setpoint_c is None && booted.heat_mode is None
            &&& booted.frames == 0 && booted.malformed == 0 && booted.last_frame_ms is None
        }),
{
    assert((bytes + more).take(ENERGY_LEN as int) =~= bytes);
    assert(bytes[7] == (bytes + more)[7]);
}

/// Temperatures are served in hundredths of the whole degrees they came in, or as unknown
/// where they are.
pub proof fn law_degrees_are_served_in_hundredths(celsius: u8)
    ensures
        centidegrees_of(Some(celsius)) matches Some(centi) && centi == 100 * celsius,
        centidegrees_of(None) is None,
{
}

/// Every frame that is completed is counted once, as well-formed or as malformed, and logged
/// with the payload it carried; a byte that completes none is neither.
pub proof fn law_every_frame_is_counted_and_logged(link: Link, byte: u8, now_ms: u64)
    requires
        link.state.frames < u32::MAX,
        link.state.malformed < u32::MAX,
    ensures
        ({
            let (after, status, note) = link.decoded(byte, now_ms);
            let s = link.state;
            &&& after.phase == link.phase.after(byte)
            &&& link.phase.outcome(byte) is None ==> status is None && note is None && after.state
                == s
            &&& link.phase.outcome(byte) matches Some(crate::mill::Outcome::Frame(payload)) ==> {
                &&& after.state == (HeaterState {
                    frames: (s.frames + 1) as u32,
                    last_frame_ms: Some(now_ms),
                    ..s
                })
                &&& status == crate::mill::status_of(payload)
                &&& note matches Some(FrameNote::Raw { payload: logged, loud, gap_ms, status: told })
                    && logged == payload && (loud <==> s.frames < 8) && (told <==> status is Some)
                    && (gap_ms is Some <==> s.last_frame_ms is Some)
                &&& s.last_frame_ms matches Some(previous_ms) ==> (note matches Some(
                    FrameNote::Raw { gap_ms, .. },
                ) && gap_ms == Some(
                    if now_ms >= previous_ms {
                        (now_ms - previous_ms) as u64
                    } else {
                        0
                    },
                ))
            }
            &&& link.phase.outcome(byte) matches Some(crate::mill::Outcome::BadChecksum(payload))
                ==> {
                &&& after.state == (HeaterState { malformed: (s.malformed + 1) as u32, ..s })
                &&& status is None
                &&& note matches Some(FrameNote::BadChecksum { payload: logged, count, notice })
                    && logged == payload && count == s.malformed + 1 && notice == notice_of(count)
            }
            &&& link.phase.outcome(byte) == Some(crate::mill::Outcome::TooLong) ==> {
                &&& after.state == (HeaterState { malformed: (s.malformed + 1) as u32, ..s })
                &&& status is None
                &&& note matches Some(FrameNote::TooLong { count, notice }) && count == s.malformed
                    + 1 && notice == notice_of(count)
            }
        }),
{
}

/// Frames are counted one by one, and the count of well-formed ones that can go no further stays
/// where it is, so that no later frame is taken for one of the first.
pub proof fn law_frames_are_counted_one_by_one(s: HeaterState)
    ensures
        s.frames < u32::MAX ==> s.one_more_frame() == s.frames + 1,
        s.frames == u32::MAX ==> s.one_more_frame() == s.frames,
        s.malformed < u32::MAX ==> s.one_more_malformed() == s.malformed + 1,
{
}

/// Malformed frames are logged in full eight times, and after that as a count, every hundredth
/// of them.
pub proof fn law_malformed_frames_back_off(count: u32)
    ensures
        notice_of(count) == Notice::Full <==> count <= 8,
        notice_of(count) == Notice::Tally <==> count > 8 && count % 100 == 0,
{
}

/// Only a status frame moves what is known and counted: bytes that complete none leave every
/// reading and every counter but those of frames as they were, and nothing is reported.
pub proof fn law_only_status_frames_move_anything(link: Link, chunk: Seq<u8>, now_ms: u64)
    requires
        link.received(chunk, now_ms).1 is None,
    ensures
        ({
            let after = link.received(chunk, now_ms).0;
            &&& after.phase == link.phase.after_all(chunk)
            &&& after.state == (HeaterState {
                frames: after.state.frames,
                malformed: after.state.malformed,
                last_frame_ms: after.state.last_frame_ms,
                ..link.state
            })
        }),
        status_frames(link.phase.outcomes(chunk)) == 0,
    decreases chunk.len(),
{
    law_every_status_frame_resolves(link, chunk, now_ms);
    if chunk.len() > 0 {
        let next = link.decoded(chunk[0], now_ms).0;
        let first = seq![chunk[0]];
        let rest = chunk.skip(1);
        law_only_status_frames_move_anything(next, rest, now_ms);
        assert(first + rest =~= chunk);
        crate::mill::law_stream_concat(link.phase, first, rest);
        assert(first.drop_last() =~= Seq::<u8>::empty());
        assert(link.phase.after_all(first.drop_last()) == link.phase);
        assert(link.phase.after_all(first) == next.phase);
    }
}

/// Where the receiver stands once a chunk has been taken in, as far as it is.
proof fn lemma_received_phase(link: Link, chunk: Seq<u8>, now_ms: u64)
    ensures
        link.received(chunk, now_ms).0.phase == link.phase.after_all(
            chunk.take(link.reach(chunk, now_ms) as int),
        ),
    decreases chunk.len(),
{
    lemma_reach(link, chunk, now_ms);
    let n = link.reach(chunk, now_ms) as int;
    if chunk.len() == 0 {
        assert(chunk.take(n) =~= Seq::<u8>::empty());
    } else {
        let (next, status, _) = link.decoded(chunk[0], now_ms);
        let first = seq![chunk[0]];
        assert(first.drop_last() =~= Seq::<u8>::empty());
        assert(link.phase.after_all(first.drop_last()) == link.phase);
        assert(link.phase.after_all(first) == next.phase);
        match status {
            Some(_) => {
                assert(chunk.take(1) =~= first);
            },
            None => {
                let rest = chunk.skip(1);
                lemma_received_phase(next, rest, now_ms);
                lemma_reach(next, rest, now_ms);
                assert(chunk.take(n) =~= first + rest.take(n - 1));
                crate::mill::law_stream_concat(link.phase, first, rest.take(n - 1));
            },
        }
    }
}

/// From the wire to the readings: a status frame that is received between frames is what is
/// known afterwards, each reading from its own byte; a reading that it does not carry stands
/// as it was.
pub proof fn law_status_bytes_become_readings(link: Link, payload: Seq<u8>, now_ms: u64)
    requires
        link.phase == crate::mill::Phase::Idle,
        crate::mill::framable(payload),
        payload.len() >= 12,
        payload[4] == 0xC9,
    ensures
        ({
            let (after, changed, _) = link.received(crate::mill::framed(payload), now_ms);
            let (s, then) = (after.state, link.state);
            &&& after.phase == crate::mill::Phase::Idle
            &&& s.is_online()
            &&& s.setpoint_c == if payload[6] != 0 {
                Some(payload[6])
            } else {
                then.setpoint_c
            }
            &&& s.room_c == if payload[7] != 0 {
                Some(payload[7])
            } else {
                then.room_c
            }
            &&& payload[9] <= 1 ==> s.heat_mode == Some(payload[9] == 1)
            &&& payload[9] > 1 ==> s.heat_mode == then.heat_mode
            &&& s.element_on <==> payload[11] != 0
            &&& changed matches Some(changed) && (changed.room <==> s.room_c != then.room_c) && (
            changed.element <==> s.element_on != then.element_on)
        }),
{
    crate::mill::law_each_reading_is_its_own_byte(payload);
    law_status_frame_is_taken_up(link, payload, now_ms);
}

/// What closing a period hands over to be persisted is the lifetime counter as it then
/// stands, and it is handed over if and only if the period drew.
pub proof fn law_drawn_energy_is_persisted(
    before: Link,
    after: Link,
    closed: ClosedPeriod,
    mark_ms: u64,
    end_ms: u64,
)
    requires
        before.closes_to(after, closed, mark_ms, end_ms),
    ensures
        closed.store is Some <==> before.state.integrated(mark_ms).period_mws != 0,
        closed.store matches Some(bytes) ==> crate::bytes::le_i64(bytes@)
            == before.state.integrated(mark_ms).energy_mws,
        closed.moved.periodic <==> closed.store is Some,
        after.phase == before.phase,
{
}

/// The first few well-formed frames are logged loudly and no others are; the first few
/// malformed ones are logged in full and no others are.
pub proof fn law_only_the_first_frames_are_loud(s: HeaterState, payload: Seq<u8>, now_ms: u64)
    ensures
        (s.raw_note(payload, now_ms) matches FrameNote::Raw { loud, .. } && loud) <==> s.frames
            < RAW_LOG_LIMIT,
        s.malformed < u32::MAX ==> (notice_of(s.one_more_malformed()) == Notice::Full
            <==> s.malformed < MALFORMED_LOG_LIMIT),
{
}

/// A frame that is not believed moves nothing but the count of malformed frames.
pub proof fn law_malformed_frames_move_nothing(link: Link, byte: u8, now_ms: u64)
    requires
        match link.phase.outcome(byte) {
            Some(crate::mill::Outcome::Frame(_)) => false,
            _ => true,
        },
    ensures
        ({
            let (after, status, _) = link.decoded(byte, now_ms);
            &&& status is None
            &&& after.state == (HeaterState { malformed: after.state.malformed, ..link.state })
        }),
{
}

} // verus!
