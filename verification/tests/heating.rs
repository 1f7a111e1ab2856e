use mill_matter::config::Settings;
use mill_matter::heater::{
    Accumulated, Changed, FrameLog, HeaterState, MillHeater, Notice, ENERGY_PERIOD_SECS,
    MALFORMED_LOG_LIMIT, METER_TICK_SECS, RAW_LOG_LIMIT,
};
use mill_matter::meter::{
    ElecEnergyDeviceLogic, ElecPwrDeviceLogic, EnergyMeasurement, EnergyNotification,
    MeasurementType, MAX_ENERGY_MWH,
};
use mill_matter::mill::{checksum, power_command, setpoint_command, END, OPCODE_STATUS, START};

fn settings() -> Settings {
    Settings {
        element_watts: 600,
        circuit_max_watts: 3680,
        meter_accuracy: 500,
        abs_min_heat_setpoint: 500,
        abs_max_heat_setpoint: 3500,
        default_heating_setpoint: 2100,
        passcode: 20202021,
        discriminator: 3840,
    }
}

fn framed(payload: &[u8]) -> Vec<u8> {
    let mut frame = vec![START];
    frame.extend_from_slice(payload);
    frame.push(checksum(payload));
    frame.push(END);
    frame
}

fn status(setpoint: u8, room: u8, mode: u8, element: u8) -> Vec<u8> {
    framed(&[0, 0, 0, 0, OPCODE_STATUS, 0, setpoint, room, 0, mode, 0, element])
}

#[test]
fn fresh_heater_knows_nothing() {
    let heater = MillHeater::new_at(None, 600, 1_000);
    assert!(!heater.heating());
    assert!(!heater.is_online());
    assert_eq!(heater.room_temperature(), None);
    assert_eq!(heater.reported_setpoint(), None);
    assert_eq!(heater.reported_heat_mode(), None);
    assert_eq!(heater.active_power_mw(), 0);
    assert_eq!(heater.active_current_ma(), 0);
    assert_eq!(heater.energy_mwh(), 0);
    assert_eq!(heater.last_period(), None);
    assert!(heater.reset_at_boot());
}

#[test]
fn counter_is_restored() {
    let stored = 7_200_000i64.to_le_bytes();
    let heater = MillHeater::new_at(Some(&stored), 600, 0);
    assert_eq!(heater.energy_mwh(), 2_000);
    assert!(!heater.reset_at_boot());
}

#[test]
fn longer_blobs_are_truncated_and_shorter_ones_refused() {
    let mut long = 7_200_000i64.to_le_bytes().to_vec();
    long.push(0xEE);
    assert_eq!(MillHeater::new_at(Some(&long), 600, 0).energy_mwh(), 2_000);
    let short = MillHeater::new_at(Some(&long[..7]), 600, 0);
    assert_eq!(short.energy_mwh(), 0);
    assert!(short.reset_at_boot());
}

#[test]
fn status_frame_is_folded_in() {
    let mut heater = MillHeater::new_at(None, 600, 0);
    let reception = heater.recv_status_at(&status(22, 19, 1, 1), 500);
    assert_eq!(reception.changed, Some(Changed { room: true, element: true }));
    assert!(heater.is_online());
    assert!(heater.heating());
    assert_eq!(heater.room_temperature(), Some(1900));
    assert_eq!(heater.reported_setpoint(), Some(2200));
    assert_eq!(heater.reported_heat_mode(), Some(true));
    assert_eq!(heater.active_power_mw(), 600_000);
    assert_eq!(heater.active_current_ma(), 2_608);
}

#[test]
fn repeated_status_moves_nothing_but_is_heard() {
    let mut heater = MillHeater::new_at(None, 600, 0);
    heater.recv_status_at(&status(22, 19, 1, 1), 500);
    let reception = heater.recv_status_at(&status(22, 19, 1, 1), 900);
    assert_eq!(reception.changed, Some(Changed { room: false, element: false }));
}

#[test]
fn null_readings_leave_the_last_ones_standing() {
    let mut heater = MillHeater::new_at(None, 600, 0);
    heater.recv_status_at(&status(22, 19, 1, 1), 500);
    let reception = heater.recv_status_at(&status(0, 0, 9, 1), 900);
    assert_eq!(reception.changed, Some(Changed { room: false, element: false }));
    assert_eq!(heater.room_temperature(), Some(1900));
    assert_eq!(heater.reported_setpoint(), Some(2200));
    assert_eq!(heater.reported_heat_mode(), Some(true));
}

#[test]
fn chunk_without_a_status_frame_moves_nothing() {
    let mut heater = MillHeater::new_at(None, 600, 0);
    let reception = heater.recv_status_at(&status(22, 19, 1, 1)[..10], 500);
    assert_eq!(reception.changed, None);
    assert_eq!(reception.consumed, 10);
    assert!(reception.logs.is_empty());
    let reception = heater.recv_status_at(&status(22, 19, 1, 1)[10..], 600);
    assert_eq!(reception.changed, Some(Changed { room: true, element: true }));
    let other = heater.recv_status_at(&framed(&[1, 2, 3, 4, 5]), 700);
    assert_eq!(other.changed, None);
    assert!(matches!(
        other.logs[0],
        FrameLog::Raw { loud: true, gap_ms: Some(100), status: false, .. }
    ));
}

#[test]
fn first_status_frame_settles_a_chunk() {
    let mut heater = MillHeater::new_at(None, 600, 0);
    let mut chunk = status(22, 19, 1, 0);
    chunk.extend_from_slice(&status(25, 20, 1, 0));
    let reception = heater.recv_status_at(&chunk, 500);
    assert_eq!(reception.changed, Some(Changed { room: true, element: false }));
    assert_eq!(reception.consumed, 15);
    assert_eq!(reception.logs.len(), 1);
    assert_eq!(heater.reported_setpoint(), Some(2200));
    // What is left resolves on the next call.
    let reception = heater.recv_status_at(&chunk[15..], 600);
    assert_eq!(reception.changed, Some(Changed { room: true, element: false }));
    assert_eq!(reception.consumed, 15);
    assert_eq!(heater.reported_setpoint(), Some(2500));
    assert_eq!(heater.room_temperature(), Some(2000));
}

#[test]
fn every_status_frame_resolves_wherever_reads_are_cut() {
    let mut stream = vec![0, END];
    stream.extend_from_slice(&status(20, 18, 1, 0));
    stream.extend_from_slice(&framed(&[1, 2, 3, 4, 5]));
    stream.extend_from_slice(&status(21, 19, 1, 1));
    stream.extend_from_slice(&[START, 1, 2, 4, END]);
    stream.extend_from_slice(&status(22, 20, 1, 1));
    for size in 1..=stream.len() {
        let mut heater = MillHeater::new_at(None, 600, 0);
        let mut setpoints = Vec::new();
        let mut logs = 0;
        for read in stream.chunks(size) {
            let mut left = read;
            while !left.is_empty() {
                let reception = heater.recv_status_at(left, 0);
                logs += reception.logs.len();
                if reception.changed.is_some() {
                    setpoints.push(heater.reported_setpoint().unwrap());
                } else {
                    assert_eq!(reception.consumed, left.len());
                }
                left = &left[reception.consumed..];
            }
        }
        assert_eq!(setpoints, vec![2000, 2100, 2200]);
        assert_eq!(logs, 5);
    }
}

#[test]
fn requests_are_the_command_frames() {
    let heater = MillHeater::new_at(None, 600, 0);
    assert_eq!(heater.request_power(true), power_command(true));
    assert_eq!(heater.request_power(false), power_command(false));
    assert_eq!(heater.request_setpoint(21), setpoint_command(21));
}

#[test]
fn first_frames_are_loud() {
    let mut heater = MillHeater::new_at(None, 600, 0);
    for n in 1..=(RAW_LOG_LIMIT + 2) {
        let reception = heater.recv_status_at(&status(22, 19, 1, 0), 100 * n as u64);
        match &reception.logs[0] {
            FrameLog::Raw { payload, loud, gap_ms, status } => {
                assert_eq!(payload.len(), 12);
                assert_eq!(*loud, n <= RAW_LOG_LIMIT);
                assert_eq!(*gap_ms, if n == 1 { None } else { Some(100) });
                assert!(*status);
            }
            _ => panic!("a well-formed frame is logged raw"),
        }
    }
}

#[test]
fn malformed_frames_back_off_to_a_count() {
    let mut heater = MillHeater::new_at(None, 600, 0);
    for n in 1..=200 {
        let reception = heater.recv_status_at(&[START, 1, 2, 4, END], 0);
        assert_eq!(reception.changed, None);
        match &reception.logs[0] {
            FrameLog::BadChecksum { payload, count, notice } => {
                assert_eq!(payload, &vec![1, 2]);
                assert_eq!(*count, n);
                let expected = if n <= MALFORMED_LOG_LIMIT {
                    Notice::Full
                } else if n == 100 || n == 200 {
                    Notice::Tally
                } else {
                    Notice::Silent
                };
                assert_eq!(*notice, expected);
            }
            _ => panic!("a bad checksum is logged as one"),
        }
    }
    let long = heater.recv_status_at(&framed(&[1; 40]), 0);
    assert!(matches!(long.logs[0], FrameLog::TooLong { count: 201, notice: Notice::Silent }));
    assert!(!heater.is_online());
}

#[test]
fn energy_is_power_times_time() {
    let mut heater = MillHeater::new_at(None, 600, 0);
    heater.recv_status_at(&status(22, 19, 1, 1), 1_000);
    // An hour at 600 W is 600 Wh.
    let closed = heater.close_period_at(3_601_000, 3_601_002);
    assert_eq!(closed.moved, Accumulated { cumulative: true, periodic: true });
    assert_eq!(heater.energy_mwh(), 600_000);
    assert_eq!(heater.last_period(), Some((600_000, 0, 3_601_002)));
    assert_eq!(closed.store, Some((600_000i64 * 3600).to_le_bytes()));
}

#[test]
fn sampling_does_not_change_the_total() {
    let mut often = MillHeater::new_at(None, 583, 0);
    let mut seldom = MillHeater::new_at(None, 583, 0);
    often.recv_status_at(&status(22, 19, 1, 1), 7);
    seldom.recv_status_at(&status(22, 19, 1, 1), 7);
    for now in (10..100_000).step_by(97) {
        often.close_period_at(now, now);
    }
    often.close_period_at(100_000, 100_000);
    seldom.close_period_at(100_000, 100_000);
    assert_eq!(often.energy_mwh(), seldom.energy_mwh());
    assert_eq!(often.energy_mwh(), 583 * (100_000 - 7) / 3600);
}

#[test]
fn switching_credits_the_power_before_it() {
    let mut heater = MillHeater::new_at(None, 1000, 0);
    heater.recv_status_at(&status(22, 19, 1, 0), 3_600_000);
    heater.recv_status_at(&status(22, 19, 1, 1), 7_200_000);
    heater.recv_status_at(&status(22, 19, 1, 0), 10_800_000);
    heater.close_period_at(14_400_000, 14_400_000);
    assert_eq!(heater.energy_mwh(), 1_000_000);
}

#[test]
fn idle_periods_are_silent() {
    let mut heater = MillHeater::new_at(None, 600, 0);
    for now in [5_000, 10_000, 15_000] {
        let closed = heater.close_period_at(now, now);
        assert_eq!(closed.moved, Accumulated::default());
        assert_eq!(closed.store, None);
    }
    assert_eq!(heater.last_period(), None);
}

#[test]
fn windows_are_contiguous() {
    let mut heater = MillHeater::new_at(None, 3600, 0);
    heater.recv_status_at(&status(22, 19, 1, 1), 0);
    heater.close_period_at(5_000, 5_001);
    assert_eq!(heater.last_period(), Some((5_000, 0, 5_001)));
    heater.close_period_at(10_000, 10_001);
    assert_eq!(heater.last_period(), Some((5_000, 5_001, 10_001)));
}

#[test]
fn total_and_period_do_not_move_together() {
    // One watt for a second is no whole milliwatt-hour.
    let mut heater = MillHeater::new_at(None, 1, 0);
    heater.recv_status_at(&status(22, 19, 1, 1), 0);
    let closed = heater.close_period_at(1_000, 1_000);
    assert_eq!(closed.moved, Accumulated { cumulative: false, periodic: true });
    assert_eq!(closed.store, Some(1_000i64.to_le_bytes()));
}

#[test]
fn total_is_compared_with_the_last_close() {
    // One watt for 1.8 s is half a milliwatt-hour, so every second period moves the total.
    let mut heater = MillHeater::new_at(None, 1, 0);
    heater.recv_status_at(&status(22, 19, 1, 1), 0);
    let mut moved = Vec::new();
    for now in [1_800, 3_600, 5_400, 7_200] {
        let before = heater.energy_mwh();
        let closed = heater.close_period_at(now, now);
        assert_eq!(closed.moved.cumulative, heater.energy_mwh() != before);
        moved.push(closed.moved.cumulative);
    }
    assert_eq!(moved, vec![false, true, false, true]);
}

#[test]
fn counter_survives_a_power_cycle() {
    let mut heater = MillHeater::new_at(None, 600, 0);
    heater.recv_status_at(&status(22, 19, 1, 1), 0);
    let closed = heater.close_period_at(3_600_000, 3_600_000);
    let booted = MillHeater::new_at(Some(&closed.store.unwrap()), 600, 0);
    assert_eq!(booted.energy_mwh(), heater.energy_mwh());
    assert!(!booted.reset_at_boot());
}

#[test]
fn correcting_the_rating_sums_two_segments() {
    let mut heater = MillHeater::new_at(None, 600, 0);
    heater.recv_status_at(&status(22, 19, 1, 1), 0);
    heater.set_element_watts_at(1200, 3_600_000);
    assert_eq!(heater.active_power_mw(), 1_200_000);
    heater.close_period_at(7_200_000, 7_200_000);
    assert_eq!(heater.energy_mwh(), 600_000 + 1_200_000);
}

/// A heater rated at 600 W whose counters were last brought up to date at one second.
fn counting(element_on: bool) -> HeaterState {
    HeaterState {
        malformed: 0,
        frames: 0,
        last_frame_ms: None,
        element_on,
        room_c: None,
        setpoint_c: None,
        heat_mode: None,
        last_status_ms: None,
        element_watts: 600,
        mark_ms: 1_000,
        period_mws: 7,
        period_start_ms: 0,
        period: None,
        energy_mws: 40,
        reported_mwh: 0,
        reset_at_boot: false,
    }
}

#[test]
fn sampling_is_immaterial() {
    for element_on in [true, false] {
        let drawn = if element_on { 600 * 4_001 } else { 0 };
        for mid_ms in [1_000, 1_001, 2_718, 5_001] {
            let mut sampled = counting(element_on);
            sampled.integrate(mid_ms);
            sampled.integrate(5_001);
            assert_eq!(sampled.energy_mws, 40 + drawn);
            assert_eq!(sampled.period_mws, 7 + drawn);
            assert_eq!(sampled.mark_ms, 5_001);
        }
    }
}

#[test]
fn clock_going_back_credits_nothing() {
    let mut state = counting(true);
    state.integrate(400);
    assert_eq!((state.energy_mws, state.period_mws, state.mark_ms), (40, 7, 400));
    state.integrate(401);
    assert_eq!((state.energy_mws, state.period_mws), (640, 607));
}

#[test]
fn silence_forgets_everything() {
    let mut heater = MillHeater::new_at(None, 600, 0);
    heater.recv_status_at(&status(22, 19, 1, 1), 0);
    assert_eq!(heater.forget_at(3_600_000), Changed { room: true, element: true });
    assert!(!heater.is_online());
    assert!(!heater.heating());
    assert_eq!(heater.room_temperature(), None);
    assert_eq!(heater.reported_setpoint(), None);
    assert_eq!(heater.reported_heat_mode(), None);
    assert_eq!(heater.energy_mwh(), 600_000);
    assert_eq!(heater.forget_at(7_200_000), Changed { room: false, element: false });
    assert_eq!(heater.energy_mwh(), 600_000);
}

#[test]
fn counter_rolls_over() {
    let mut heater = MillHeater::new_at(Some(&i64::MAX.to_le_bytes()), 3600, 0);
    assert_eq!(heater.energy_mwh(), MAX_ENERGY_MWH);
    heater.recv_status_at(&status(22, 19, 1, 1), 0);
    heater.close_period_at(1_000, 1_000);
    assert_eq!(heater.energy_mwh(), (i64::MAX.wrapping_add(3_600_000)) / 3600);
}

#[test]
fn clock_going_backwards_credits_nothing() {
    let mut heater = MillHeater::new_at(None, 600, 10_000);
    heater.recv_status_at(&status(22, 19, 1, 1), 10_000);
    let closed = heater.close_period_at(9_000, 9_000);
    assert_eq!(closed.store, None);
    assert_eq!(heater.energy_mwh(), 0);
}

#[test]
fn clock_is_read_where_it_has_to_be() {
    // The element runs for as long as this loop takes by the board's own clock, so the
    // period that is closed afterwards has a window, and energy in it.
    let mut heater = MillHeater::new(None, u16::MAX);
    heater.recv_status(&status(22, 19, 1, 1));
    let meter = ElecEnergyDeviceLogic::new();
    let start = meter.cumulative_energy_imported(&heater).unwrap().end_ms;
    let mut now = start;
    while now < start + 50 {
        now = meter.cumulative_energy_imported(&heater).unwrap().end_ms;
    }
    let tick = meter.tick(&mut heater);
    assert!(tick.store.is_some());
    let (_, from, to) = heater.last_period().unwrap();
    assert!(to >= from + 50);
    let stored = i64::from_le_bytes(tick.store.unwrap());
    assert!(stored >= 50 * u16::MAX as i64);
    heater.set_element_watts(600);
    assert_eq!(heater.active_power_mw(), 600_000);
    assert_eq!(heater.forget(), Changed { room: true, element: true });
    heater.close_period();
    assert_eq!(heater.close_period().moved, Accumulated::default());
}

#[test]
fn power_is_reported_when_it_moves() {
    let mut heater = MillHeater::new_at(None, 600, 0);
    let mut power = ElecPwrDeviceLogic::new(&heater);
    assert!(!power.sample(&heater));
    assert_eq!(power.active_power(&heater), Some(0));
    heater.recv_status_at(&status(22, 19, 1, 1), 0);
    assert!(power.sample(&heater));
    assert!(!power.sample(&heater));
    assert_eq!(power.active_power(&heater), Some(600_000));
    assert_eq!(power.reported_power_mw, 600_000);
}

#[test]
fn energy_readings_are_located_in_time() {
    let mut heater = MillHeater::new_at(None, 3600, 0);
    let energy = ElecEnergyDeviceLogic::new();
    assert_eq!(energy.periodic_energy_imported(&heater), None);
    assert_eq!(energy.cumulative_energy_reset(&heater), Some(0));
    heater.recv_status_at(&status(22, 19, 1, 1), 0);
    let tick = energy.tick_at(&mut heater, 5_000, 5_001);
    assert_eq!(
        tick.notify,
        vec![
            EnergyNotification::CumulativeEnergyImported,
            EnergyNotification::PeriodicEnergyImported
        ]
    );
    assert_eq!(
        energy.periodic_energy_imported(&heater),
        Some(EnergyMeasurement { energy_mwh: 5_000, start_ms: Some(0), end_ms: 5_001 })
    );
    assert_eq!(
        energy.cumulative_energy_imported_at(&heater, 6_000),
        Some(EnergyMeasurement { energy_mwh: 5_000, start_ms: None, end_ms: 6_000 })
    );
    let restored = MillHeater::new_at(Some(&tick.store.unwrap()), 3600, 0);
    assert_eq!(energy.cumulative_energy_reset(&restored), None);
}

#[test]
fn idle_ticks_notify_nobody() {
    let mut heater = MillHeater::new_at(None, 600, 0);
    let tick = ElecEnergyDeviceLogic::new().tick_at(&mut heater, 5_000, 5_000);
    assert!(tick.notify.is_empty());
    assert_eq!(tick.store, None);
}

#[test]
fn accuracy_covers_the_range() {
    let power = ElecPwrDeviceLogic::accuracy(&settings());
    assert_eq!(power.measurement, MeasurementType::ActivePower);
    assert_eq!((power.min, power.max, power.percent), (0, 3_680_000, 500));
    let energy = ElecEnergyDeviceLogic::accuracy(&settings());
    assert_eq!(energy.measurement, MeasurementType::ElectricalEnergy);
    assert_eq!((energy.min, energy.max, energy.percent), (0, i64::MAX / 3600, 500));
    assert!(METER_TICK_SECS < ENERGY_PERIOD_SECS);
}

#[test]
fn periods_add_up_to_the_total() {
    let mut heater = MillHeater::new_at(None, 3600, 0);
    heater.recv_status_at(&status(22, 19, 1, 1), 0);
    let mut sum = 0;
    for now in [1_000, 3_000, 6_000, 10_000] {
        heater.close_period_at(now, now);
        sum += heater.last_period().unwrap().0;
    }
    assert_eq!(heater.energy_mwh(), sum);
    assert_eq!(sum, 10_000);
}

#[test]
fn only_setting_the_rating_moves_it() {
    let mut heater = MillHeater::new_at(None, 600, 0);
    heater.recv_status_at(&status(22, 19, 1, 1), 0);
    heater.close_period_at(1_000, 1_000);
    heater.forget_at(2_000);
    heater.recv_status_at(&status(22, 19, 1, 1), 3_000);
    assert_eq!(heater.active_power_mw(), 600_000);
}

#[test]
fn power_stays_within_the_quoted_range() {
    let top = ElecPwrDeviceLogic::accuracy(&settings()).max;
    for watts in [0, 1, 600, 3680] {
        let mut heater = MillHeater::new_at(None, watts, 0);
        heater.recv_status_at(&status(22, 19, 1, 1), 0);
        assert!((0..=top).contains(&heater.active_power_mw()));
    }
}
