use mill_matter::attr::{
    AttrError, AttrPath, ATTR_ELEMENT_WATTS, ELEMENT_WATTS_CLUSTER_ID, VENDOR_ID,
};
use mill_matter::element::{
    default_mode, modes, modes_are_well_formed, unusable_rating, watts_of, ElementRating,
    ElementWattsHandler, Mode, SemanticTag, WattsRead, CUSTOM_MODE,
};
use mill_matter::heater::MillHeater;
use mill_matter::mill::{checksum, END, OPCODE_STATUS, START};

/// A heater whose element is on, so that its power is its rating.
fn running(watts: u16) -> MillHeater {
    let payload = [0, 0, 0, 0, OPCODE_STATUS, 0, 22, 19, 0, 1, 0, 1];
    let mut frame = vec![START];
    frame.extend_from_slice(&payload);
    frame.push(checksum(&payload));
    frame.push(END);
    let mut heater = MillHeater::new_at(None, watts, 0);
    heater.recv_status_at(&frame, 0);
    heater
}

#[test]
fn mode_table_is_what_mill_ships() {
    let table = modes();
    let ratings = [250, 400, 600, 700, 800, 900, 1000, 1200, 1300, 1500, 2000];
    assert_eq!(table.len(), 12);
    for (i, watts) in ratings.iter().enumerate() {
        assert_eq!(table[i].id as usize, i);
        assert_eq!(table[i].label, format!("{watts} W"));
        assert_eq!(table[i].tags, vec![SemanticTag { vendor: VENDOR_ID, value: *watts }]);
        assert_eq!(watts_of(i as u8), Some(*watts));
        assert_eq!(default_mode(*watts), i as u8);
    }
    assert_eq!(table[11].id, CUSTOM_MODE);
    assert_eq!(table[11].label, "Custom");
    assert_eq!(table[11].tags[0].value, 0);
    assert!(modes_are_well_formed(&table));
}

#[test]
fn ill_formed_tables_are_told() {
    let tag = SemanticTag { vendor: VENDOR_ID, value: 250 };
    let twice = vec![
        Mode { id: 0, label: "a", tags: vec![tag] },
        Mode { id: 1, label: "b", tags: vec![tag] },
        Mode { id: 0, label: "c", tags: vec![tag] },
    ];
    assert!(!modes_are_well_formed(&twice));
    let untagged = vec![Mode { id: 0, label: "a", tags: vec![] }];
    assert!(!modes_are_well_formed(&untagged));
    assert!(modes_are_well_formed(&vec![]));
}

#[test]
fn unlisted_modes_have_no_rating() {
    assert_eq!(watts_of(CUSTOM_MODE), None);
    assert_eq!(watts_of(12), None);
    assert_eq!(watts_of(255), None);
    assert_eq!(default_mode(582), CUSTOM_MODE);
    assert_eq!(default_mode(0), CUSTOM_MODE);
}

#[test]
fn configured_rating_is_the_default() {
    for watts in [600, 582, 1, 3680] {
        let mut heater = running(1);
        let rating = ElementRating::new_at(None, watts, 3680, &mut heater, 0);
        assert_eq!(rating.effective_watts(), watts);
        assert_eq!(heater.active_power_mw(), watts as i64 * 1000);
    }
}

#[test]
fn unusable_ratings_fall_back() {
    let mut heater = running(1);
    for stored in [&[][..], &[7][..], &0u16.to_le_bytes()[..], &1001u16.to_le_bytes()[..]] {
        let rating = ElementRating::new_at(Some(stored), 600, 1000, &mut heater, 0);
        assert_eq!(rating.custom_watts, 600);
        assert_eq!(rating.legacy_mode, None);
    }
    let rating = ElementRating::new_at(Some(&1000u16.to_le_bytes()), 600, 1000, &mut heater, 0);
    assert_eq!(rating.custom_watts, 1000);
}

#[test]
fn high_ceilings_refuse_no_figure() {
    let mut heater = running(1);
    let stored = u16::MAX.to_le_bytes();
    let mut rating = ElementRating::new_at(Some(&stored), 600, 70_000, &mut heater, 0);
    assert_eq!(rating.custom_watts, u16::MAX);
    assert_eq!(unusable_rating(Some(&stored), 70_000), None);
    assert!(rating.set_custom_watts_at(&mut heater, 65_000, 0).is_ok());
    assert!(rating.set_custom_watts_at(&mut heater, 0, 0).is_err());
    rating.change_to_mode_at(&mut heater, CUSTOM_MODE, 0).unwrap();
    assert_eq!(heater.active_power_mw(), 65_000_000);
}

#[test]
fn exact_figure_takes_effect() {
    let mut heater = running(1);
    let mut rating = ElementRating::new_at(None, 600, 3680, &mut heater, 0);
    let set = rating.set_custom_watts_at(&mut heater, 582, 0).unwrap();
    assert!(set.switch_mode);
    assert_eq!(set.store, [0x46, 0x02]);
    // The mode has yet to follow.
    assert_eq!(heater.active_power_mw(), 600_000);
    rating.change_to_mode_at(&mut heater, CUSTOM_MODE, 0).unwrap();
    assert_eq!(rating.effective_watts(), 582);
    assert_eq!(heater.active_power_mw(), 582_000);
    let set = rating.set_custom_watts(&mut heater, 590).unwrap();
    assert!(!set.switch_mode);
    assert_eq!(heater.active_power_mw(), 590_000);
}

#[test]
fn refused_figures_leave_no_trace() {
    let mut heater = running(1);
    let mut rating = ElementRating::new_at(None, 582, 1000, &mut heater, 0);
    for watts in [0, 1001, u16::MAX] {
        let result = rating.set_custom_watts_at(&mut heater, watts, 0);
        assert_eq!(result.err(), Some(AttrError::ConstraintError));
        assert_eq!(rating.custom_watts, 582);
        assert_eq!(heater.active_power_mw(), 582_000);
    }
}

#[test]
fn listed_ratings_read_back_as_the_exact_figure() {
    let mut heater = running(1);
    let mut rating = ElementRating::new_at(None, 600, 1000, &mut heater, 0);
    let handler = ElementWattsHandler::new(2);
    rating.change_to_mode(&mut heater, 4).unwrap();
    assert_eq!(handler.read(&rating, false, ATTR_ELEMENT_WATTS), Ok(WattsRead::Watts(800)));
    assert_eq!(heater.active_power_mw(), 800_000);
    // 1200 W is above what the circuit carries.
    assert_eq!(rating.change_to_mode_at(&mut heater, 7, 0), Err(AttrError::ConstraintError));
    assert_eq!(rating.effective_watts(), 800);
    assert_eq!(heater.active_power_mw(), 800_000);
}

#[test]
fn exact_figure_survives_a_power_cycle() {
    let mut heater = running(1);
    let mut rating = ElementRating::new_at(None, 600, 3680, &mut heater, 0);
    let set = rating.set_custom_watts_at(&mut heater, 582, 0).unwrap();
    let booted = ElementRating::new(Some(&set.store), 600, 3680, &mut heater);
    assert_eq!(booted.custom_watts, 582);
    assert_eq!(booted.legacy_mode, None);
    assert_eq!(booted.save_state(), set.store);
    // A ceiling lowered since makes it a figure nobody can justify.
    let lowered = ElementRating::new_at(Some(&set.store), 500, 500, &mut heater, 0);
    assert_eq!(lowered.custom_watts, 500);
}

#[test]
fn older_rating_is_migrated_once() {
    let mut heater = running(1);
    let older = [7, 0x46, 0x02];
    let mut rating = ElementRating::new_at(Some(&older), 600, 3680, &mut heater, 0);
    assert_eq!(rating.legacy_mode, Some(7));
    assert_eq!(rating.custom_watts, 582);
    let mut handler = ElementWattsHandler::new(2);
    assert_eq!(handler.start_at(&mut rating, &mut heater, 2, 0), Some(7));
    assert_eq!(rating.legacy_mode, None);
    rating.change_to_mode_at(&mut heater, 7, 0).unwrap();
    handler.settle(&rating);
    let polled = handler.poll(&rating);
    assert_eq!(polled.store, Some([0x46, 0x02]));
    assert_eq!(polled.report, None);
    assert_eq!(handler.poll(&rating).store, None);
}

#[test]
fn mode_changes_are_reported_by_the_poll() {
    let mut heater = running(1);
    let mut rating = ElementRating::new_at(None, 600, 3680, &mut heater, 0);
    let mut handler = ElementWattsHandler::new(2);
    assert_eq!(handler.start(&mut rating, &mut heater, 6), None);
    assert_eq!(heater.active_power_mw(), 1_000_000);
    handler.settle(&rating);
    assert_eq!(handler.poll(&rating).report, None);
    rating.change_to_mode_at(&mut heater, 7, 0).unwrap();
    let polled = handler.poll(&rating);
    assert_eq!(
        polled.report,
        Some(AttrPath {
            endpoint: 2,
            cluster: ELEMENT_WATTS_CLUSTER_ID,
            attr: ATTR_ELEMENT_WATTS
        })
    );
    assert_eq!(polled.store, None);
    assert_eq!(handler.poll(&rating).report, None);
}

#[test]
fn reads_are_routed() {
    let mut heater = running(1);
    let rating = ElementRating::new_at(None, 600, 3680, &mut heater, 0);
    let handler = ElementWattsHandler::new(2);
    assert_eq!(handler.read(&rating, true, 0xFFFD), Ok(WattsRead::Global));
    assert_eq!(handler.read(&rating, false, 0x0000), Ok(WattsRead::Watts(600)));
    assert_eq!(handler.read(&rating, false, 0x0001), Err(AttrError::AttributeNotFound));
}

#[test]
fn writes_are_routed() {
    let mut heater = running(1);
    let mut rating = ElementRating::new_at(None, 582, 3680, &mut heater, 0);
    let handler = ElementWattsHandler::new(2);
    let refused = handler.write_at(&mut rating, &mut heater, true, 0, Some(1), 0);
    assert_eq!(refused.err(), Some(AttrError::InvalidAction));
    let refused = handler.write_at(&mut rating, &mut heater, false, 1, Some(1), 0);
    assert_eq!(refused.err(), Some(AttrError::AttributeNotFound));
    let refused = handler.write_at(&mut rating, &mut heater, false, 0, None, 0);
    assert_eq!(refused.err(), Some(AttrError::InvalidDataType));
    let refused = handler.write_at(&mut rating, &mut heater, false, 0, Some(0), 0);
    assert_eq!(refused.err(), Some(AttrError::ConstraintError));
    let set = handler.write(&mut rating, &mut heater, false, 0, Some(700)).unwrap();
    assert!(!set.switch_mode);
    assert_eq!(set.store, 700u16.to_le_bytes());
    assert_eq!(heater.active_power_mw(), 700_000);
}

#[test]
fn data_version_follows_its_own_cluster() {
    let handler = ElementWattsHandler::new(2);
    assert!(handler.bump_dataver(None));
    assert!(handler.bump_dataver(Some(0xFFF1_FC01)));
    assert!(!handler.bump_dataver(Some(0xFFF1_FC02)));
}

#[test]
fn selection_is_described() {
    let mut heater = running(1);
    let rating = ElementRating::new_at(None, 600, 3680, &mut heater, 0);
    assert_eq!(rating.description(), "Heating element rating");
    assert_eq!(rating.supported_modes().len(), 12);
}

#[test]
fn unknown_mode_meters_at_the_configured_rating() {
    let mut heater = running(1);
    let mut rating = ElementRating::new_at(None, 582, 3680, &mut heater, 0);
    rating.change_to_mode_at(&mut heater, 99, 0).unwrap();
    assert_eq!(rating.effective_watts(), 582);
}

#[test]
fn reset_device_is_as_built() {
    // What a board finds once every key has been removed.
    let mut heater = MillHeater::new_at(None, 1, 0);
    assert_eq!(heater.energy_mwh(), 0);
    assert!(heater.reset_at_boot());
    let rating = ElementRating::new_at(None, 600, 3680, &mut heater, 0);
    assert_eq!(rating.effective_watts(), 600);
    assert_eq!(rating.legacy_mode, None);
}

#[test]
fn ratings_stay_in_range() {
    let mut heater = running(1);
    let mut rating = ElementRating::new_at(None, 600, 1000, &mut heater, 0);
    for watts in [0, 1, 500, 1000, 1001, 65535] {
        let accepted = rating.set_custom_watts_at(&mut heater, watts, 0).is_ok();
        assert_eq!(accepted, (1..=1000).contains(&watts));
        assert!((1..=1000).contains(&rating.custom_watts));
    }
    for mode in 0..=255 {
        let accepted = rating.change_to_mode_at(&mut heater, mode, 0).is_ok();
        assert_eq!(accepted, watts_of(mode).map_or(true, |watts| watts <= 1000));
        assert_eq!(heater.active_power_mw(), rating.effective_watts() as i64 * 1000);
    }
}

#[test]
fn unusable_figures_are_told() {
    assert_eq!(unusable_rating(None, 1000), None);
    assert_eq!(unusable_rating(Some(&[7]), 1000), None);
    assert_eq!(unusable_rating(Some(&1000u16.to_le_bytes()), 1000), None);
    assert_eq!(unusable_rating(Some(&1001u16.to_le_bytes()), 1000), Some(1001));
    assert_eq!(unusable_rating(Some(&[3, 0, 0]), 1000), Some(0));
}
