//! What the heating element is rated at, as something a user can set rather than
//! something the firmware was built with.
//!
//! There is no metering hardware in the Mill, so the element's plate rating *is* the
//! meter: every reading served is that number gated on one bit of the Mill's status
//! frame. It is exposed twice, and the two halves are one value:
//!
//! - **Mode Select** offers [`modes`] - the ratings Mill actually ships - as a list to
//!   pick from.
//! - **A manufacturer-specific cluster** takes the exact figure, for a plate that reads
//!   582 W rather than 600, or a model not on the list.
//!
//! [`ElementRating`] is the single piece of state behind both, and [`CUSTOM_MODE`] is what
//! keeps them honest: `CurrentMode` must always name a supported mode, so "somebody wrote
//! an exact figure" has to be *sayable* in the mode list. Writing an exact figure switches
//! `CurrentMode` to `Custom`. It runs the other way too: the exact figure reads back the
//! rating *in force*, so picking `1200 W` from the list makes it read 1200.

use vstd::prelude::*;

use crate::attr::{
    concerns, AttrError, AttrPath, ATTR_ELEMENT_WATTS, ELEMENT_WATTS_CLUSTER_ID, VENDOR_ID,
};
use crate::bytes::{u16_from_le_bytes, u16_to_le_bytes};
use crate::clock::uptime_ms;
use crate::config::Settings;
use crate::heater::{HeaterState, MillHeater};
use crate::vendor_kv::load_blob;

verus! {

/// The mode that means "the rating is the exact figure, not one of this list".
///
/// Last rather than first so that [`modes`] reads as the ascending list of ratings it is.
pub const CUSTOM_MODE: u8 = 11;

/// The tag value for [`CUSTOM_MODE`]: not a wattage.
pub const CUSTOM_TAG: u16 = 0;

/// How many modes there are, [`CUSTOM_MODE`] included.
pub const MODE_COUNT: usize = 12;

/// How often the rating is resampled for the benefit of subscribers, in seconds.
pub const RATING_POLL_SECS: u64 = 5;

/// The length of the persisted rating: the custom wattage as a little-endian `u16`.
pub const RATING_LEN: usize = 2;

/// The length of an older, mode-carrying rating: the mode, then the custom wattage.
pub const LEGACY_RATING_LEN: usize = 3;

/// What a mode means to a client that knows the vendor's namespace.
#[derive(Clone, Copy, Debug, PartialEq, Eq, Structural)]
pub struct SemanticTag {
    /// The vendor whose namespace the tag belongs to.
    pub vendor: u16,
    /// The value. For a rating, it is the wattage.
    pub value: u16,
}

/// A mode that can be selected.
#[derive(Debug)]
pub struct Mode {
    /// The mode's value. Modes are persisted, so they may never be renumbered.
    pub id: u8,
    /// For a human to recognise their heater by.
    pub label: &'static str,
    /// The machine-readable half.
    pub tags: Vec<SemanticTag>,
}

/// The ratings Mill ships its Gen 2 panels at, in watts, by mode; then the tag that
/// stands for none of them.
pub open spec fn tag_value(mode: int) -> u16 {
    seq![250u16, 400, 600, 700, 800, 900, 1000, 1200, 1300, 1500, 2000, CUSTOM_TAG][mode]
}

/// What the modes are called.
pub open spec fn mode_label(mode: int) -> Seq<char> {
    seq![
        "250 W"@,
        "400 W"@,
        "600 W"@,
        "700 W"@,
        "800 W"@,
        "900 W"@,
        "1000 W"@,
        "1200 W"@,
        "1300 W"@,
        "1500 W"@,
        "2000 W"@,
        "Custom"@,
    ][mode]
}

/// The rating that a listed mode means, in watts. [`CUSTOM_MODE`] has none of its own.
pub open spec fn listed_watts(mode: u8) -> Option<u16> {
    if mode < CUSTOM_MODE {
        Some(tag_value(mode as int))
    } else {
        None
    }
}

/// The mode that means a rating: the listed one, if there is one.
pub open spec fn mode_for(watts: u16) -> u8 {
    if watts == 250 {
        0
    } else if watts == 400 {
        1
    } else if watts == 600 {
        2
    } else if watts == 700 {
        3
    } else if watts == 800 {
        4
    } else if watts == 900 {
        5
    } else if watts == 1000 {
        6
    } else if watts == 1200 {
        7
    } else if watts == 1300 {
        8
    } else if watts == 1500 {
        9
    } else if watts == 2000 {
        10
    } else {
        CUSTOM_MODE
    }
}

/// Whether `modes` is the table of modes.
pub open spec fn is_mode_table(modes: Seq<Mode>) -> bool {
    &&& modes.len() == MODE_COUNT
    &&& forall|i: int|
        0 <= i < MODE_COUNT ==> {
            &&& (#[trigger] modes[i]).id == i
            &&& modes[i].label@ == mode_label(i)
            &&& modes[i].tags@ == seq![SemanticTag { vendor: VENDOR_ID, value: tag_value(i) }]
        }
}

/// Whether every mode carries a tag to read its rating out of, and no two share a value.
pub open spec fn well_formed(modes: Seq<Mode>) -> bool {
    &&& forall|i: int| 0 <= i < modes.len() ==> (#[trigger] modes[i]).tags@.len() > 0
    &&& forall|i: int, j: int|
        0 <= i < j < modes.len() ==> (#[trigger] modes[i]).id != (#[trigger] modes[j]).id
}

/// A mode whose tag is its rating.
fn mode(id: u8, label: &'static str, value: u16) -> (made: Mode)
    ensures
        made.id == id,
        made.label@ == label@,
        made.tags@ == seq![SemanticTag { vendor: VENDOR_ID, value }],
{
    let mut tags: Vec<SemanticTag> = Vec::new();
    tags.push(SemanticTag { vendor: VENDOR_ID, value });
    proof {
        assert(tags@ =~= seq![SemanticTag { vendor: VENDOR_ID, value }]);
    }

    Mode { id, label, tags }
}

/// The ratings Mill ships its Gen 2 panels at, plus [`CUSTOM_MODE`].
///
/// The first entry is the *lowest* rating: a device that falls back to it understates its
/// energy rather than inventing energy it never drew.
pub fn modes() -> (table: Vec<Mode>)
    ensures
        is_mode_table(table@),
{
    let mut table: Vec<Mode> = Vec::new();
    table.push(mode(0, "250 W", 250));
    table.push(mode(1, "400 W", 400));
    table.push(mode(2, "600 W", 600));
    table.push(mode(3, "700 W", 700));
    table.push(mode(4, "800 W", 800));
    table.push(mode(5, "900 W", 900));
    table.push(mode(6, "1000 W", 1000));
    table.push(mode(7, "1200 W", 1200));
    table.push(mode(8, "1300 W", 1300));
    table.push(mode(9, "1500 W", 1500));
    table.push(mode(10, "2000 W", 2000));
    table.push(mode(CUSTOM_MODE, "Custom", CUSTOM_TAG));

    table
}

/// Whether every entry of a mode table is well formed: a unique value, and a semantic tag
/// to read the rating out of.
pub fn modes_are_well_formed(modes: &Vec<Mode>) -> (ok: bool)
    ensures
        ok == well_formed(modes@),
{
    let mut i: usize = 0;

    while i < modes.len()
        invariant
            i <= modes@.len(),
            forall|k: int| 0 <= k < i ==> (#[trigger] modes@[k]).tags@.len() > 0,
            forall|k: int, l: int|
                0 <= k < i && k < l < modes@.len() ==> (#[trigger] modes@[k]).id != (
                #[trigger] modes@[l]).id,
        decreases modes@.len() - i,
    {
        if modes[i].tags.len() == 0 {
            return false;
        }
        let mut j: usize = i + 1;

        while j < modes.len()
            invariant
                i < j <= modes@.len(),
                forall|l: int| i < l < j ==> modes@[i as int].id != (#[trigger] modes@[l]).id,
            decreases modes@.len() - j,
        {
            if modes[i].id == modes[j].id {
                return false;
            }
            j += 1;
        }
        i += 1;
    }

    true
}

/// The rating a mode means, in watts, or `None` if it is not a listed rating.
pub fn watts_of(mode: u8) -> (watts: Option<u16>)
    ensures
        watts == listed_watts(mode),
{
    if mode == CUSTOM_MODE {
        return None;
    }
    let table: Vec<Mode> = modes();
    let mut i: usize = 0;

    while i < table.len()
        invariant
            i <= MODE_COUNT,
            is_mode_table(table@),
            mode != CUSTOM_MODE,
            mode >= i,
        decreases MODE_COUNT - i,
    {
        if table[i].id == mode {
            return Some(table[i].tags[0].value);
        }
        i += 1;
    }

    None
}

/// The mode that a device with nothing stored comes up in: its configured rating,
/// expressed as a listed mode where one matches and as [`CUSTOM_MODE`] where none does.
pub fn default_mode(default_watts: u16) -> (mode: u8)
    ensures
        mode == mode_for(default_watts),
{
    let table: Vec<Mode> = modes();
    let mut i: usize = 0;

    while i < table.len()
        invariant
            i <= MODE_COUNT,
            is_mode_table(table@),
            forall|k: int| 0 <= k < i && k < CUSTOM_MODE ==> tag_value(k) != default_watts,
        decreases MODE_COUNT - i,
    {
        if table[i].id != CUSTOM_MODE && table[i].tags[0].value == default_watts {
            return table[i].id;
        }
        i += 1;
    }
    proof {
        assert(tag_value(0) != default_watts && tag_value(1) != default_watts);
        assert(tag_value(2) != default_watts && tag_value(3) != default_watts);
        assert(tag_value(4) != default_watts && tag_value(5) != default_watts);
        assert(tag_value(6) != default_watts && tag_value(7) != default_watts);
        assert(tag_value(8) != default_watts && tag_value(9) != default_watts);
        assert(tag_value(10) != default_watts);
    }

    CUSTOM_MODE
}

/// What the heating element is rated at: the state behind the Mode Select cluster and the
/// manufacturer-specific one alike.
#[derive(Clone, Copy, Debug)]
pub struct ElementRating {
    /// `CurrentMode` as its handler last had it.
    pub mode: u8,
    /// The exact figure, in watts.
    pub custom_watts: u16,
    /// A `CurrentMode` found in an older firmware's blob, awaiting handover to its
    /// handler.
    pub legacy_mode: Option<u8>,
    /// The configured rating, in watts.
    pub default_watts: u16,
    /// The ceiling on any rating, in watts.
    pub circuit_max_watts: u32,
}

/// What [`ElementRating::set_custom_watts`] came to.
#[derive(Clone, Copy, Debug)]
pub struct RatingSet {
    /// Whether `CurrentMode` now has to move to [`CUSTOM_MODE`].
    pub switch_mode: bool,
    /// The rating as it now has to be persisted.
    pub store: [u8; RATING_LEN],
}

/// The mode and the exact figure that a persisted rating holds. A blob of three bytes or
/// more is an older one, with the mode first; one shorter than two holds nothing.
pub open spec fn stored_rating(stored: Option<Seq<u8>>) -> (Option<u8>, Option<u16>) {
    match stored {
        Some(bytes) => if bytes.len() >= LEGACY_RATING_LEN {
            (Some(bytes[0]), Some(crate::bytes::le_u16(seq![bytes[1], bytes[2]]) as u16))
        } else if bytes.len() == RATING_LEN {
            (None, Some(crate::bytes::le_u16(bytes) as u16))
        } else {
            (None, None)
        },
        None => (None, None),
    }
}

impl ElementRating {
    /// What every rating satisfies: neither figure is nothing, or above the ceiling.
    pub open spec fn wf(self) -> bool {
        &&& 1 <= self.custom_watts <= self.circuit_max_watts
        &&& 1 <= self.default_watts <= self.circuit_max_watts
    }

    /// The rating in force, in watts.
    pub open spec fn in_force(self) -> u16 {
        if self.mode == CUSTOM_MODE {
            self.custom_watts
        } else {
            match listed_watts(self.mode) {
                Some(watts) => watts,
                None => self.default_watts,
            }
        }
    }

    /// Whether a figure may be set as the exact rating.
    pub open spec fn accepts_watts(self, watts: u16) -> bool {
        1 <= watts <= self.circuit_max_watts
    }

    /// Whether a mode may be selected: no listed rating above the ceiling may.
    pub open spec fn accepts_mode(self, mode: u8) -> bool {
        listed_watts(mode) matches Some(watts) ==> watts <= self.circuit_max_watts
    }

    /// What [`ElementRating::new_at`] comes up with.
    ///
    /// A stored figure may be above a ceiling that has since been lowered; the configured
    /// rating is a better answer than a reading nobody can justify.
    pub open spec fn at_boot(
        stored: Option<Seq<u8>>,
        default_watts: u16,
        circuit_max_watts: u32,
    ) -> ElementRating {
        let (legacy_mode, watts) = stored_rating(stored);
        ElementRating {
            mode: mode_for(default_watts),
            custom_watts: match watts {
                Some(watts) => if 1 <= watts <= circuit_max_watts {
                    watts
                } else {
                    default_watts
                },
                None => default_watts,
            },
            legacy_mode,
            default_watts,
            circuit_max_watts,
        }
    }
}

/// The persisted figure that [`ElementRating::at_boot`] passes over: one that is nothing, or
/// above the ceiling.
pub open spec fn passed_over(stored: Option<Seq<u8>>, circuit_max_watts: u32) -> Option<u16> {
    match stored_rating(stored).1 {
        Some(watts) => if 1 <= watts <= circuit_max_watts {
            None
        } else {
            Some(watts)
        },
        None => None,
    }
}

/// The mode and the exact figure that a persisted rating holds.
fn load_rating(stored: Option<&[u8]>) -> (rating: (Option<u8>, Option<u16>))
    ensures
        rating == stored_rating(crate::heater::opt_view(stored)),
{
    let mut buf: [u8; LEGACY_RATING_LEN] = [0u8; LEGACY_RATING_LEN];
    let loaded: Option<usize> = load_blob(stored, &mut buf);

    if loaded == Some(RATING_LEN) {
        proof {
            let bytes = crate::heater::opt_view(stored)->Some_0;
            assert(bytes =~= seq![buf@[0], buf@[1]]);
        }

        (None, Some(u16_from_le_bytes(buf[0], buf[1])))
    } else if loaded == Some(LEGACY_RATING_LEN) {
        (Some(buf[0]), Some(u16_from_le_bytes(buf[1], buf[2])))
    } else {
        (None, None)
    }
}

/// The persisted figure that [`ElementRating::new`] passes over for the configured rating,
/// which is worth a warning.
pub fn unusable_rating(stored: Option<&[u8]>, circuit_max_watts: u32) -> (watts: Option<u16>)
    ensures
        watts == passed_over(crate::heater::opt_view(stored), circuit_max_watts),
{
    match load_rating(stored).1 {
        Some(watts) => if watts < 1 || watts as u32 > circuit_max_watts {
            Some(watts)
        } else {
            None
        },
        None => None,
    }
}

/// Whether the heater is metering at the rating in force.
pub open spec fn in_step(rating: ElementRating, heater: HeaterState) -> bool {
    heater.element_watts == rating.in_force()
}

/// Whether restoring a rating comes to `rating` and leaves `heater_after` behind.
pub open spec fn boots_to(
    stored: Option<Seq<u8>>,
    default_watts: u16,
    circuit_max_watts: u32,
    rating: ElementRating,
    heater: crate::heater::Link,
    heater_after: crate::heater::Link,
    now_ms: u64,
) -> bool {
    &&& rating == ElementRating::at_boot(stored, default_watts, circuit_max_watts)
    &&& heater_after.phase == heater.phase
    &&& heater_after.state == heater.state.rerated(rating.in_force(), now_ms)
}

impl ElementRating {
    /// Restore the exact rating from what the key-value store holds for it, and push the
    /// configured rating, `default_watts`, onto the heater.
    ///
    /// The mode in force is not known until its handler has restored it;
    /// [`ElementWattsHandler::start`] adopts it from there.
    pub fn new(
        stored: Option<&[u8]>,
        default_watts: u16,
        circuit_max_watts: u32,
        heater: &mut MillHeater,
    ) -> (rating: Self)
        ensures
            rating == ElementRating::at_boot(
                crate::heater::opt_view(stored),
                default_watts,
                circuit_max_watts,
            ),
            1 <= default_watts <= circuit_max_watts ==> rating.wf(),
            final(heater)@.phase == old(heater)@.phase,
            exists|now_ms: u64|
                final(heater)@.state == #[trigger] old(heater)@.state.rerated(
                    rating.in_force(),
                    now_ms,
                ),
    {
        let now_ms: u64 = uptime_ms();

        Self::new_at(stored, default_watts, circuit_max_watts, heater, now_ms)
    }

    /// [`Self::new`], at `now_ms`.
    pub fn new_at(
        stored: Option<&[u8]>,
        default_watts: u16,
        circuit_max_watts: u32,
        heater: &mut MillHeater,
        now_ms: u64,
    ) -> (rating: Self)
        ensures
            rating == ElementRating::at_boot(
                crate::heater::opt_view(stored),
                default_watts,
                circuit_max_watts,
            ),
            1 <= default_watts <= circuit_max_watts ==> rating.wf(),
            final(heater)@.phase == old(heater)@.phase,
            final(heater)@.state == old(heater)@.state.rerated(rating.in_force(), now_ms),
            boots_to(
                crate::heater::opt_view(stored),
                default_watts,
                circuit_max_watts,
                rating,
                old(heater)@,
                final(heater)@,
                now_ms,
            ),
    {
        let (legacy_mode, watts) = load_rating(stored);
        let custom_watts: u16 = match watts {
            Some(watts) => if watts < 1 || watts as u32 > circuit_max_watts {
                default_watts
            } else {
                watts
            },
            None => default_watts,
        };
        let rating: ElementRating = ElementRating {
            mode: default_mode(default_watts),
            custom_watts,
            legacy_mode,
            default_watts,
            circuit_max_watts,
        };

        rating.apply(heater, now_ms);

        rating
    }

    /// The rating in force, in watts: the selected mode's, or the exact figure while
    /// [`CUSTOM_MODE`] is selected. A mode in neither category reads as the configured
    /// rating.
    pub fn effective_watts(&self) -> (watts: u16)
        ensures
            watts == self.in_force(),
    {
        if self.mode == CUSTOM_MODE {
            self.custom_watts
        } else {
            match watts_of(self.mode) {
                Some(watts) => watts,
                None => self.default_watts,
            }
        }
    }

    /// Push the rating in force onto the heater.
    fn apply(&self, heater: &mut MillHeater, now_ms: u64)
        ensures
            final(heater)@.phase == old(heater)@.phase,
            final(heater)@.state == old(heater)@.state.rerated(self.in_force(), now_ms),
    {
        heater.set_element_watts_at(self.effective_watts(), now_ms)
    }

    /// Adopt the `CurrentMode` its handler restored, and meter at it.
    fn adopt_mode(&mut self, heater: &mut MillHeater, mode: u8, now_ms: u64)
        ensures
            *final(self) == (ElementRating { mode, ..*old(self) }),
            final(heater)@.phase == old(heater)@.phase,
            final(heater)@.state == old(heater)@.state.rerated(final(self).in_force(), now_ms),
    {
        self.mode = mode;
        self.apply(heater, now_ms)
    }

    /// Set the exact rating, returning whether `CurrentMode` now has to move to
    /// [`CUSTOM_MODE`], and what has to be persisted.
    ///
    /// The move is made through the cluster that owns `CurrentMode`, which lands in
    /// [`Self::change_to_mode`].
    pub fn set_custom_watts(
        &mut self,
        heater: &mut MillHeater,
        watts: u16,
    ) -> (result: Result<RatingSet, AttrError>)
        ensures
            exists|now_ms: u64|
                #[trigger] old(self).sets_to(
                    *final(self),
                    old(heater)@,
                    final(heater)@,
                    watts,
                    result,
                    now_ms,
                ),
    {
        let now_ms: u64 = uptime_ms();

        self.set_custom_watts_at(heater, watts, now_ms)
    }

    /// [`Self::set_custom_watts`], at `now_ms`.
    pub fn set_custom_watts_at(
        &mut self,
        heater: &mut MillHeater,
        watts: u16,
        now_ms: u64,
    ) -> (result: Result<RatingSet, AttrError>)
        ensures
            old(self).sets_to(
                *final(self),
                old(heater)@,
                final(heater)@,
                watts,
                result,
                now_ms,
            ),
    {
        // Checked before anything is mutated, so a rejected write leaves no trace.
        if watts < 1 || watts as u32 > self.circuit_max_watts {
            return Err(AttrError::ConstraintError);
        }
        self.custom_watts = watts;

        if self.mode == CUSTOM_MODE {
            // The heater has to be metering at the new rating before the rating is
            // persisted, or an unclean power-off in between would leave the two
            // disagreeing.
            self.apply(heater, now_ms);

            return Ok(RatingSet { switch_mode: false, store: self.save_state() });
        }

        Ok(RatingSet { switch_mode: true, store: self.save_state() })
    }

    /// Whether writing `watts` leaves `after` and `heater_after` behind and comes to
    /// `result`.
    ///
    /// While [`CUSTOM_MODE`] is selected the figure is in force at once; otherwise it
    /// waits for the mode to follow.
    pub open spec fn sets_to(
        self,
        after: ElementRating,
        heater: crate::heater::Link,
        heater_after: crate::heater::Link,
        watts: u16,
        result: Result<RatingSet, AttrError>,
        now_ms: u64,
    ) -> bool {
        if self.accepts_watts(watts) {
            &&& after == (ElementRating { custom_watts: watts, ..self })
            &&& heater_after.phase == heater.phase
            &&& heater_after.state == if self.mode == CUSTOM_MODE {
                heater.state.rerated(watts, now_ms)
            } else {
                heater.state
            }
            &&& result matches Ok(set) && set.switch_mode == (self.mode != CUSTOM_MODE)
                && crate::bytes::le_u16(set.store@) == watts
        } else {
            &&& after == self
            &&& heater_after == heater
            &&& result == Err::<RatingSet, AttrError>(AttrError::ConstraintError)
        }
    }

    /// The exact rating as it is persisted.
    pub fn save_state(&self) -> (bytes: [u8; RATING_LEN])
        ensures
            crate::bytes::le_u16(bytes@) == self.custom_watts,
            bytes@ == seq![(self.custom_watts % 0x100) as u8, (self.custom_watts / 0x100) as u8],
    {
        u16_to_le_bytes(self.custom_watts)
    }

    /// What this Mode Select instance selects.
    pub fn description(&self) -> (text: &'static str)
        ensures
            text@ == "Heating element rating"@,
    {
        "Heating element rating"
    }

    /// The modes that can be selected.
    pub fn supported_modes(&self) -> (table: Vec<Mode>)
        ensures
            is_mode_table(table@),
    {
        modes()
    }

    /// Adopt `mode` and meter the element at what it says, unless it is a listed rating
    /// above the ceiling.
    pub fn change_to_mode(
        &mut self,
        heater: &mut MillHeater,
        mode: u8,
    ) -> (result: Result<(), AttrError>)
        ensures
            exists|now_ms: u64|
                #[trigger] old(self).changes_to(
                    *final(self),
                    old(heater)@,
                    final(heater)@,
                    mode,
                    result,
                    now_ms,
                ),
    {
        let now_ms: u64 = uptime_ms();

        self.change_to_mode_at(heater, mode, now_ms)
    }

    /// [`Self::change_to_mode`], at `now_ms`.
    pub fn change_to_mode_at(
        &mut self,
        heater: &mut MillHeater,
        mode: u8,
        now_ms: u64,
    ) -> (result: Result<(), AttrError>)
        ensures
            old(self).changes_to(
                *final(self),
                old(heater)@,
                final(heater)@,
                mode,
                result,
                now_ms,
            ),
    {
        if let Some(watts) = watts_of(mode) {
            if watts as u32 > self.circuit_max_watts {
                return Err(AttrError::ConstraintError);
            }
        }
        self.mode = mode;
        self.apply(heater, now_ms);

        Ok(())
    }

    /// Whether selecting `mode` leaves `after` and `heater_after` behind and comes to
    /// `result`.
    pub open spec fn changes_to(
        self,
        after: ElementRating,
        heater: crate::heater::Link,
        heater_after: crate::heater::Link,
        mode: u8,
        result: Result<(), AttrError>,
        now_ms: u64,
    ) -> bool {
        if self.accepts_mode(mode) {
            &&& after == (ElementRating { mode, ..self })
            &&& heater_after.phase == heater.phase
            &&& heater_after.state == heater.state.rerated(after.in_force(), now_ms)
            &&& result == Ok::<(), AttrError>(())
        } else {
            &&& after == self
            &&& heater_after == heater
            &&& result == Err::<(), AttrError>(AttrError::ConstraintError)
        }
    }
}

/// What reading an attribute of the manufacturer-specific cluster is answered with.
#[derive(Clone, Copy, Debug, PartialEq, Eq, Structural)]
pub enum WattsRead {
    /// A global attribute, which the cluster's own description answers.
    Global,
    /// The rating in force, in watts.
    Watts(u16),
}

/// What a poll of [`ElementWattsHandler`] came to.
#[derive(Clone, Copy, Debug)]
pub struct Polled {
    /// The rating as it now has to be persisted, or `None` if nothing has to be.
    pub store: Option<[u8; RATING_LEN]>,
    /// The attribute to report as changed, or `None` if the rating did not move.
    pub report: Option<AttrPath>,
}

/// Serves the manufacturer-specific cluster: one writable attribute.
#[derive(Clone, Copy, Debug, PartialEq, Eq, Structural)]
pub struct ElementWattsHandler {
    /// Where this cluster lives, for the one report that is raised outside an operation
    /// and so carries no path of its own.
    pub endpoint: u16,
    /// Whether an older, mode-carrying rating is still to be rewritten.
    pub migrating: bool,
    /// The rating as last reported, in watts.
    pub reported: u16,
}

/// What a read of an attribute is answered with.
pub open spec fn read_of(
    rating: ElementRating,
    global: bool,
    attr: u32,
) -> Result<WattsRead, AttrError> {
    if global {
        Ok(WattsRead::Global)
    } else if attr == ATTR_ELEMENT_WATTS {
        Ok(WattsRead::Watts(rating.in_force()))
    } else {
        Err(AttrError::AttributeNotFound)
    }
}

/// The error a write ends in before the rating is looked at, if any.
pub open spec fn write_fault(global: bool, attr: u32, watts: Option<u16>) -> Option<AttrError> {
    if global {
        Some(AttrError::InvalidAction)
    } else if attr != ATTR_ELEMENT_WATTS {
        Some(AttrError::AttributeNotFound)
    } else if watts is None {
        Some(AttrError::InvalidDataType)
    } else {
        None
    }
}

/// Whether a write leaves `after` and `heater_after` behind and comes to `result`.
pub open spec fn writes_to(
    rating: ElementRating,
    after: ElementRating,
    heater: crate::heater::Link,
    heater_after: crate::heater::Link,
    global: bool,
    attr: u32,
    watts: Option<u16>,
    result: Result<RatingSet, AttrError>,
    now_ms: u64,
) -> bool {
    match write_fault(global, attr, watts) {
        Some(fault) => {
            &&& after == rating
            &&& heater_after == heater
            &&& result == Err::<RatingSet, AttrError>(fault)
        },
        None => rating.sets_to(after, heater, heater_after, watts->Some_0, result, now_ms),
    }
}

impl ElementWattsHandler {
    /// Whether adopting `mode` leaves `after`, `rating_after` and `heater_after` behind and
    /// hands over `legacy`.
    pub open spec fn starts_to(
        self,
        after: ElementWattsHandler,
        rating: ElementRating,
        rating_after: ElementRating,
        heater: crate::heater::Link,
        heater_after: crate::heater::Link,
        mode: u8,
        legacy: Option<u8>,
        now_ms: u64,
    ) -> bool {
        &&& after == (ElementWattsHandler { migrating: legacy is Some, ..self })
        &&& legacy == rating.legacy_mode
        &&& rating_after == (ElementRating { mode, legacy_mode: None, ..rating })
        &&& heater_after.phase == heater.phase
        &&& heater_after.state == heater.state.rerated(rating_after.in_force(), now_ms)
    }

    /// The handler once start-up is over.
    pub open spec fn settled(self, rating: ElementRating) -> ElementWattsHandler {
        ElementWattsHandler { reported: rating.in_force(), ..self }
    }

    /// Whether polling leaves `after` behind and comes to `polled`.
    pub open spec fn polls_to(
        self,
        after: ElementWattsHandler,
        rating: ElementRating,
        polled: Polled,
    ) -> bool {
        &&& after == (ElementWattsHandler {
            migrating: false,
            reported: rating.in_force(),
            ..self
        })
        &&& polled.store is Some == self.migrating
        &&& polled.store matches Some(bytes) ==> crate::bytes::le_u16(bytes@)
            == rating.custom_watts
        &&& polled.report == if rating.in_force() != self.reported {
            Some(
                AttrPath {
                    endpoint: self.endpoint,
                    cluster: ELEMENT_WATTS_CLUSTER_ID,
                    attr: ATTR_ELEMENT_WATTS,
                },
            )
        } else {
            None
        }
    }

    /// A handler for the cluster on `endpoint`, which has reported nothing yet.
    pub fn new(endpoint: u16) -> (handler: Self)
        ensures
            handler == (ElementWattsHandler { endpoint, migrating: false, reported: 0 }),
    {
        ElementWattsHandler { endpoint, migrating: false, reported: 0 }
    }

    /// Read an attribute; `global` says that it is one of the global ones.
    ///
    /// What is served is the rating actually in force, which is not always the last
    /// figure written: picking a listed mode supersedes it.
    pub fn read(
        &self,
        rating: &ElementRating,
        global: bool,
        attr: u32,
    ) -> (result: Result<WattsRead, AttrError>)
        ensures
            result == read_of(*rating, global, attr),
    {
        if global {
            return Ok(WattsRead::Global);
        }

        if attr == ATTR_ELEMENT_WATTS {
            Ok(WattsRead::Watts(rating.effective_watts()))
        } else {
            Err(AttrError::AttributeNotFound)
        }
    }

    /// Write an attribute. `watts` is the payload, or `None` if it is not a wattage.
    ///
    /// On success the change is to be reported, and `CurrentMode` moved if the result
    /// says so - through the cluster that owns it, so that its subscribers are told.
    pub fn write(
        &self,
        rating: &mut ElementRating,
        heater: &mut MillHeater,
        global: bool,
        attr: u32,
        watts: Option<u16>,
    ) -> (result: Result<RatingSet, AttrError>)
        ensures
            exists|now_ms: u64|
                #[trigger] writes_to(
                    *old(rating),
                    *final(rating),
                    old(heater)@,
                    final(heater)@,
                    global,
                    attr,
                    watts,
                    result,
                    now_ms,
                ),
    {
        let now_ms: u64 = uptime_ms();

        self.write_at(rating, heater, global, attr, watts, now_ms)
    }

    /// [`Self::write`], at `now_ms`.
    pub fn write_at(
        &self,
        rating: &mut ElementRating,
        heater: &mut MillHeater,
        global: bool,
        attr: u32,
        watts: Option<u16>,
        now_ms: u64,
    ) -> (result: Result<RatingSet, AttrError>)
        ensures
            writes_to(
                *old(rating),
                *final(rating),
                old(heater)@,
                final(heater)@,
                global,
                attr,
                watts,
                result,
                now_ms,
            ),
    {
        if global {
            return Err(AttrError::InvalidAction);
        }

        if attr != ATTR_ELEMENT_WATTS {
            return Err(AttrError::AttributeNotFound);
        }

        match watts {
            Some(watts) => rating.set_custom_watts_at(heater, watts, now_ms),
            None => Err(AttrError::InvalidDataType),
        }
    }

    /// Whether an operation on `cluster`, or on every cluster if there is none, changes
    /// this cluster's data version.
    pub fn bump_dataver(&self, cluster: Option<u32>) -> (bump: bool)
        ensures
            bump == (cluster is None || cluster == Some(ELEMENT_WATTS_CLUSTER_ID)),
    {
        concerns(cluster, ELEMENT_WATTS_CLUSTER_ID)
    }

    /// Adopt `current_mode`, which the mode's own handler restored, and return the mode
    /// found in an older firmware's blob, if any, to be handed over to it.
    pub fn start(
        &mut self,
        rating: &mut ElementRating,
        heater: &mut MillHeater,
        current_mode: u8,
    ) -> (legacy: Option<u8>)
        ensures
            *final(self) == (ElementWattsHandler { migrating: legacy is Some, ..*old(self) }),
            legacy == old(rating).legacy_mode,
            *final(rating) == (ElementRating {
                mode: current_mode,
                legacy_mode: None,
                ..*old(rating)
            }),
            final(heater)@.phase == old(heater)@.phase,
            exists|now_ms: u64|
                final(heater)@.state == #[trigger] old(heater)@.state.rerated(
                    final(rating).in_force(),
                    now_ms,
                ),
    {
        let now_ms: u64 = uptime_ms();

        self.start_at(rating, heater, current_mode, now_ms)
    }

    /// [`Self::start`], at `now_ms`.
    pub fn start_at(
        &mut self,
        rating: &mut ElementRating,
        heater: &mut MillHeater,
        current_mode: u8,
        now_ms: u64,
    ) -> (legacy: Option<u8>)
        ensures
            *final(self) == (ElementWattsHandler { migrating: legacy is Some, ..*old(self) }),
            legacy == old(rating).legacy_mode,
            *final(rating) == (ElementRating {
                mode: current_mode,
                legacy_mode: None,
                ..*old(rating)
            }),
            final(heater)@.phase == old(heater)@.phase,
            final(heater)@.state == old(heater)@.state.rerated(
                final(rating).in_force(),
                now_ms,
            ),
            old(self).starts_to(
                *final(self),
                *old(rating),
                *final(rating),
                old(heater)@,
                final(heater)@,
                current_mode,
                legacy,
                now_ms,
            ),
    {
        rating.adopt_mode(heater, current_mode, now_ms);
        let legacy: Option<u8> = rating.legacy_mode;
        rating.legacy_mode = None;
        self.migrating = match legacy {
            Some(_) => true,
            None => false,
        };

        legacy
    }

    /// Take the rating in force once start-up is over as the one already reported.
    pub fn settle(&mut self, rating: &ElementRating)
        ensures
            *final(self) == (ElementWattsHandler { reported: rating.in_force(), ..*old(self) }),
            *final(self) == old(self).settled(*rating),
    {
        self.reported = rating.effective_watts();
    }

    /// What there is to do every [`RATING_POLL_SECS`]: report the rating if a change of
    /// mode moved it, and, the first time after an older rating was found, have it
    /// rewritten in the current form.
    ///
    /// Rewriting drops the older blob's mode, so it waits for the first poll: by then the
    /// mode's own handler has persisted it, and a power cut before then just migrates
    /// again on the next boot.
    pub fn poll(&mut self, rating: &ElementRating) -> (polled: Polled)
        ensures
            *final(self) == (ElementWattsHandler {
                migrating: false,
                reported: rating.in_force(),
                ..*old(self)
            }),
            polled.store is Some == old(self).migrating,
            polled.store matches Some(bytes) ==> crate::bytes::le_u16(bytes@)
                == rating.custom_watts,
            polled.report == if rating.in_force() != old(self).reported {
                Some(
                    AttrPath {
                        endpoint: old(self).endpoint,
                        cluster: ELEMENT_WATTS_CLUSTER_ID,
                        attr: ATTR_ELEMENT_WATTS,
                    },
                )
            } else {
                None
            },
            old(self).polls_to(*final(self), *rating, polled),
    {
        let store: Option<[u8; RATING_LEN]> = if self.migrating {
            Some(rating.save_state())
        } else {
            None
        };
        self.migrating = false;
        let watts: u16 = rating.effective_watts();

        if watts != self.reported {
            self.reported = watts;
            let path: AttrPath = AttrPath {
                endpoint: self.endpoint,
                cluster: ELEMENT_WATTS_CLUSTER_ID,
                attr: ATTR_ELEMENT_WATTS,
            };

            return Polled { store, report: Some(path) };
        }

        Polled { store, report: None }
    }
}

/// The mode table is well formed, and its first entry - where a device lands whose mode
/// has been dropped from the table - is a real rating.
pub proof fn law_mode_table_is_well_formed(modes: Seq<Mode>)
    requires
        is_mode_table(modes),
    ensures
        well_formed(modes),
        modes[0].id != CUSTOM_MODE,
{
}

/// The listed ratings ascend, so the first entry is the lowest one.
pub proof fn law_ratings_ascend(low: u8, high: u8)
    requires
        low < high < CUSTOM_MODE,
    ensures
        listed_watts(low)->Some_0 < listed_watts(high)->Some_0,
        listed_watts(low)->Some_0 != CUSTOM_TAG,
{
    let ratings = seq![250u16, 400, 600, 700, 800, 900, 1000, 1200, 1300, 1500, 2000, CUSTOM_TAG];
    assert(ratings[0] < ratings[1] < ratings[2] < ratings[3] < ratings[4] < ratings[5]);
    assert(ratings[5] < ratings[6] < ratings[7] < ratings[8] < ratings[9] < ratings[10]);
}

/// A rating is listed under exactly the mode that means it.
pub proof fn law_modes_and_ratings_agree(mode: u8, watts: u16)
    requires
        mode < CUSTOM_MODE,
    ensures
        listed_watts(mode) == Some(watts) <==> mode_for(watts) == mode,
{
    let ratings = seq![250u16, 400, 600, 700, 800, 900, 1000, 1200, 1300, 1500, 2000, CUSTOM_TAG];
    assert(ratings[0] == 250 && ratings[1] == 400 && ratings[2] == 600 && ratings[3] == 700);
    assert(ratings[4] == 800 && ratings[5] == 900 && ratings[6] == 1000 && ratings[7] == 1200);
    assert(ratings[8] == 1300 && ratings[9] == 1500 && ratings[10] == 2000);
}

/// A device on which nobody has touched either cluster meters at its configured rating,
/// whether or not that rating is on the list.
pub proof fn law_configured_rating_is_the_default(settings: Settings, default_watts: u16)
    requires
        settings.wf(),
        settings.configured_rating() == Some(default_watts),
    ensures
        ({
            let rating = ElementRating::at_boot(None, default_watts, settings.circuit_max_watts);
            &&& rating.in_force() == settings.element_watts
            &&& rating.wf()
        }),
{
    let mode = mode_for(default_watts);
    if mode < CUSTOM_MODE {
        law_modes_and_ratings_agree(mode, default_watts);
    }
}

/// A figure is accepted if and only if it is at least a watt and at most what the circuit can
/// supply. One that is accepted is the exact figure from then on and is handed over to be
/// persisted, low byte first; one that is refused leaves no trace, and nothing else of the
/// rating moves either way.
pub proof fn law_figures_within_the_circuit_are_accepted(
    rating: ElementRating,
    after: ElementRating,
    heater: crate::heater::Link,
    heater_after: crate::heater::Link,
    watts: u16,
    result: Result<RatingSet, AttrError>,
    now_ms: u64,
)
    requires
        rating.sets_to(after, heater, heater_after, watts, result, now_ms),
    ensures
        result is Ok <==> 1 <= watts <= rating.circuit_max_watts,
        result is Ok ==> after == (ElementRating { custom_watts: watts, ..rating }),
        result matches Ok(set) ==> {
            &&& set.switch_mode <==> rating.mode != 11
            &&& set.store@[0] + 256 * set.store@[1] == watts
        },
        result matches Err(fault) ==> {
            &&& fault == AttrError::ConstraintError
            &&& after == rating
            &&& heater_after == heater
        },
{
}

/// A figure that is written while the exact one is in force is metered at from then on, and
/// what was drawn until then is credited at the one before; while a listed rating is in force,
/// writing one does not touch the meter.
pub proof fn law_written_figures_are_metered_at(
    rating: ElementRating,
    after: ElementRating,
    heater: crate::heater::Link,
    heater_after: crate::heater::Link,
    watts: u16,
    result: Result<RatingSet, AttrError>,
    now_ms: u64,
)
    requires
        rating.sets_to(after, heater, heater_after, watts, result, now_ms),
        result is Ok,
    ensures
        heater_after.phase == heater.phase,
        rating.mode != 11 ==> heater_after == heater && after.in_force() == rating.in_force(),
        rating.mode == 11 ==> {
            &&& heater_after.state.element_watts == watts
            &&& heater_after.state.energy_mws == heater.state.integrated(now_ms).energy_mws
            &&& after.in_force() == watts
        },
{
}

/// A mode is refused if and only if it is a listed rating above what the circuit can supply.
/// One that is accepted is selected from then on and metered at; one that is refused leaves
/// no trace, and nothing else of the rating moves either way.
pub proof fn law_modes_within_the_circuit_are_accepted(
    rating: ElementRating,
    after: ElementRating,
    heater: crate::heater::Link,
    heater_after: crate::heater::Link,
    mode: u8,
    result: Result<(), AttrError>,
    now_ms: u64,
)
    requires
        rating.changes_to(after, heater, heater_after, mode, result, now_ms),
    ensures
        result is Err <==> mode < 11 && tag_value(mode as int) > rating.circuit_max_watts,
        result is Ok ==> {
            &&& after == (ElementRating { mode, ..rating })
            &&& heater_after.phase == heater.phase
            &&& heater_after.state.element_watts == after.in_force()
            &&& heater_after.state.energy_mws == heater.state.integrated(now_ms).energy_mws
        },
        result matches Err(fault) ==> {
            &&& fault == AttrError::ConstraintError
            &&& after == rating
            &&& heater_after == heater
        },
{
}

/// The rating in force is the selected mode's own, the exact figure where that is selected,
/// and the configured one where the mode is none that is known.
pub proof fn law_the_selected_rating_is_in_force(rating: ElementRating)
    ensures
        rating.mode < 11 ==> rating.in_force() == tag_value(rating.mode as int),
        rating.mode == 11 ==> rating.in_force() == rating.custom_watts,
        rating.mode > 11 ==> rating.in_force() == rating.default_watts,
{
}

/// What is stored is restored: two bytes are the exact figure, low byte first, and three are
/// a mode and then the figure. A figure that is nothing, or more than the circuit can supply,
/// is told and replaced by the configured rating; so is one that is not there, untold.
pub proof fn law_stored_figures_are_restored(
    stored: Option<Seq<u8>>,
    default_watts: u16,
    circuit_max_watts: u32,
)
    ensures
        ({
            let booted = ElementRating::at_boot(stored, default_watts, circuit_max_watts);
            let told = passed_over(stored, circuit_max_watts);
            let len = match stored {
                Some(bytes) => bytes.len() as int,
                None => 0,
            };
            let watts = if len >= 3 {
                stored->Some_0[1] + 256 * stored->Some_0[2]
            } else {
                stored->Some_0[0] + 256 * stored->Some_0[1]
            };
            let usable = 1 <= watts <= circuit_max_watts;
            &&& booted.default_watts == default_watts
            &&& booted.circuit_max_watts == circuit_max_watts
            &&& booted.legacy_mode is Some <==> len >= 3
            &&& len >= 3 ==> booted.legacy_mode == Some(stored->Some_0[0])
            &&& len >= 2 && usable ==> booted.custom_watts == watts && told is None
            &&& len >= 2 && !usable ==> booted.custom_watts == default_watts && told == Some(
                watts as u16,
            )
            &&& len < 2 ==> booted.custom_watts == default_watts && told is None
        }),
{
}

/// Until a mode is adopted, a board meters at its configured rating wherever that is a listed
/// one, whatever is stored, and at the exact figure where it is not.
pub proof fn law_boards_boot_at_the_configured_mode(
    stored: Option<Seq<u8>>,
    mode: u8,
    default_watts: u16,
    circuit_max_watts: u32,
)
    ensures
        ({
            let booted = ElementRating::at_boot(stored, default_watts, circuit_max_watts);
            &&& mode < 11 && tag_value(mode as int) == default_watts ==> booted.mode == mode
                && booted.in_force() == default_watts
            &&& booted.mode <= 11
            &&& booted.mode < 11 ==> tag_value(booted.mode as int) == default_watts
            &&& booted.mode == 11 ==> booted.in_force() == booted.custom_watts
        }),
{
    let ratings = seq![250u16, 400, 600, 700, 800, 900, 1000, 1200, 1300, 1500, 2000, CUSTOM_TAG];
    assert(ratings[0] == 250 && ratings[1] == 400 && ratings[2] == 600 && ratings[3] == 700);
    assert(ratings[4] == 800 && ratings[5] == 900 && ratings[6] == 1000 && ratings[7] == 1200);
    assert(ratings[8] == 1300 && ratings[9] == 1500 && ratings[10] == 2000);
}

/// The cluster has one attribute of its own, which reads as the rating in force, is written
/// as a wattage, and is the only one that is; the global ones cannot be written, and others
/// are not there.
pub proof fn law_only_the_rating_is_served(
    rating: ElementRating,
    global: bool,
    attr: u32,
    watts: Option<u16>,
)
    ensures
        read_of(rating, global, attr) == Ok::<WattsRead, AttrError>(WattsRead::Global) <==> global,
        !global && attr == 0 ==> read_of(rating, global, attr) == Ok::<WattsRead, AttrError>(
            WattsRead::Watts(rating.in_force()),
        ),
        !global && attr != 0 ==> read_of(rating, global, attr) == Err::<WattsRead, AttrError>(
            AttrError::AttributeNotFound,
        ),
        write_fault(global, attr, watts) is None <==> !global && attr == 0 && watts is Some,
        write_fault(global, attr, watts) == Some(AttrError::InvalidAction) <==> global,
        write_fault(global, attr, watts) == Some(AttrError::AttributeNotFound) <==> !global && attr
            != 0,
        write_fault(global, attr, watts) == Some(AttrError::InvalidDataType) <==> !global && attr
            == 0 && watts is None,
{
}

/// A write is taken up if and only if it is one of a wattage within the circuit's reach to the
/// one attribute there is; one that is not changes nothing.
pub proof fn law_refused_writes_change_nothing(
    rating: ElementRating,
    after: ElementRating,
    heater: crate::heater::Link,
    heater_after: crate::heater::Link,
    global: bool,
    attr: u32,
    watts: Option<u16>,
    result: Result<RatingSet, AttrError>,
    now_ms: u64,
)
    requires
        writes_to(rating, after, heater, heater_after, global, attr, watts, result, now_ms),
    ensures
        result is Err ==> after == rating && heater_after == heater,
        result is Ok <==> !global && attr == 0 && (watts matches Some(watts) && 1 <= watts
            <= rating.circuit_max_watts),
        result is Ok ==> watts == Some(after.custom_watts),
{
}

/// A change of rating is reported once: polling reports it if and only if it differs from the
/// one last reported, on the cluster's own attribute, and polling again reports nothing and
/// has nothing stored. An older rating is rewritten by the first poll, with the figure it
/// held, and by no other.
pub proof fn law_changes_are_reported_once(
    handler: ElementWattsHandler,
    after: ElementWattsHandler,
    again: ElementWattsHandler,
    rating: ElementRating,
    polled: Polled,
    repolled: Polled,
)
    requires
        handler.polls_to(after, rating, polled),
        after.polls_to(again, rating, repolled),
    ensures
        polled.report is Some <==> rating.in_force() != handler.reported,
        polled.report matches Some(path) ==> path.endpoint == handler.endpoint && path.cluster
            == 0xFFF1_FC01 && path.attr == 0,
        polled.store is Some <==> handler.migrating,
        polled.store matches Some(bytes) ==> bytes@[0] + 256 * bytes@[1] == rating.custom_watts,
        repolled.report is None,
        repolled.store is None,
        again == after,
        after.endpoint == handler.endpoint,
{
}

/// What is in force once start-up is over counts as reported: the next poll reports nothing
/// unless the rating has moved since.
pub proof fn law_start_up_is_not_reported(
    handler: ElementWattsHandler,
    after: ElementWattsHandler,
    rating: ElementRating,
    later: ElementRating,
    polled: Polled,
)
    requires
        handler.settled(rating).polls_to(after, later, polled),
    ensures
        polled.report is None <==> later.in_force() == rating.in_force(),
        handler.settled(rating).migrating == handler.migrating,
        handler.settled(rating).endpoint == handler.endpoint,
{
}

/// Starting up adopts the mode that was restored and meters at it, and hands an older mode
/// over once: starting again finds none.
pub proof fn law_older_mode_is_handed_over_once(
    handler: ElementWattsHandler,
    after: ElementWattsHandler,
    again: ElementWattsHandler,
    rating: ElementRating,
    started: ElementRating,
    restarted: ElementRating,
    heater: crate::heater::Link,
    heater_after: crate::heater::Link,
    heater_again: crate::heater::Link,
    mode: u8,
    legacy: Option<u8>,
    relegacy: Option<u8>,
    now_ms: u64,
    later_ms: u64,
)
    requires
        handler.starts_to(after, rating, started, heater, heater_after, mode, legacy, now_ms),
        after.starts_to(
            again,
            started,
            restarted,
            heater_after,
            heater_again,
            mode,
            relegacy,
            later_ms,
        ),
    ensures
        legacy == rating.legacy_mode,
        after.migrating <==> rating.legacy_mode is Some,
        relegacy is None,
        !again.migrating,
        started.mode == mode,
        started.custom_watts == rating.custom_watts,
        started.default_watts == rating.default_watts,
        started.circuit_max_watts == rating.circuit_max_watts,
        in_step(started, heater_after.state),
        heater_after.phase == heater.phase,
        heater_after.state.energy_mws == heater.state.integrated(now_ms).energy_mws,
{
}

/// From boot on, the heater meters at the rating in force, and what it had counted before is
/// kept.
pub proof fn law_boards_boot_in_step(
    stored: Option<Seq<u8>>,
    default_watts: u16,
    circuit_max_watts: u32,
    rating: ElementRating,
    heater: crate::heater::Link,
    heater_after: crate::heater::Link,
    now_ms: u64,
)
    requires
        boots_to(stored, default_watts, circuit_max_watts, rating, heater, heater_after, now_ms),
    ensures
        in_step(rating, heater_after.state),
        heater_after.phase == heater.phase,
        !heater.state.element_on ==> heater_after.state.energy_mws == heater.state.energy_mws,
        rating.default_watts == default_watts,
        rating.circuit_max_watts == circuit_max_watts,
{
    if !heater.state.element_on {
        let ms = crate::heater::elapsed(heater.state.mark_ms, now_ms);
        assert(0 * crate::heater::rolled_over(ms) == 0);
    }
}

/// A table in which a mode carries no tag, or two modes share a value, is not well formed, and
/// only such a table is not.
pub proof fn law_ill_formed_tables_are_noticed(modes: Seq<Mode>)
    ensures
        !well_formed(modes) <==> {
            ||| exists|i: int| 0 <= i < modes.len() && (#[trigger] modes[i]).tags@.len() == 0
            ||| exists|i: int, j: int|
                0 <= i < j < modes.len() && (#[trigger] modes[i]).id == (#[trigger] modes[j]).id
        },
{
}

/// Every operation keeps both figures between one watt and the ceiling.
pub proof fn law_ratings_stay_in_range(
    rating: ElementRating,
    after: ElementRating,
    heater: crate::heater::Link,
    heater_after: crate::heater::Link,
    watts: u16,
    mode: u8,
    set: Result<RatingSet, AttrError>,
    changed: Result<(), AttrError>,
    now_ms: u64,
)
    requires
        rating.wf(),
    ensures
        rating.sets_to(after, heater, heater_after, watts, set, now_ms) ==> after.wf(),
        rating.changes_to(after, heater, heater_after, mode, changed, now_ms) ==> after.wf(),
{
}

/// The two clusters and the meter never disagree: whatever is written or selected, and
/// whether or not it is refused, the heater goes on metering at the rating in force.
pub proof fn law_meter_follows_the_rating(
    rating: ElementRating,
    after: ElementRating,
    heater: crate::heater::Link,
    heater_after: crate::heater::Link,
    watts: u16,
    mode: u8,
    set: Result<RatingSet, AttrError>,
    changed: Result<(), AttrError>,
    now_ms: u64,
)
    requires
        in_step(rating, heater.state),
    ensures
        rating.sets_to(after, heater, heater_after, watts, set, now_ms) ==> in_step(
            after,
            heater_after.state,
        ),
        rating.changes_to(after, heater, heater_after, mode, changed, now_ms) ==> in_step(
            after,
            heater_after.state,
        ),
{
}

/// An exact figure that is accepted is in force, on both clusters and on the meter, once
/// `CurrentMode` has followed - which it can only if it has to.
pub proof fn law_exact_figure_takes_effect(
    rating: ElementRating,
    written: ElementRating,
    moved: ElementRating,
    heater: crate::heater::Link,
    heater_written: crate::heater::Link,
    heater_moved: crate::heater::Link,
    watts: u16,
    set: RatingSet,
    changed: Result<(), AttrError>,
    write_ms: u64,
    move_ms: u64,
)
    requires
        rating.sets_to(written, heater, heater_written, watts, Ok(set), write_ms),
        set.switch_mode ==> written.changes_to(
            moved,
            heater_written,
            heater_moved,
            CUSTOM_MODE,
            changed,
            move_ms,
        ),
        !set.switch_mode ==> moved == written && heater_moved == heater_written,
    ensures
        set.switch_mode ==> changed is Ok,
        moved.mode == CUSTOM_MODE,
        moved.in_force() == watts,
        heater_moved.state.element_watts == watts,
        read_of(moved, false, ATTR_ELEMENT_WATTS) == Ok::<WattsRead, AttrError>(
            WattsRead::Watts(watts),
        ),
{
}

/// Picking a rating from the list makes the exact figure read it back.
pub proof fn law_listed_rating_reads_back(
    rating: ElementRating,
    after: ElementRating,
    heater: crate::heater::Link,
    heater_after: crate::heater::Link,
    mode: u8,
    now_ms: u64,
)
    requires
        mode < CUSTOM_MODE,
        rating.changes_to(after, heater, heater_after, mode, Ok(()), now_ms),
    ensures
        read_of(after, false, ATTR_ELEMENT_WATTS) == Ok::<WattsRead, AttrError>(
            WattsRead::Watts(listed_watts(mode)->Some_0),
        ),
        heater_after.state.element_watts == listed_watts(mode)->Some_0,
{
}

/// The exact figure survives a power cycle: what writing it hands over to be persisted is
/// what the next boot restores, as long as the ceiling is not lowered below it.
pub proof fn law_exact_figure_survives_a_power_cycle(
    rating: ElementRating,
    after: ElementRating,
    heater: crate::heater::Link,
    heater_after: crate::heater::Link,
    watts: u16,
    set: RatingSet,
    now_ms: u64,
    default_watts: u16,
    circuit_max_watts: u32,
)
    requires
        rating.sets_to(after, heater, heater_after, watts, Ok(set), now_ms),
        watts <= circuit_max_watts,
    ensures
        ({
            let booted = ElementRating::at_boot(
                Some(set.store@),
                default_watts,
                circuit_max_watts,
            );
            &&& booted.custom_watts == watts
            &&& booted.legacy_mode is None
        }),
{
}

/// An older, mode-carrying rating is migrated once: its mode is handed over, and what
/// replaces it restores the same exact figure and no mode.
pub proof fn law_older_rating_is_migrated(
    bytes: Seq<u8>,
    rewritten: Seq<u8>,
    default_watts: u16,
    circuit_max_watts: u32,
)
    requires
        bytes.len() == LEGACY_RATING_LEN,
        rewritten.len() == RATING_LEN,
        crate::bytes::le_u16(rewritten) == ElementRating::at_boot(
            Some(bytes),
            default_watts,
            circuit_max_watts,
        ).custom_watts,
    ensures
        ({
            let older = ElementRating::at_boot(Some(bytes), default_watts, circuit_max_watts);
            let newer = ElementRating::at_boot(Some(rewritten), default_watts, circuit_max_watts);
            &&& older.legacy_mode == Some(bytes[0])
            &&& newer.legacy_mode is None
            &&& newer.custom_watts == older.custom_watts
        }),
{
}

} // verus!
