//! When the device's storage is wiped: the button that asks for it, and what happens once
//! the firmware stops running.

use vstd::prelude::*;

use crate::vendor_kv::{factory_reset_slots, VendorSlot};

verus! {

/// How long the Boot Mode pin has to be held low to factory-reset the device, in seconds.
pub const RESET_SECS: u64 = 3;

/// How long the pin is left to settle once it has gone low, in milliseconds.
pub const DEBOUNCE_MS: u64 = 50;

/// What the watch on the Boot Mode pin is waiting for.
#[derive(Clone, Copy, Debug, PartialEq, Eq, Structural)]
pub enum PinWatch {
    /// For the pin to go low.
    ForPress,
    /// For the pin to settle, [`DEBOUNCE_MS`] after it went low.
    ForDebounce,
    /// For the pin to go high again or for [`RESET_SECS`] to pass, whichever is first.
    ForHold,
    /// For nothing: a factory reset has been asked for.
    Done,
}

/// What the watch on the Boot Mode pin came to.
#[derive(Clone, Copy, Debug, PartialEq, Eq, Structural)]
pub enum PinEvent {
    /// The pin is low.
    Low,
    /// The pin has been left to settle, and is low, or is not.
    Settled { low: bool },
    /// The pin went high before [`RESET_SECS`] had passed.
    High,
    /// [`RESET_SECS`] passed and the pin did not go high.
    Held,
}

impl PinWatch {
    /// What is waited for after `event`. An event that is not waited for changes nothing.
    pub open spec fn after(self, event: PinEvent) -> PinWatch {
        match (self, event) {
            (PinWatch::ForPress, PinEvent::Low) => PinWatch::ForDebounce,
            (PinWatch::ForDebounce, PinEvent::Settled { low }) => if low {
                PinWatch::ForHold
            } else {
                PinWatch::ForPress
            },
            (PinWatch::ForHold, PinEvent::High) => PinWatch::ForPress,
            (PinWatch::ForHold, PinEvent::Held) => PinWatch::Done,
            _ => self,
        }
    }

    /// What is waited for after a sequence of events.
    pub open spec fn after_all(self, events: Seq<PinEvent>) -> PinWatch
        decreases events.len(),
    {
        if events.len() == 0 {
            self
        } else {
            self.after_all(events.drop_last()).after(events.last())
        }
    }

    /// A watch that has seen nothing yet.
    pub fn new() -> (watch: Self)
        ensures
            watch == PinWatch::ForPress,
    {
        PinWatch::ForPress
    }

    /// Take an event.
    pub fn next(&mut self, event: PinEvent)
        ensures
            *final(self) == old(self).after(event),
    {
        match (*self, event) {
            (PinWatch::ForPress, PinEvent::Low) => {
                *self = PinWatch::ForDebounce;
            },
            (PinWatch::ForDebounce, PinEvent::Settled { low }) => {
                *self = if low {
                    PinWatch::ForHold
                } else {
                    PinWatch::ForPress
                };
            },
            (PinWatch::ForHold, PinEvent::High) => {
                *self = PinWatch::ForPress;
            },
            (PinWatch::ForHold, PinEvent::Held) => {
                *self = PinWatch::Done;
            },
            _ => {},
        }
    }
}

/// Why the firmware stopped running.
#[derive(Clone, Copy, Debug, PartialEq, Eq, Structural)]
pub enum Stopped {
    /// The Matter stack returned on its own.
    Stack,
    /// A factory reset was asked for.
    ResetRequested,
}

/// What to do about it.
#[derive(Clone, Copy, Debug)]
pub enum Exit {
    /// Reboot, and leave storage alone.
    Reboot,
    /// Remove these keys, have the Matter stack reset its own storage, and reboot.
    FactoryReset([VendorSlot; 4]),
}

/// What to do once the firmware has stopped running.
///
/// The stack can in principle return when it is stopped, and treating that as consent to
/// wipe a commissioned device is not a trade anybody wants.
pub fn exit(stopped: Stopped) -> (exit: Exit)
    ensures
        stopped == Stopped::Stack <==> exit is Reboot,
        exit matches Exit::FactoryReset(slots) ==> slots@ == seq![
            VendorSlot::HeatingElementEnergy,
            VendorSlot::ElementRating,
            VendorSlot::ThermostatAttrs,
            VendorSlot::ElementMode,
        ],
        exit matches Exit::FactoryReset(slots) ==> slots@ == crate::vendor_kv::reset_slots(),
{
    match stopped {
        Stopped::Stack => Exit::Reboot,
        Stopped::ResetRequested => Exit::FactoryReset(factory_reset_slots()),
    }
}

/// Whether the pin went low at `low`, was still low once it had settled at `settled`, and
/// then did not go high again until it had been held at `held`.
pub open spec fn deliberate_hold(events: Seq<PinEvent>, low: int, settled: int, held: int) -> bool {
    &&& 0 <= low < settled < held < events.len()
    &&& events[low] == PinEvent::Low
    &&& events[settled] == (PinEvent::Settled { low: true })
    &&& events[held] == PinEvent::Held
    &&& forall|i: int| settled < i < held ==> #[trigger] events[i] != PinEvent::High
}

/// Only a deliberate hold resets the device: the pin has to go low, still be low once it
/// has settled, and then not go high again for the whole of the hold.
pub proof fn law_reset_takes_a_deliberate_hold(events: Seq<PinEvent>)
    requires
        PinWatch::ForPress.after_all(events) == PinWatch::Done,
    ensures
        exists|low: int, settled: int, held: int|
            #[trigger] deliberate_hold(events, low, settled, held),
    decreases events.len(),
{
    let before = events.drop_last();
    let watch = PinWatch::ForPress.after_all(before);
    if watch == PinWatch::Done {
        law_reset_takes_a_deliberate_hold(before);
        let (low, settled, held) = choose|low: int, settled: int, held: int|
            #[trigger] deliberate_hold(before, low, settled, held);
        assert forall|i: int| settled < i < held implies #[trigger] events[i] != PinEvent::High by {
            assert(before[i] == events[i]);
        }
        assert(deliberate_hold(events, low, settled, held));
    } else {
        assert(watch == PinWatch::ForHold && events.last() == PinEvent::Held);
        let (low, settled) = lemma_hold_follows_a_press(before);
        let held = events.len() - 1;
        assert forall|i: int| settled < i < held implies #[trigger] events[i] != PinEvent::High by {
            assert(before[i] == events[i]);
        }
        assert(deliberate_hold(events, low, settled, held));
    }
}

/// A hold is only ever waited out after a press that settled, with no release since.
proof fn lemma_hold_follows_a_press(events: Seq<PinEvent>) -> (at: (int, int))
    requires
        PinWatch::ForPress.after_all(events) == PinWatch::ForHold,
    ensures
        0 <= at.0 < at.1 < events.len(),
        events[at.0] == PinEvent::Low,
        events[at.1] == (PinEvent::Settled { low: true }),
        forall|i: int| at.1 < i < events.len() ==> events[i] != PinEvent::High,
    decreases events.len(),
{
    let before = events.drop_last();
    let watch = PinWatch::ForPress.after_all(before);
    if watch == PinWatch::ForHold {
        let at = lemma_hold_follows_a_press(before);
        assert forall|i: int| at.1 < i < events.len() implies events[i] != PinEvent::High by {
            if i < before.len() {
                assert(before[i] != PinEvent::High);
            }
        }
        at
    } else {
        assert(watch == PinWatch::ForDebounce);
        let low = lemma_debounce_follows_a_press(before);
        assert(before[low] == events[low]);
        (low, events.len() - 1)
    }
}

/// The pin is only ever left to settle after a press.
proof fn lemma_debounce_follows_a_press(events: Seq<PinEvent>) -> (low: int)
    requires
        PinWatch::ForPress.after_all(events) == PinWatch::ForDebounce,
    ensures
        0 <= low < events.len(),
        events[low] == PinEvent::Low,
    decreases events.len(),
{
    let before = events.drop_last();
    if PinWatch::ForPress.after_all(before) == PinWatch::ForDebounce {
        let low = lemma_debounce_follows_a_press(before);
        assert(before[low] == events[low]);
        low
    } else {
        events.len() - 1
    }
}

/// A hold that is deliberate does reset the device, whatever led up to it.
pub proof fn law_deliberate_hold_resets(events: Seq<PinEvent>)
    requires
        PinWatch::ForPress.after_all(events) == PinWatch::ForPress,
    ensures
        PinWatch::ForPress.after_all(
            events.push(PinEvent::Low).push(PinEvent::Settled { low: true }).push(PinEvent::Held),
        ) == PinWatch::Done,
{
    let pressed = events.push(PinEvent::Low);
    let settled = pressed.push(PinEvent::Settled { low: true });
    let held = settled.push(PinEvent::Held);
    assert(pressed.drop_last() =~= events);
    assert(PinWatch::ForPress.after_all(pressed) == PinWatch::ForDebounce);
    assert(settled.drop_last() =~= pressed);
    assert(PinWatch::ForPress.after_all(settled) == PinWatch::ForHold);
    assert(held.drop_last() =~= settled);
}

/// What the key-value store holds under a key.
pub open spec fn blob(store: Map<VendorSlot, Seq<u8>>, slot: VendorSlot) -> Option<Seq<u8>> {
    if store.dom().contains(slot) {
        Some(store[slot])
    } else {
        None
    }
}

/// The key-value store with some keys removed.
pub open spec fn wiped(
    store: Map<VendorSlot, Seq<u8>>,
    slots: Seq<VendorSlot>,
) -> Map<VendorSlot, Seq<u8>> {
    store.remove_keys(slots.to_set())
}

/// A factory reset returns the device to what it was built as: whatever the store held,
/// the next boot finds a zeroed energy counter that says it was reset, and meters at the
/// configured rating.
pub proof fn law_reset_device_is_as_built(
    store: Map<VendorSlot, Seq<u8>>,
    slots: [VendorSlot; 4],
    settings: crate::config::Settings,
    default_watts: u16,
    boot_ms: u64,
)
    requires
        settings.wf(),
        settings.configured_rating() == Some(default_watts),
        slots@ == seq![
            VendorSlot::HeatingElementEnergy,
            VendorSlot::ElementRating,
            VendorSlot::ThermostatAttrs,
            VendorSlot::ElementMode,
        ],
    ensures
        ({
            let after = wiped(store, slots@);
            let rating = crate::element::ElementRating::at_boot(
                blob(after, VendorSlot::ElementRating),
                default_watts,
                settings.circuit_max_watts,
            );
            let heater = crate::heater::HeaterState::at_boot(
                blob(after, VendorSlot::HeatingElementEnergy),
                rating.in_force(),
                boot_ms,
            );
            &&& heater.energy_mws == 0
            &&& heater.energy_mwh() == 0
            &&& heater.reset_at_boot
            &&& rating.in_force() == settings.element_watts
            &&& rating.legacy_mode is None
            &&& blob(after, VendorSlot::ThermostatAttrs) is None
            &&& blob(after, VendorSlot::ElementMode) is None
        }),
{
    let after = wiped(store, slots@);
    assert(slots@[0] == VendorSlot::HeatingElementEnergy);
    assert(slots@[1] == VendorSlot::ElementRating);
    assert(slots@[2] == VendorSlot::ThermostatAttrs);
    assert(slots@[3] == VendorSlot::ElementMode);
    assert(slots@.to_set().contains(VendorSlot::HeatingElementEnergy));
    assert(slots@.to_set().contains(VendorSlot::ElementRating));
    assert(slots@.to_set().contains(VendorSlot::ThermostatAttrs));
    assert(slots@.to_set().contains(VendorSlot::ElementMode));
    crate::element::law_configured_rating_is_the_default(settings, default_watts);
}

/// A factory reset forgets nothing it should keep and keeps nothing it should forget: what it
/// leaves in the store is what older firmware left there, as it was.
pub proof fn law_reset_wipes_what_firmware_keeps(
    store: Map<VendorSlot, Seq<u8>>,
    slot: VendorSlot,
)
    ensures
        ({
            let after = wiped(store, crate::vendor_kv::reset_slots());
            &&& slot != VendorSlot::LegacyThermostatState ==> blob(after, slot) is None
            &&& slot == VendorSlot::LegacyThermostatState ==> blob(after, slot) == blob(store, slot)
        }),
{
    crate::vendor_kv::law_reset_removes_what_is_kept(slot);
}

/// An event that is not waited for changes nothing, and one that is moves on by one step: from
/// the press to the settling, from there to the hold if the pin is still low, and from there to
/// the reset if it stays so. Once a reset has been asked for, nothing takes that back.
pub proof fn law_the_watch_goes_step_by_step(watch: PinWatch, event: PinEvent)
    ensures
        watch.after(event) == PinWatch::ForDebounce <==> (watch == PinWatch::ForPress && event
            == PinEvent::Low) || (watch == PinWatch::ForDebounce && !(event is Settled)),
        watch.after(event) == PinWatch::ForHold <==> (watch == PinWatch::ForDebounce && event == (
        PinEvent::Settled { low: true })) || (watch == PinWatch::ForHold && event != PinEvent::High
            && event != PinEvent::Held),
        watch.after(event) == PinWatch::Done <==> watch == PinWatch::Done || (watch
            == PinWatch::ForHold && event == PinEvent::Held),
{
}

/// Letting go early starts over.
pub proof fn law_letting_go_starts_over()
    ensures
        PinWatch::ForHold.after(PinEvent::High) == PinWatch::ForPress,
        PinWatch::ForDebounce.after(PinEvent::Settled { low: false }) == PinWatch::ForPress,
{
}

} // verus!
