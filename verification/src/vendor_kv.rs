//! Device state this firmware keeps across a reboot, in the Matter key-value store
//! under the vendor key range.
//!
//! Keeping the application state in the *same* store as the Matter state is what
//! makes a factory reset mean what a user expects: the heater really does come back
//! with default setpoints and a zeroed energy counter.

use vstd::prelude::*;

verus! {

/// What is kept, one key each.
#[derive(Clone, Copy, Debug, PartialEq, Eq, Structural)]
pub enum VendorSlot {
    /// The Thermostat attributes as older firmware kept them, in a blob of its own.
    LegacyThermostatState,
    /// The heating element's lifetime energy counter, as a little-endian `i64` in
    /// milliwatt-seconds.
    HeatingElementEnergy,
    /// The exact element rating, as a little-endian `u16` in watts.
    ElementRating,
    /// The Thermostat attributes, as the Thermostat handler keeps them.
    ThermostatAttrs,
    /// `CurrentMode`, as the Mode Select handler keeps it.
    ElementMode,
}

/// How many keys after the start of the vendor range are in use.
pub const VENDOR_SLOTS: u16 = 5;

impl VendorSlot {
    /// How far after the start of the vendor range the key lies.
    ///
    /// Never `0`: on a Thread device the first vendor key holds OpenThread's SRP
    /// identity, and stepping on it would cost the device that identity on every boot.
    pub open spec fn offset(self) -> u16 {
        match self {
            VendorSlot::LegacyThermostatState => 1,
            VendorSlot::HeatingElementEnergy => 2,
            VendorSlot::ElementRating => 3,
            VendorSlot::ThermostatAttrs => 4,
            VendorSlot::ElementMode => 5,
        }
    }

    /// The key, given where the vendor range starts.
    pub fn key(self, vendor_keys_start: u16) -> (key: u16)
        requires
            vendor_keys_start + VENDOR_SLOTS <= u16::MAX,
        ensures
            key == vendor_keys_start + self.offset(),
    {
        let offset: u16 = match self {
            VendorSlot::LegacyThermostatState => 1,
            VendorSlot::HeatingElementEnergy => 2,
            VendorSlot::ElementRating => 3,
            VendorSlot::ThermostatAttrs => 4,
            VendorSlot::ElementMode => 5,
        };

        vendor_keys_start + offset
    }
}

/// Every key is its own, and none is the first of the vendor range.
pub proof fn law_keys_are_distinct(a: VendorSlot, b: VendorSlot)
    ensures
        1 <= a.offset() <= VENDOR_SLOTS,
        a.offset() == b.offset() ==> a == b,
{
}

/// How many bytes of a blob of `len` bytes a buffer of `room` bytes takes.
pub open spec fn taken(len: nat, room: nat) -> nat {
    if len <= room {
        len
    } else {
        room
    }
}

/// What a buffer holds once a blob has been copied into it.
pub open spec fn filled(data: Seq<u8>, out: Seq<u8>) -> Seq<u8> {
    let len = taken(data.len(), out.len()) as int;
    data.take(len) + out.skip(len)
}

/// A buffer takes a blob from its start and is left as it was past its end.
pub proof fn law_blobs_are_copied_as_they_are(data: Seq<u8>, out: Seq<u8>, i: int)
    requires
        0 <= i < out.len(),
    ensures
        filled(data, out).len() == out.len(),
        i < data.len() ==> filled(data, out)[i] == data[i],
        i >= data.len() ==> filled(data, out)[i] == out[i],
{
}

/// Copy the blob found under a key into `out`, returning how many bytes were written,
/// or `None` if the key holds nothing.
///
/// A blob longer than `out` is truncated: every caller stores a fixed small value and
/// reads it back with a buffer of exactly that size.
pub fn load_blob(data: Option<&[u8]>, out: &mut [u8]) -> (loaded: Option<usize>)
    ensures
        final(out)@.len() == old(out)@.len(),
        match data {
            None => loaded is None && final(out)@ == old(out)@,
            Some(data) => {
                let len = taken(data@.len(), old(out)@.len()) as int;
                &&& loaded == Some(len as usize)
                &&& final(out)@ == data@.take(len) + old(out)@.skip(len)
                &&& final(out)@ == filled(data@, old(out)@)
            },
        },
{
    let data: &[u8] = match data {
        Some(data) => data,
        None => {
            return None;
        },
    };
    let len: usize = if data.len() <= out.len() {
        data.len()
    } else {
        out.len()
    };
    let mut i: usize = 0;

    while i < len
        invariant
            i <= len,
            len == taken(data@.len(), old(out)@.len()),
            out@.len() == old(out)@.len(),
            out@ == data@.take(i as int) + old(out)@.skip(i as int),
        decreases len - i,
    {
        out[i] = data[i];
        i += 1;
        proof {
            assert(out@ =~= data@.take(i as int) + old(out)@.skip(i as int));
        }
    }

    Some(len)
}

/// The keys a factory reset removes.
pub open spec fn reset_slots() -> Seq<VendorSlot> {
    seq![
        VendorSlot::HeatingElementEnergy,
        VendorSlot::ElementRating,
        VendorSlot::ThermostatAttrs,
        VendorSlot::ElementMode,
    ]
}

/// A factory reset removes every key that current firmware keeps, each once, and leaves to the
/// thermostat what older firmware left behind.
pub proof fn law_reset_removes_what_is_kept(slot: VendorSlot)
    ensures
        reset_slots().contains(slot) <==> slot != VendorSlot::LegacyThermostatState,
        reset_slots().no_duplicates(),
{
    let slots = reset_slots();
    assert(slots[0] == VendorSlot::HeatingElementEnergy);
    assert(slots[1] == VendorSlot::ElementRating);
    assert(slots[2] == VendorSlot::ThermostatAttrs);
    assert(slots[3] == VendorSlot::ElementMode);
}

/// A blob is taken whole if it fits, and as much of it as fits if it does not.
pub proof fn law_blobs_are_taken_as_far_as_they_fit(len: nat, room: nat)
    ensures
        taken(len, room) <= len,
        taken(len, room) <= room,
        taken(len, room) == len || taken(len, room) == room,
{
}

/// Keys are persisted under fixed places: none of them may move.
pub proof fn law_keys_keep_their_places(slot: VendorSlot)
    ensures
        slot.offset() == 1 <==> slot == VendorSlot::LegacyThermostatState,
        slot.offset() == 2 <==> slot == VendorSlot::HeatingElementEnergy,
        slot.offset() == 3 <==> slot == VendorSlot::ElementRating,
        slot.offset() == 4 <==> slot == VendorSlot::ThermostatAttrs,
        slot.offset() == 5 <==> slot == VendorSlot::ElementMode,
{
}

/// The keys a factory reset removes: everything current firmware keeps.
///
/// What older firmware left behind is removed at boot, by the thermostat.
pub fn factory_reset_slots() -> (slots: [VendorSlot; 4])
    ensures
        slots@ == seq![
            VendorSlot::HeatingElementEnergy,
            VendorSlot::ElementRating,
            VendorSlot::ThermostatAttrs,
            VendorSlot::ElementMode,
        ],
        slots@ == reset_slots(),
        forall|slot: VendorSlot|
            slot != VendorSlot::LegacyThermostatState ==> slots@.contains(slot),
{
    let slots: [VendorSlot; 4] = [
        VendorSlot::HeatingElementEnergy,
        VendorSlot::ElementRating,
        VendorSlot::ThermostatAttrs,
        VendorSlot::ElementMode,
    ];
    proof {
        let listed = seq![
            VendorSlot::HeatingElementEnergy,
            VendorSlot::ElementRating,
            VendorSlot::ThermostatAttrs,
            VendorSlot::ElementMode,
        ];
        assert(slots@ =~= listed);
        assert forall|slot: VendorSlot|
            slot != VendorSlot::LegacyThermostatState implies slots@.contains(slot) by {
            assert(slot == listed[slot.offset() - 2]);
        }
    }

    slots
}

} // verus!
