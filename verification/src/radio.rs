//! When the BLE controller came up and went down.
//!
//! Commissioning is non-concurrent, so BLE and Thread should never overlap: BLE runs only
//! while a commissioning window is open, then Thread, and a commissioned board that boots
//! with no window open never starts BLE at all. A leftover BLE controller would take
//! radio time from Thread. [`BleRecord`] makes that checkable: every Thread start says
//! whether BLE is down.

use vstd::prelude::*;

use crate::clock::uptime_ms;

verus! {

/// Stands for "at no time".
pub const BLE_DOWN: u64 = u64::MAX;

/// What is known of the BLE controller this boot, in milliseconds since boot.
#[derive(Clone, Copy, Debug, PartialEq, Eq, Structural)]
pub struct BleRecord {
    /// When the controller came up, or [`BLE_DOWN`] while it is down.
    pub up_since_ms: u64,
    /// When the controller was last torn down, or [`BLE_DOWN`] if it has not been.
    pub down_at_ms: u64,
}

/// What BLE was doing when Thread started.
#[derive(Clone, Copy, Debug, PartialEq, Eq, Structural)]
pub enum ThreadStart {
    /// The controller is still up, which is worth a warning.
    BleStillUp { since_ms: u64 },
    /// The controller was not started this boot.
    BleNotStarted,
    /// The controller was torn down.
    BleTornDown { at_ms: u64 },
}

impl BleRecord {
    /// What BLE is doing, if Thread starts now.
    pub open spec fn at_thread_start(self) -> ThreadStart {
        if self.up_since_ms != BLE_DOWN {
            ThreadStart::BleStillUp { since_ms: self.up_since_ms }
        } else if self.down_at_ms == BLE_DOWN {
            ThreadStart::BleNotStarted
        } else {
            ThreadStart::BleTornDown { at_ms: self.down_at_ms }
        }
    }

    /// What is known once the controller has been initialised at `now_ms`.
    pub open spec fn up(self, now_ms: u64) -> BleRecord {
        BleRecord { up_since_ms: now_ms, ..self }
    }

    /// What is known once the controller has been torn down at `now_ms`.
    pub open spec fn down(self, now_ms: u64) -> BleRecord {
        BleRecord { up_since_ms: BLE_DOWN, down_at_ms: now_ms }
    }

    /// A controller that has not been started.
    pub fn new() -> (record: Self)
        ensures
            record == (BleRecord { up_since_ms: BLE_DOWN, down_at_ms: BLE_DOWN }),
            record.at_thread_start() == ThreadStart::BleNotStarted,
    {
        BleRecord { up_since_ms: BLE_DOWN, down_at_ms: BLE_DOWN }
    }

    /// The controller has been initialised just now. Returns when that is.
    pub fn came_up(&mut self) -> (now_ms: u64)
        ensures
            *final(self) == old(self).up(now_ms),
            *final(self) == (BleRecord { up_since_ms: now_ms, ..*old(self) }),
    {
        let now_ms: u64 = uptime_ms();

        self.came_up_at(now_ms);

        now_ms
    }

    /// The controller has been initialised at `now_ms`.
    pub fn came_up_at(&mut self, now_ms: u64)
        ensures
            *final(self) == old(self).up(now_ms),
            *final(self) == (BleRecord { up_since_ms: now_ms, ..*old(self) }),
    {
        self.up_since_ms = now_ms;
    }

    /// The controller has been torn down just now. Returns when that is.
    pub fn went_down(&mut self) -> (now_ms: u64)
        ensures
            *final(self) == old(self).down(now_ms),
            *final(self) == (BleRecord { up_since_ms: BLE_DOWN, down_at_ms: now_ms }),
    {
        let now_ms: u64 = uptime_ms();

        self.went_down_at(now_ms);

        now_ms
    }

    /// The controller has been torn down at `now_ms`.
    pub fn went_down_at(&mut self, now_ms: u64)
        ensures
            *final(self) == old(self).down(now_ms),
            *final(self) == (BleRecord { up_since_ms: BLE_DOWN, down_at_ms: now_ms }),
    {
        self.up_since_ms = BLE_DOWN;
        self.down_at_ms = now_ms;
    }

    /// What BLE is doing as Thread starts.
    pub fn thread_start(&self) -> (start: ThreadStart)
        ensures
            start == self.at_thread_start(),
    {
        if self.up_since_ms != BLE_DOWN {
            ThreadStart::BleStillUp { since_ms: self.up_since_ms }
        } else if self.down_at_ms == BLE_DOWN {
            ThreadStart::BleNotStarted
        } else {
            ThreadStart::BleTornDown { at_ms: self.down_at_ms }
        }
    }
}

/// A Thread start that overlaps BLE is told apart from one that follows it: between
/// coming up and going down BLE reads as up, and afterwards as down, whatever came before.
pub proof fn law_overlap_is_noticed(before: BleRecord, up_ms: u64, down_ms: u64)
    requires
        up_ms != BLE_DOWN,
        down_ms != BLE_DOWN,
    ensures
        ({
            let up = BleRecord { up_since_ms: up_ms, ..before };
            let down = BleRecord { up_since_ms: BLE_DOWN, down_at_ms: down_ms };
            &&& up.at_thread_start() == (ThreadStart::BleStillUp { since_ms: up_ms })
            &&& down.at_thread_start() == (ThreadStart::BleTornDown { at_ms: down_ms })
        }),
{
}

/// What the last of the two did is what counts: once the controller has come up it reads as up
/// since then, once it has gone down it reads as torn down then, and until either has happened
/// it reads as not started.
pub proof fn law_the_last_change_counts(before: BleRecord, first_ms: u64, last_ms: u64)
    requires
        last_ms != u64::MAX,
    ensures
        before.down(first_ms).up(last_ms).at_thread_start() == (ThreadStart::BleStillUp {
            since_ms: last_ms,
        }),
        before.up(first_ms).up(last_ms).at_thread_start() == (ThreadStart::BleStillUp {
            since_ms: last_ms,
        }),
        before.up(first_ms).down(last_ms).at_thread_start() == (ThreadStart::BleTornDown {
            at_ms: last_ms,
        }),
        before.down(first_ms).down(last_ms).at_thread_start() == (ThreadStart::BleTornDown {
            at_ms: last_ms,
        }),
        (BleRecord { up_since_ms: u64::MAX, down_at_ms: u64::MAX }).at_thread_start()
            == ThreadStart::BleNotStarted,
{
}

} // verus!
