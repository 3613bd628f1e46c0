//! The shared configuration cell.
//!
//! One cell per worker holds the single currently-active transform.  At run
//! time the cell sits behind the process's reader/writer lock, shared between
//! the job loop (which reads) and the config-update listener (which writes);
//! every access goes through the contracts here, so a reader can only ever
//! observe one fully-formed `Command` value — the cell never holds anything
//! partial.  The write counter makes no-op updates observable: applying an
//! update equal to the active value writes nothing.

use vstd::prelude::*;

use crate::command::Command;

verus! {

/// The single live transform of one worker, with a count of the writes that
/// have reached it.
pub struct ConfigCell {
    /// The currently-active transform.
    pub active: Command,
    /// How many effective writes the cell has seen.
    pub writes: u64,
}

/// The cell after an update is applied: unchanged when the new value equals
/// the active one, else the new value with one more write.
pub open spec fn spec_updated(c: ConfigCell, v: Command) -> ConfigCell {
    if c.active == v {
        c
    } else {
        ConfigCell { active: v, writes: (c.writes + 1) as u64 }
    }
}

/// Whether applying an update writes at all.
pub open spec fn spec_update_writes(c: ConfigCell, v: Command) -> bool {
    c.active != v
}

impl ConfigCell {
    /// A fresh cell holding the worker's startup transform.
    pub fn new(initial: Command) -> (r: ConfigCell)
        ensures
            r.active == initial,
            r.writes == 0,
    {
        ConfigCell { active: initial, writes: 0 }
    }

    /// Reads the active transform.  The result is exactly the one value the
    /// cell holds: no torn or out-of-set value can be observed.
    pub fn read(&self) -> (r: Command)
        ensures
            r == self.active,
    {
        self.active
    }

    /// Replaces the active transform unconditionally.
    pub fn write(&mut self, v: Command)
        requires
            old(self).writes < u64::MAX,
        ensures
            final(self).active == v,
            final(self).writes == old(self).writes + 1,
    {
        self.active = v;
        self.writes = self.writes + 1;
    }

    /// Applies a control update: writes the new value only when it differs
    /// from the active one, so redelivery of the same terminal message is a
    /// no-op and does not thrash the write lock.
    pub fn apply_update(&mut self, v: Command) -> (wrote: bool)
        requires
            old(self).writes < u64::MAX,
        ensures
            *final(self) == spec_updated(*old(self), v),
            wrote == spec_update_writes(*old(self), v),
            final(self).active == v,
    {
        if self.read() == v {
            false
        } else {
            self.write(v);
            true
        }
    }
}

/// Idempotence: once an update has been applied, applying the same value
/// again leaves the cell exactly as it was and triggers no further write.
pub proof fn lemma_apply_update_idempotent(c: ConfigCell, v: Command)
    ensures
        spec_updated(spec_updated(c, v), v) == spec_updated(c, v),
        !spec_update_writes(spec_updated(c, v), v),
{
}

} // verus!
