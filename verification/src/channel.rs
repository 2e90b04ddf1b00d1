//! The snapshot distribution slot: a single-value, last-value-wins cell.
//! A publisher overwrites the slot; a consumer polls it and only ever
//! sees the most recent value, never a backlog. The host wraps one slot
//! in its own synchronization (a mutex and a change signal) to share it
//! between the coordinator and viewers.

use vstd::prelude::*;

use crate::snapshot::{SnapModel, Snapshot};

verus! {

/// The abstract contents of a slot: the stored snapshot and how many
/// times the slot has been written.
pub ghost struct SlotModel {
    pub value: SnapModel,
    pub version: int,
}

/// The slot after publishing `s`: the old value is overwritten, whether
/// or not anyone read it.
pub open spec fn spec_publish(m: SlotModel, s: SnapModel) -> SlotModel {
    SlotModel { value: s, version: m.version + 1 }
}

/// What a consumer that has seen version `seen` gets from polling: the
/// current value if it is newer, nothing otherwise.
pub open spec fn spec_poll_result(m: SlotModel, seen: int) -> Option<SnapModel> {
    if m.version > seen {
        Some(m.value)
    } else {
        None
    }
}

/// A single-slot, last-value-wins container for the latest snapshot.
pub struct SnapshotSlot {
    value: Snapshot,
    version: u64,
}

impl View for SnapshotSlot {
    type V = SlotModel;

    closed spec fn view(&self) -> SlotModel {
        SlotModel { value: self.value@, version: self.version as int }
    }
}

/// A consumer's position: the slot version it has already observed.
pub struct Observer {
    seen: u64,
}

impl View for Observer {
    type V = int;

    closed spec fn view(&self) -> int {
        self.seen as int
    }
}

impl Observer {
    /// A consumer that has observed nothing yet.
    pub fn new() -> (r: Self)
        ensures
            r@ == 0,
    {
        Observer { seen: 0 }
    }
}

impl SnapshotSlot {
    /// A slot holding `initial`, not yet counted as a publication: a
    /// fresh observer will not see it until something is published.
    pub fn new(initial: Snapshot) -> (r: Self)
        ensures
            r@.value == initial@,
            r@.version == 0,
    {
        SnapshotSlot { value: initial, version: 0 }
    }

    /// Overwrite the slot with `s`. An unread previous value is lost:
    /// that is the point — a slow consumer should only see the newest
    /// state. (The version counter is bounded by the machine word.)
    pub fn publish(&mut self, s: Snapshot)
        requires
            old(self)@.version < u64::MAX,
        ensures
            final(self)@ == spec_publish(old(self)@, s@),
    {
        self.value = s;
        self.version = self.version + 1;
    }

    /// The most recent value, without marking anything as read. Never
    /// blocks.
    pub fn latest(&self) -> (s: Snapshot)
        ensures
            s@ == self@.value,
    {
        self.value.duplicate()
    }

    /// Poll for a value newer than what `obs` has seen; on a hit the
    /// observer is advanced to the current version.
    pub fn poll(&self, obs: &mut Observer) -> (r: Option<Snapshot>)
        ensures
            match spec_poll_result(self@, old(obs)@) {
                Some(v) => {
                    &&& (r matches Some(s) && s@ == v)
                    &&& final(obs)@ == self@.version
                },
                None => r is None && final(obs)@ == old(obs)@,
            },
    {
        if self.version > obs.seen {
            obs.seen = self.version;
            Some(self.value.duplicate())
        } else {
            None
        }
    }
}

/// Last-value-wins law: after publishing `s1` and then `s2`, any consumer
/// that polls sees `s2` or nothing — never `s1`, and never `s1` followed
/// by `s2`. A consumer that was behind is guaranteed the newest value.
pub proof fn lemma_last_value_wins(slot: SlotModel, s1: SnapModel, s2: SnapModel, seen: int)
    ensures
        s1 != s2 ==> spec_poll_result(spec_publish(spec_publish(slot, s1), s2), seen) != Some(
            s1,
        ),
        seen <= spec_publish(slot, s1).version ==> spec_poll_result(
            spec_publish(spec_publish(slot, s1), s2),
            seen,
        ) == Some(s2),
{
}

} // verus!
