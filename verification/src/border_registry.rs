//! Which windows carry a border, keyed by the handle of the tracked window.

use std::collections::HashMap;
use vstd::prelude::*;
use vstd::std_specs::iter::IteratorSpec;

verus! {

broadcast use vstd::std_specs::hash::group_hash_axioms;

/// A window as told apart from a later window that reuses the same numeric handle.
#[derive(Debug, Clone, Copy, PartialEq, Eq, Structural)]
pub struct WindowIdentity {
    pub hwnd: isize,
    pub process_id: u32,
    pub thread_id: u32,
}

impl WindowIdentity {
    /// The identity behind a handle, from what the system answers about it: whether it names a
    /// window, and the thread and process that own it. A thread id of zero means that the window
    /// went away in between.
    pub fn capture(hwnd: isize, is_window: bool, thread_id: u32, process_id: u32) -> (captured:
        Option<Self>)
        ensures
            captured == captured_as(hwnd, is_window, thread_id, process_id),
            captured == (if is_window && thread_id != 0 {
                Some(WindowIdentity { hwnd, process_id, thread_id })
            } else {
                None::<WindowIdentity>
            }),
    {
        if !is_window {
            return None;
        }
        if thread_id == 0 {
            return None;
        }
        Some(Self { hwnd, process_id, thread_id })
    }

    pub fn hwnd(self) -> (hwnd: isize)
        ensures
            hwnd == self.hwnd,
    {
        self.hwnd
    }

    /// Whether `live`, captured now from this identity's handle, is still this very window.
    pub fn still_matches(self, live: Option<Self>) -> (matches: bool)
        ensures
            matches == (live == Some(self)),
    {
        match live {
            Some(found) => found == self,
            None => false,
        }
    }
}

#[derive(Debug, Clone, Copy, PartialEq, Eq, Structural)]
pub enum BorderLifecycleState {
    Initializing,
    Active,
    Closing,
}

#[derive(Debug, Clone, Copy, PartialEq, Eq, Structural)]
pub struct BorderRecord {
    pub tracking: WindowIdentity,
    pub border_hwnd: isize,
    pub state: BorderLifecycleState,
}

impl BorderRecord {
    pub fn border_hwnd(self) -> (hwnd: isize)
        ensures
            hwnd == self.border_hwnd,
    {
        self.border_hwnd
    }
}

/// The records of `entries`, each exactly once, in an order of the map's choosing.
pub open spec fn lists_records(order: Seq<BorderRecord>, entries: Map<isize, BorderRecord>) -> bool {
    &&& order.len() == entries.len()
    &&& forall|i: int|
        #![trigger order[i]]
        0 <= i < order.len() ==> entries.contains_key(order[i].tracking.hwnd)
            && entries[order[i].tracking.hwnd] == order[i]
    &&& forall|i: int, j: int|
        #![trigger order[i], order[j]]
        0 <= i < j < order.len() ==> order[i].tracking.hwnd != order[j].tracking.hwnd
    &&& forall|key: isize| #[trigger] entries.contains_key(key) ==> order.contains(entries[key])
}

#[derive(Debug)]
pub struct BorderRegistry {
    entries: HashMap<isize, BorderRecord>,
}

impl View for BorderRegistry {
    type V = Map<isize, BorderRecord>;

    closed spec fn view(&self) -> Map<isize, BorderRecord> {
        self.entries@
    }
}

/// Every record is filed under the handle of the window that it tracks.
pub open spec fn keyed_by_handle(entries: Map<isize, BorderRecord>) -> bool {
    &&& entries.dom().finite()
    &&& forall|key: isize| #[trigger] entries.contains_key(key) ==> entries[key].tracking.hwnd == key
}

impl Default for BorderRegistry {
    fn default() -> (registry: Self)
        ensures
            registry@ == Map::<isize, BorderRecord>::empty(),
            registry.wf(),
    {
        BorderRegistry { entries: HashMap::new() }
    }
}

impl BorderRegistry {
    pub open spec fn wf(&self) -> bool {
        keyed_by_handle(self@)
    }

    /// Files a record under its tracked handle and hands back the one it replaces.
    pub fn insert(&mut self, record: BorderRecord) -> (replaced: Option<BorderRecord>)
        ensures
            final(self)@ == old(self)@.insert(record.tracking.hwnd, record),
            old(self).wf() ==> final(self).wf(),
            replaced == (if old(self)@.contains_key(record.tracking.hwnd) {
                Some(old(self)@[record.tracking.hwnd])
            } else {
                None
            }),
    {
        self.entries.insert(record.tracking.hwnd, record)
    }

    pub fn get(&self, tracking: isize) -> (record: Option<&BorderRecord>)
        ensures
            record == (if self@.contains_key(tracking) {
                Some(&self@[tracking])
            } else {
                None
            }),
    {
        self.entries.get(&tracking)
    }

    pub fn get_by_key(&self, tracking: isize) -> (record: Option<&BorderRecord>)
        ensures
            record == (if self@.contains_key(tracking) {
                Some(&self@[tracking])
            } else {
                None
            }),
    {
        self.entries.get(&tracking)
    }

    pub fn get_border(&self, tracking: isize) -> (border: Option<isize>)
        ensures
            border == (if self@.contains_key(tracking) {
                Some(self@[tracking].border_hwnd)
            } else {
                None
            }),
    {
        match self.get(tracking) {
            Some(record) => Some(record.border_hwnd()),
            None => None,
        }
    }

    /// Moves the record of exactly this identity to a new state. A stale identity whose handle now
    /// belongs to another window changes nothing.
    pub fn set_state(&mut self, identity: WindowIdentity, state: BorderLifecycleState) -> (changed:
        bool)
        ensures
            changed == (old(self)@.contains_key(identity.hwnd) && old(self)@[identity.hwnd].tracking
                == identity),
            final(self)@ == (if changed {
                old(self)@.insert(
                    identity.hwnd,
                    BorderRecord { state, ..old(self)@[identity.hwnd] },
                )
            } else {
                old(self)@
            }),
            final(self)@ == restated(old(self)@, identity, state),
            old(self).wf() ==> final(self).wf(),
    {
        let found: Option<BorderRecord> = match self.entries.get(&identity.hwnd) {
            Some(record) => Some(*record),
            None => None,
        };
        match found {
            Some(record) => {
                if record.tracking != identity {
                    return false;
                }
                self.entries.insert(identity.hwnd, BorderRecord { state, ..record });
                true
            },
            None => false,
        }
    }

    pub fn remove(&mut self, tracking: isize) -> (removed: Option<BorderRecord>)
        ensures
            final(self)@ == old(self)@.remove(tracking),
            old(self).wf() ==> final(self).wf(),
            removed == (if old(self)@.contains_key(tracking) {
                Some(old(self)@[tracking])
            } else {
                None
            }),
    {
        self.entries.remove(&tracking)
    }

    pub fn remove_by_key(&mut self, tracking: isize) -> (removed: Option<BorderRecord>)
        ensures
            final(self)@ == old(self)@.remove(tracking),
            old(self).wf() ==> final(self).wf(),
            removed == (if old(self)@.contains_key(tracking) {
                Some(old(self)@[tracking])
            } else {
                None
            }),
    {
        self.entries.remove(&tracking)
    }

    pub fn len(&self) -> (count: usize)
        ensures
            count == self@.len(),
    {
        self.entries.len()
    }

    pub fn is_empty(&self) -> (empty: bool)
        ensures
            empty == (self@ == Map::<isize, BorderRecord>::empty()),
    {
        let empty = self.entries.is_empty();
        assert(empty ==> self@ =~= Map::<isize, BorderRecord>::empty());
        empty
    }

    pub fn contains(&self, tracking: isize) -> (present: bool)
        ensures
            present == self@.contains_key(tracking),
    {
        self.entries.contains_key(&tracking)
    }

    /// Copies out every record once. The order is the map's own and may differ from call to call.
    pub fn records(&self) -> (records: Vec<BorderRecord>)
        requires
            self.wf(),
        ensures
            lists_records(records@, self@),
    {
        let mut records: Vec<BorderRecord> = Vec::new();
        for entry in walk: self.entries.iter()
            invariant
                self.wf(),
                records@.len() == walk.index(),
                walk.seq() == self.entries.iter().remaining(),
                walk.seq().no_duplicates(),
                forall|i: int| 0 <= i < records@.len() ==> records@[i] == *(#[trigger] walk.seq()[i]).1,
        {
            records.push(*entry.1);
        }
        proof {
            let pairs = self.entries.iter().remaining();
            assert forall|i: int, j: int| 0 <= i < j < records@.len() implies records@[i].tracking.hwnd
                != records@[j].tracking.hwnd by {
                assert(self@.contains_key(*pairs[i].0) && self@[*pairs[i].0] == *pairs[i].1);
                assert(self@.contains_key(*pairs[j].0) && self@[*pairs[j].0] == *pairs[j].1);
                assert(pairs[i] != pairs[j]);
            }
            assert forall|i: int| 0 <= i < records@.len() implies self@.contains_key(
                (#[trigger] records@[i]).tracking.hwnd,
            ) && self@[records@[i].tracking.hwnd] == records@[i] by {
                assert(self@.contains_key(*pairs[i].0) && self@[*pairs[i].0] == *pairs[i].1);
            }
            assert forall|key: isize| #[trigger] self@.contains_key(key) implies records@.contains(
                self@[key],
            ) by {
                assert(self.entries@.contains_key(key));
                let at = choose|at: int| 0 <= at < pairs.len() && pairs[at] == (&key, &self@[key]);
                assert(records@[at] == self@[key]);
            }
        }
        records
    }

    pub fn border_hwnds(&self) -> (hwnds: Vec<isize>)
        requires
            self.wf(),
        ensures
            exists|order: Seq<BorderRecord>|
                lists_records(order, self@) && hwnds@ == order.map_values(
                    |record: BorderRecord| record.border_hwnd,
                ),
    {
        let records = self.records();
        let mut hwnds: Vec<isize> = Vec::new();
        for i in 0..records.len()
            invariant
                hwnds@ == records@.take(i as int).map_values(|record: BorderRecord| record.border_hwnd),
        {
            hwnds.push(records[i].border_hwnd());
        }
        assert(records@.take(records@.len() as int) == records@);
        hwnds
    }
}

/// The identity behind a handle, given what the system answers about it.
pub open spec fn captured_as(hwnd: isize, is_window: bool, thread_id: u32, process_id: u32) -> Option<
    WindowIdentity,
> {
    if is_window && thread_id != 0 {
        Some(WindowIdentity { hwnd, process_id, thread_id })
    } else {
        None
    }
}

/// The records once that of exactly this window has been moved to a state.
pub open spec fn restated(
    entries: Map<isize, BorderRecord>,
    identity: WindowIdentity,
    state: BorderLifecycleState,
) -> Map<isize, BorderRecord> {
    if entries.contains_key(identity.hwnd) && entries[identity.hwnd].tracking == identity {
        entries.insert(identity.hwnd, BorderRecord { state, ..entries[identity.hwnd] })
    } else {
        entries
    }
}

/// A handle has an identity exactly if it names a window whose thread is known. Windows that differ
/// in handle, process or thread are never taken for each other.
pub proof fn law_identities_tell_windows_apart(
    hwnd: isize,
    thread_id: u32,
    process_id: u32,
    other_hwnd: isize,
    other_thread_id: u32,
    other_process_id: u32,
)
    ensures
        captured_as(hwnd, false, thread_id, process_id) is None,
        captured_as(hwnd, true, thread_id, process_id) is None <==> thread_id == 0,
        captured_as(hwnd, true, thread_id, process_id) matches Some(found) ==> found.hwnd == hwnd
            && found.thread_id == thread_id && found.process_id == process_id,
        thread_id != 0 && captured_as(hwnd, true, thread_id, process_id) == captured_as(
            other_hwnd,
            true,
            other_thread_id,
            other_process_id,
        ) ==> hwnd == other_hwnd && thread_id == other_thread_id && process_id == other_process_id,
{
}

/// Moving a border to a state changes the record of that very window and nothing else of it; a
/// window that is not registered, or whose handle another one has taken over, changes nothing.
pub proof fn law_states_change_one_record(
    entries: Map<isize, BorderRecord>,
    identity: WindowIdentity,
    state: BorderLifecycleState,
    key: isize,
)
    ensures
        ({
            let after = restated(entries, identity, state);
            let meant = entries.contains_key(identity.hwnd) && entries[identity.hwnd].tracking
                == identity;
            &&& after.contains_key(key) == entries.contains_key(key)
            &&& meant && key == identity.hwnd ==> after[key].state == state && after[key].tracking
                == entries[key].tracking && after[key].border_hwnd == entries[key].border_hwnd
            &&& !meant || key != identity.hwnd ==> after[key] == entries[key]
        }),
{
}

} // verus!
