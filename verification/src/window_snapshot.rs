//! The windows on the desktop at one moment, and what they call for.

use std::collections::{HashMap, HashSet};
use vstd::prelude::*;
use vstd::std_specs::iter::IteratorSpec;

use crate::border_registry::{BorderRecord, WindowIdentity};
use crate::config::EnableMode;
use crate::sorted::{insert_handle, insert_identity};

verus! {

broadcast use vstd::std_specs::hash::group_hash_axioms;

/// A process without elevated rights cannot place a border at the window of one that has them.
/// Where nothing is known of the target it is taken to have them.
pub fn elevation_allows_border(
    current_process_elevated: bool,
    target_process_elevated: Option<bool>,
) -> (allowed: bool)
    ensures
        allowed == (current_process_elevated || target_process_elevated == Some(false)),
        current_process_elevated ==> allowed,
        target_process_elevated == Some(false) ==> allowed,
        allowed && target_process_elevated != Some(false) ==> current_process_elevated,
{
    current_process_elevated || match target_process_elevated {
        Some(elevated) => !elevated,
        None => false,
    }
}

/// What the system and the configuration say of a window.
#[derive(Debug, Clone, Copy, PartialEq, Eq, Structural)]
pub struct WindowFacts {
    pub top_level: bool,
    pub visible: bool,
    pub cloaked: bool,
    /// Whether the owning process has elevated rights. Not asked where this process has them.
    pub process_elevated: Option<bool>,
    /// The `enabled` setting of the rule that applies.
    pub enabled: Option<EnableMode>,
    pub filtered_style: bool,
}

impl WindowFacts {
    pub open spec fn calls_for_border(self, current_process_elevated: bool) -> bool {
        &&& self.top_level && self.visible && !self.cloaked
        &&& current_process_elevated || self.process_elevated == Some(false)
        &&& match self.enabled {
            Some(EnableMode::Bool(wanted)) => wanted,
            _ => !self.filtered_style,
        }
    }
}

/// Whether a window is to get a border.
pub fn should_create_border(facts: WindowFacts, current_process_elevated: bool) -> (wanted: bool)
    ensures
        wanted == facts.calls_for_border(current_process_elevated),
{
    if !facts.top_level || !facts.visible || facts.cloaked {
        return false;
    }
    let target_process_elevated = if current_process_elevated {
        None
    } else {
        facts.process_elevated
    };
    if !elevation_allows_border(current_process_elevated, target_process_elevated) {
        return false;
    }
    match facts.enabled {
        Some(EnableMode::Bool(wanted)) => wanted,
        _ => !facts.filtered_style,
    }
}

/// A rule that enables borders has the last word on style: a window that can be seen and touched
/// gets its border whatever its style. A rule that disables them has it too: no window gets one.
pub proof fn law_rule_decides_whatever_the_style(
    facts: WindowFacts,
    filtered_style: bool,
    current_process_elevated: bool,
)
    ensures
        ({
            let restyled = WindowFacts { filtered_style, ..facts };
            &&& facts.enabled == Some(EnableMode::Bool(true)) && facts.top_level && facts.visible
                && !facts.cloaked && (current_process_elevated || facts.process_elevated == Some(
                false,
            )) ==> restyled.calls_for_border(current_process_elevated)
            &&& facts.enabled == Some(EnableMode::Bool(false)) ==> !restyled.calls_for_border(
                current_process_elevated,
            )
            &&& facts.enabled matches Some(EnableMode::Bool(_)) ==> restyled.calls_for_border(
                current_process_elevated,
            ) == facts.calls_for_border(current_process_elevated)
        }),
{
}

/// Where no rule decides, or it leaves the matter open, the style decides, and both ways of leaving
/// it open come to the same.
pub proof fn law_style_decides_without_a_rule(facts: WindowFacts, current_process_elevated: bool)
    requires
        facts.top_level,
        facts.visible,
        !facts.cloaked,
        current_process_elevated || facts.process_elevated == Some(false),
    ensures
        ({
            let unruled = WindowFacts { enabled: None, ..facts };
            let automatic = WindowFacts { enabled: Some(EnableMode::Auto), ..facts };
            &&& unruled.calls_for_border(current_process_elevated) <==> !facts.filtered_style
            &&& automatic.calls_for_border(current_process_elevated) <==> !facts.filtered_style
        }),
{
}

/// Enabling borders, dropping a style that is left out, showing or uncloaking a window, learning
/// that its process has no elevated rights, and gaining such rights never cost a window its border.
pub proof fn law_border_decision_only_rises(facts: WindowFacts, current_process_elevated: bool)
    requires
        facts.calls_for_border(current_process_elevated),
    ensures
        (WindowFacts { enabled: Some(EnableMode::Bool(true)), ..facts }).calls_for_border(
            current_process_elevated,
        ),
        (WindowFacts { filtered_style: false, ..facts }).calls_for_border(current_process_elevated),
        (WindowFacts { top_level: true, ..facts }).calls_for_border(current_process_elevated),
        (WindowFacts { visible: true, ..facts }).calls_for_border(current_process_elevated),
        (WindowFacts { cloaked: false, ..facts }).calls_for_border(current_process_elevated),
        (WindowFacts { process_elevated: Some(false), ..facts }).calls_for_border(
            current_process_elevated,
        ),
        facts.calls_for_border(true),
{
}

/// No border stands at a window that is no top-level window, that is hidden or cloaked, or that this
/// process may not touch, whatever rule and style say. Whose rights are asked for matters only to a
/// process that has none of its own.
pub proof fn law_border_needs_a_reachable_window(facts: WindowFacts, process_elevated: Option<bool>)
    ensures
        !(WindowFacts { top_level: false, ..facts }).calls_for_border(true),
        !(WindowFacts { visible: false, ..facts }).calls_for_border(true),
        !(WindowFacts { cloaked: true, ..facts }).calls_for_border(true),
        !(WindowFacts { top_level: false, ..facts }).calls_for_border(false),
        !(WindowFacts { visible: false, ..facts }).calls_for_border(false),
        !(WindowFacts { cloaked: true, ..facts }).calls_for_border(false),
        facts.process_elevated != Some(false) ==> !facts.calls_for_border(false),
        (WindowFacts { process_elevated, ..facts }).calls_for_border(true)
            == facts.calls_for_border(true),
        facts.process_elevated == Some(false) ==> facts.calls_for_border(false)
            == facts.calls_for_border(true),
{
}

/// The top-level windows at one moment. Hidden windows are among them, so that a border is not lost
/// just because its window cannot be seen for a while.
#[derive(Debug)]
pub struct WindowSnapshot {
    pub present: HashMap<isize, WindowIdentity>,
    /// Those that are to get a border if they have none.
    pub creatable: HashSet<isize>,
    pub current_process_elevated: bool,
}

impl WindowSnapshot {
    /// Every window is filed under its handle, and only windows that are there call for a border.
    pub open spec fn wf(&self) -> bool {
        &&& identities_keyed(self.present@)
        &&& self.creatable@.subset_of(self.present@.dom())
    }

    pub fn new(current_process_elevated: bool) -> (snapshot: Self)
        ensures
            snapshot.wf(),
            snapshot.present@ == Map::<isize, WindowIdentity>::empty(),
            snapshot.creatable@ == Set::<isize>::empty(),
            snapshot.current_process_elevated == current_process_elevated,
    {
        WindowSnapshot {
            present: HashMap::new(),
            creatable: HashSet::new(),
            current_process_elevated,
        }
    }

    /// Takes in one more window. One that is no top-level window, or is gone again, is left out.
    pub fn observe(&mut self, captured: Option<WindowIdentity>, facts: WindowFacts)
        requires
            old(self).wf(),
        ensures
            final(self).wf(),
            final(self).current_process_elevated == old(self).current_process_elevated,
            (final(self).present@, final(self).creatable@) == observed(
                old(self).present@,
                old(self).creatable@,
                old(self).current_process_elevated,
                captured,
                facts,
            ),
            match captured {
                Some(identity) if facts.top_level => {
                    &&& final(self).present@ == old(self).present@.insert(identity.hwnd, identity)
                    &&& final(self).creatable@ == (if facts.calls_for_border(
                        old(self).current_process_elevated,
                    ) {
                        old(self).creatable@.insert(identity.hwnd)
                    } else {
                        old(self).creatable@
                    })
                },
                _ => {
                    &&& final(self).present@ == old(self).present@
                    &&& final(self).creatable@ == old(self).creatable@
                },
            },
    {
        if !facts.top_level {
            return ;
        }
        let identity = match captured {
            Some(identity) => identity,
            None => return ,
        };
        self.present.insert(identity.hwnd, identity);
        if should_create_border(facts, self.current_process_elevated) {
            self.creatable.insert(identity.hwnd);
        }
    }

    /// Every window that is there, in an order of the map's choosing.
    fn identities(&self) -> (identities: Vec<WindowIdentity>)
        requires
            self.wf(),
        ensures
            forall|w: WindowIdentity| #[trigger]
                identities@.contains(w) <==> is_present(self.present@, w),
    {
        let mut identities: Vec<WindowIdentity> = Vec::new();
        for entry in walk: self.present.iter()
            invariant
                identities@.len() == walk.index(),
                walk.seq() == self.present.iter().remaining(),
                forall|i: int|
                    0 <= i < identities@.len() ==> identities@[i] == *(#[trigger] walk.seq()[i]).1,
        {
            identities.push(*entry.1);
        }
        proof {
            let pairs = self.present.iter().remaining();
            assert forall|w: WindowIdentity| #[trigger] identities@.contains(w) implies is_present(
                self.present@,
                w,
            ) by {
                let i = choose|i: int| 0 <= i < identities@.len() && identities@[i] == w;
                assert(self.present@.contains_key(*pairs[i].0) && self.present@[*pairs[i].0]
                    == *pairs[i].1);
            }
            assert forall|w: WindowIdentity| is_present(
                self.present@,
                w,
            ) implies #[trigger] identities@.contains(w) by {
                let at = choose|at: int|
                    0 <= at < pairs.len() && pairs[at] == (&w.hwnd, &self.present@[w.hwnd]);
                assert(identities@[at] == w);
            }
        }
        identities
    }

    /// The handles of all windows, in ascending order.
    pub fn initial_windows(&self) -> (handles: Vec<isize>)
        requires
            self.wf(),
        ensures
            crate::sorted::ascending(handles@),
            forall|h: isize| #[trigger] handles@.contains(h) <==> self.present@.contains_key(h),
    {
        let identities = self.identities();
        let mut handles: Vec<isize> = Vec::new();
        for i in 0..identities.len()
            invariant
                crate::sorted::ascending(handles@),
                forall|h: isize| #[trigger]
                    handles@.contains(h) <==> exists|j: int|
                        0 <= j < i && (#[trigger] identities@[j]).hwnd == h,
        {
            let ghost before = handles@;
            insert_handle(&mut handles, identities[i].hwnd);
            assert forall|h: isize| #[trigger] handles@.contains(h) <==> exists|j: int|
                0 <= j < i + 1 && (#[trigger] identities@[j]).hwnd == h by {
                if before.contains(h) {
                    let j = choose|j: int| 0 <= j < i && (#[trigger] identities@[j]).hwnd == h;
                    assert(identities@[j].hwnd == h);
                }
            }
        }
        assert forall|h: isize| #[trigger] handles@.contains(h) <==> self.present@.contains_key(
            h,
        ) by {
            if handles@.contains(h) {
                let j = choose|j: int|
                    0 <= j < identities@.len() && (#[trigger] identities@[j]).hwnd == h;
                assert(identities@.contains(identities@[j]));
            }
            if self.present@.contains_key(h) {
                assert(identities@.contains(self.present@[h]));
                let j = choose|j: int| 0 <= j < identities@.len() && identities@[j]
                    == self.present@[h];
                assert(identities@[j].hwnd == h);
            }
        }
        handles
    }

    /// The windows that call for a border, in ascending order.
    pub fn creatable_windows(&self) -> (identities: Vec<WindowIdentity>)
        requires
            self.wf(),
        ensures
            crate::sorted::ascending_identities(identities@),
            forall|w: WindowIdentity| #[trigger]
                identities@.contains(w) <==> is_present(self.present@, w)
                    && self.creatable@.contains(w.hwnd),
    {
        let all = self.identities();
        let mut chosen: Vec<WindowIdentity> = Vec::new();
        for i in 0..all.len()
            invariant
                crate::sorted::ascending_identities(chosen@),
                forall|w: WindowIdentity| #[trigger]
                    chosen@.contains(w) <==> all@.take(i as int).contains(w)
                        && self.creatable@.contains(w.hwnd),
        {
            if self.creatable.contains(&all[i].hwnd) {
                insert_identity(&mut chosen, all[i]);
            }
            proof {
                lemma_take_one_more(all@, i as int);
            }
        }
        assert(all@.take(all@.len() as int) =~= all@);
        chosen
    }
}

pub open spec fn identities_keyed(present: Map<isize, WindowIdentity>) -> bool {
    forall|key: isize| #[trigger] present.contains_key(key) ==> present[key].hwnd == key
}

/// Whether exactly this window, not just its handle, is there.
pub open spec fn is_present(present: Map<isize, WindowIdentity>, identity: WindowIdentity) -> bool {
    present.contains_key(identity.hwnd) && present[identity.hwnd] == identity
}

proof fn lemma_take_one_more(all: Seq<WindowIdentity>, i: int)
    requires
        0 <= i < all.len(),
    ensures
        forall|w: WindowIdentity| #[trigger]
            all.take(i + 1).contains(w) <==> all.take(i).contains(w) || w == all[i],
{
    let shorter = all.take(i);
    let longer = all.take(i + 1);
    assert forall|w: WindowIdentity| #[trigger] longer.contains(w) <==> shorter.contains(w) || w
        == all[i] by {
        if shorter.contains(w) {
            let k = choose|k: int| 0 <= k < shorter.len() && shorter[k] == w;
            assert(longer[k] == w);
        }
        if longer.contains(w) {
            let k = choose|k: int| 0 <= k < longer.len() && longer[k] == w;
            if k < i {
                assert(shorter[k] == w);
            }
        }
        assert(longer[i] == all[i]);
    }
}

/// The windows that are there, and those of them that call for a border, once one more window has
/// been seen.
pub open spec fn observed(
    present: Map<isize, WindowIdentity>,
    creatable: Set<isize>,
    current_process_elevated: bool,
    captured: Option<WindowIdentity>,
    facts: WindowFacts,
) -> (Map<isize, WindowIdentity>, Set<isize>) {
    match captured {
        Some(identity) => if facts.top_level {
            (
                present.insert(identity.hwnd, identity),
                if facts.calls_for_border(current_process_elevated) {
                    creatable.insert(identity.hwnd)
                } else {
                    creatable
                },
            )
        } else {
            (present, creatable)
        },
        None => (present, creatable),
    }
}

/// Seeing a window files it under its handle, and marks it exactly if it calls for a border and was
/// not marked before. No other window is touched. A window that is gone, or is no top-level window,
/// leaves everything as it is.
pub proof fn law_each_window_is_filed_by_itself(
    present: Map<isize, WindowIdentity>,
    creatable: Set<isize>,
    current_process_elevated: bool,
    captured: Option<WindowIdentity>,
    facts: WindowFacts,
    other: isize,
)
    ensures
        ({
            let (seen, marked) = observed(
                present,
                creatable,
                current_process_elevated,
                captured,
                facts,
            );
            &&& captured is None || !facts.top_level ==> seen == present && marked == creatable
            &&& captured matches Some(identity) ==> facts.top_level ==> {
                &&& seen.contains_key(identity.hwnd) && seen[identity.hwnd] == identity
                &&& marked.contains(identity.hwnd) <==> creatable.contains(identity.hwnd) || (
                facts.visible && !facts.cloaked && (current_process_elevated
                    || facts.process_elevated == Some(false)) && (facts.enabled == Some(
                    EnableMode::Bool(true),
                ) || (!facts.filtered_style && facts.enabled != Some(EnableMode::Bool(false)))))
                &&& other != identity.hwnd ==> {
                    &&& seen.contains_key(other) == present.contains_key(other)
                    &&& seen[other] == present[other]
                    &&& marked.contains(other) == creatable.contains(other)
                }
            }
        }),
{
}

/// What brings the borders in line with a snapshot.
#[derive(Debug)]
pub struct ReconciliationPlan {
    pub destroy: Vec<WindowIdentity>,
    pub create: Vec<WindowIdentity>,
}

/// Whether one of the records tracks exactly this window.
pub open spec fn is_recorded(records: Seq<BorderRecord>, identity: WindowIdentity) -> bool {
    exists|i: int| 0 <= i < records.len() && (#[trigger] records[i]).tracking == identity
}

fn recorded(records: &Vec<BorderRecord>, identity: WindowIdentity) -> (found: bool)
    ensures
        found == is_recorded(records@, identity),
{
    for i in 0..records.len()
        invariant
            forall|j: int| 0 <= j < i ==> (#[trigger] records@[j]).tracking != identity,
    {
        if records[i].tracking == identity {
            return true;
        }
    }
    false
}

/// Whether these are the borders to end and to create so that records and windows agree.
pub open spec fn planned(
    records: Seq<BorderRecord>,
    present: Map<isize, WindowIdentity>,
    creatable: Set<isize>,
    destroy: Seq<WindowIdentity>,
    create: Seq<WindowIdentity>,
) -> bool {
    &&& crate::sorted::ascending_identities(destroy)
    &&& crate::sorted::ascending_identities(create)
    &&& forall|w: WindowIdentity| #[trigger]
        destroy.contains(w) <==> is_recorded(records, w) && !is_present(present, w)
    &&& forall|w: WindowIdentity| #[trigger]
        create.contains(w) <==> is_present(present, w) && creatable.contains(w.hwnd)
            && !is_recorded(records, w)
}

/// A recorded window is to be ended exactly if its handle names no window or another one by now. A
/// window is to be created exactly if it is there, calls for a border and is not recorded as the very
/// window that it is. Nothing is in both lists, and nothing twice in either.
pub proof fn law_plans_follow_the_desktop(
    records: Seq<BorderRecord>,
    present: Map<isize, WindowIdentity>,
    creatable: Set<isize>,
    destroy: Seq<WindowIdentity>,
    create: Seq<WindowIdentity>,
    w: WindowIdentity,
)
    requires
        planned(records, present, creatable, destroy, create),
    ensures
        destroy.contains(w) <==> (exists|i: int|
            0 <= i < records.len() && (#[trigger] records[i]).tracking == w) && (
        !present.contains_key(w.hwnd) || present[w.hwnd] != w),
        create.contains(w) <==> present.contains_key(w.hwnd) && present[w.hwnd] == w
            && creatable.contains(w.hwnd) && forall|i: int|
            0 <= i < records.len() ==> (#[trigger] records[i]).tracking != w,
        !(destroy.contains(w) && create.contains(w)),
        destroy.no_duplicates(),
        create.no_duplicates(),
{
    crate::coalescing::law_ascending_lists_name_nothing_twice(destroy);
    crate::coalescing::law_ascending_lists_name_nothing_twice(create);
}

/// Borders go whose window is gone, or whose handle belongs to another window by now. Borders come
/// for windows that call for one and have none. A handle that changed hands is in both lists, with
/// the old and the new identity. Both lists are in ascending order.
pub fn plan_reconciliation(current: &Vec<BorderRecord>, snapshot: &WindowSnapshot) -> (plan:
    ReconciliationPlan)
    requires
        snapshot.wf(),
    ensures
        planned(
            current@,
            snapshot.present@,
            snapshot.creatable@,
            plan.destroy@,
            plan.create@,
        ),
        crate::sorted::ascending_identities(plan.destroy@),
        crate::sorted::ascending_identities(plan.create@),
        forall|w: WindowIdentity| #[trigger]
            plan.destroy@.contains(w) <==> is_recorded(current@, w) && !is_present(
                snapshot.present@,
                w,
            ),
        forall|w: WindowIdentity| #[trigger]
            plan.create@.contains(w) <==> is_present(snapshot.present@, w)
                && snapshot.creatable@.contains(w.hwnd) && !is_recorded(current@, w),
{
    let mut destroy: Vec<WindowIdentity> = Vec::new();
    for i in 0..current.len()
        invariant
            crate::sorted::ascending_identities(destroy@),
            forall|w: WindowIdentity| #[trigger]
                destroy@.contains(w) <==> is_recorded(current@.take(i as int), w) && !is_present(
                    snapshot.present@,
                    w,
                ),
    {
        let tracking = current[i].tracking;
        let still_there = match snapshot.present.get(&tracking.hwnd) {
            Some(found) => *found == tracking,
            None => false,
        };
        if !still_there {
            insert_identity(&mut destroy, tracking);
        }
        proof {
            let shorter = current@.take(i as int);
            let longer = current@.take(i + 1);
            assert forall|w: WindowIdentity| #[trigger] is_recorded(longer, w) <==> is_recorded(
                shorter,
                w,
            ) || w == tracking by {
                if is_recorded(shorter, w) {
                    let k = choose|k: int| 0 <= k < shorter.len() && (#[trigger] shorter[k]).tracking == w;
                    assert(longer[k].tracking == w);
                }
                if is_recorded(longer, w) {
                    let k = choose|k: int| 0 <= k < longer.len() && (#[trigger] longer[k]).tracking == w;
                    if k < i {
                        assert(shorter[k].tracking == w);
                    }
                }
                assert(longer[i as int].tracking == tracking);
            }
        }
    }
    assert(current@.take(current@.len() as int) =~= current@);

    let creatable = snapshot.creatable_windows();
    let mut create: Vec<WindowIdentity> = Vec::new();
    for i in 0..creatable.len()
        invariant
            crate::sorted::ascending_identities(create@),
            forall|w: WindowIdentity| #[trigger]
                create@.contains(w) <==> creatable@.take(i as int).contains(w) && !is_recorded(
                    current@,
                    w,
                ),
    {
        if !recorded(current, creatable[i]) {
            insert_identity(&mut create, creatable[i]);
        }
        proof {
            lemma_take_one_more(creatable@, i as int);
        }
    }
    assert(creatable@.take(creatable@.len() as int) =~= creatable@);
    ReconciliationPlan { destroy, create }
}

} // verus!
