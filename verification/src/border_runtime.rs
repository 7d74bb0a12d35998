//! The border runtime: it owns the registry of borders and decides what happens to them.

use std::collections::{HashMap, HashSet};
use vstd::prelude::*;

use crate::border_registry::{BorderLifecycleState, BorderRecord, BorderRegistry, WindowIdentity};
use crate::coalescing::{
    timer_delay_ms, LocationAction, LocationCoalescer, ReorderAction, ReorderCoalescer,
};
use crate::keys::keys_of;
use crate::runtime_model::{
    AnimationRegistration, BorderCall, BorderRuntimeCommand, BorderRuntimeSnapshot,
    BorderRuntimeUpdate, BorderWindowEvent, Broadcast, CollectPurpose, RuntimeAction, RuntimeView,
    SyncPurpose, WindowBorder, ANIMATION_TIMER_ID, FOREGROUND_POLL_INTERVAL_MS,
    FOREGROUND_POLL_TIMER_ID, LOCATION_TIMER_ID, MIN_ANIMATION_TIMER_INTERVAL_MS,
    RECONCILE_INTERVAL_MS, RECONCILE_TIMER_ID, REORDER_TIMER_ID,
};
use crate::window_snapshot::{
    plan_reconciliation, should_create_border, WindowFacts, WindowSnapshot,
};

verus! {

broadcast use vstd::std_specs::hash::group_hash_axioms;

/// The interval of the animation timer for a frame rate. A rate of zero counts as one.
pub fn animation_interval_ms(fps: u32) -> (interval_ms: u32)
    ensures
        interval_ms == crate::runtime_model::interval_for(fps),
{
    let frame: u32 = if fps < 1 {
        1000
    } else {
        1000 / fps
    };
    if frame < MIN_ANIMATION_TIMER_INTERVAL_MS {
        MIN_ANIMATION_TIMER_INTERVAL_MS
    } else {
        frame
    }
}

#[derive(Debug)]
pub struct BorderRuntime {
    pub registry: BorderRegistry,
    pub active_window: isize,
    pub current_process_elevated: bool,
    pub reorder: ReorderCoalescer,
    pub location: LocationCoalescer,
    pub borders: HashMap<isize, WindowBorder>,
    pub animated: HashMap<isize, AnimationRegistration>,
    /// The window that timers belong to, zero while there is none.
    pub dispatcher_hwnd: isize,
    pub animation_timer_interval_ms: Option<u32>,
}

impl View for BorderRuntime {
    type V = RuntimeView;

    open spec fn view(&self) -> RuntimeView {
        RuntimeView {
            registry: self.registry@,
            borders: self.borders@,
            animated: self.animated@,
            active_window: self.active_window,
            current_process_elevated: self.current_process_elevated,
            reorder: self.reorder,
            location: self.location@,
            dispatcher_hwnd: self.dispatcher_hwnd,
            animation_timer_interval_ms: self.animation_timer_interval_ms,
        }
    }
}

impl Default for BorderRuntime {
    fn default() -> (runtime: Self)
        ensures
            runtime.wf(),
            runtime@ == Self::empty_view(),
    {
        let runtime = BorderRuntime {
            registry: BorderRegistry::default(),
            active_window: 0,
            current_process_elevated: false,
            reorder: ReorderCoalescer::default(),
            location: LocationCoalescer::default(),
            borders: HashMap::new(),
            animated: HashMap::new(),
            dispatcher_hwnd: 0,
            animation_timer_interval_ms: None,
        };
        runtime
    }
}

fn call_for_event(event: BorderWindowEvent) -> (call: BorderCall)
    ensures
        call == crate::runtime_model::event_call(event),
{
    match event {
        BorderWindowEvent::LocationChange => BorderCall::LocationChange,
        BorderWindowEvent::ShowUncloaked => BorderCall::ShowUncloaked,
        BorderWindowEvent::HideCloaked => BorderCall::HideCloaked,
        BorderWindowEvent::MinimizeStart => BorderCall::MinimizeStart,
        BorderWindowEvent::MinimizeEnd => BorderCall::MinimizeEnd,
    }
}

fn call_for_update(update: &BorderRuntimeUpdate) -> (call: BorderCall)
    ensures
        call == crate::runtime_model::update_call(*update),
{
    match update {
        BorderRuntimeUpdate::Colors { active, inactive } => BorderCall::ApplyColors {
            active: match active {
                Some(color) => Some(color.clone()),
                None => None,
            },
            inactive: match inactive {
                Some(color) => Some(color.clone()),
                None => None,
            },
        },
        BorderRuntimeUpdate::Width(width) => BorderCall::ApplyWidth(*width),
        BorderRuntimeUpdate::Offset(offset) => BorderCall::ApplyOffset(*offset),
        BorderRuntimeUpdate::Radius(radius) => BorderCall::ApplyRadius(*radius),
    }
}

/// What brings windows that moved to their borders.
fn flush_location_identities(moved: &Vec<WindowIdentity>) -> (actions: Vec<RuntimeAction>)
    ensures
        actions@ == crate::runtime_model::location_flushes(moved@),
{
    let mut actions: Vec<RuntimeAction> = Vec::new();
    for i in 0..moved.len()
        invariant
            actions@ == crate::runtime_model::location_flushes(moved@.take(i as int)),
    {
        actions.push(RuntimeAction::ReleaseLocation(moved[i]));
        actions.push(
            RuntimeAction::HandleWindowEvent {
                identity: moved[i],
                event: BorderWindowEvent::LocationChange,
            },
        );
        assert(moved@.take(i + 1).drop_last() =~= moved@.take(i as int));
        assert(actions@ =~= crate::runtime_model::location_flushes(moved@.take(i + 1)));
    }
    assert(moved@.take(moved@.len() as int) =~= moved@);
    actions
}

impl BorderRuntime {
    /// The state before anything has happened.
    pub open spec fn empty_view() -> RuntimeView {
        RuntimeView {
            registry: Map::empty(),
            borders: Map::empty(),
            animated: Map::empty(),
            active_window: 0,
            current_process_elevated: false,
            reorder: ReorderCoalescer::idle(),
            location: crate::coalescing::LocationView::idle(),
            dispatcher_hwnd: 0,
            animation_timer_interval_ms: None,
        }
    }

    pub open spec fn wf(&self) -> bool {
        self@.wf() && self.location.wf()
    }

    pub fn refresh_animation_timer(&mut self) -> (actions: Vec<RuntimeAction>)
        requires
            old(self).wf(),
        ensures
            final(self).wf(),
            final(self)@ == old(self)@.retimed().0,
            actions@ == old(self)@.retimed().1,
    {
        let mut actions: Vec<RuntimeAction> = Vec::new();
        if self.dispatcher_hwnd == 0 {
            return actions;
        }
        let desired: Option<u32> = self.desired_interval();
        let unchanged = match (desired, self.animation_timer_interval_ms) {
            (Some(wanted), Some(running)) => wanted == running,
            (None, None) => true,
            _ => false,
        };
        if unchanged {
            return actions;
        }
        if self.animation_timer_interval_ms.is_some() {
            actions.push(RuntimeAction::KillTimer { timer_id: ANIMATION_TIMER_ID });
        }
        if let Some(interval_ms) = desired {
            actions.push(RuntimeAction::SetTimer { timer_id: ANIMATION_TIMER_ID, interval_ms });
        }
        self.animation_timer_interval_ms = desired;
        assert(actions@ =~= old(self)@.retimed().1);
        actions
    }

    fn desired_interval(&self) -> (interval: Option<u32>)
        ensures
            interval == crate::runtime_model::desired_interval(self.animated@),
    {
        let keys = keys_of(&self.animated);
        let mut fastest: Option<u32> = None;
        for i in 0..keys.len()
            invariant
                crate::keys::lists_keys(keys@, self.animated@.dom()),
                fastest is None <==> i == 0,
                fastest matches Some(interval) ==> {
                    &&& exists|j: int|
                        0 <= j < i && crate::runtime_model::interval_for(
                            self.animated@[#[trigger] keys@[j]].fps,
                        ) == interval
                    &&& forall|j: int|
                        0 <= j < i ==> interval <= crate::runtime_model::interval_for(
                            self.animated@[#[trigger] keys@[j]].fps,
                        )
                },
        {
            assert(self.animated@.dom().contains(keys@[i as int])) by {
                assert(keys@.to_set().contains(keys@[i as int]));
            }
            if let Some(registration) = self.animated.get(&keys[i]) {
                let interval: u32 = animation_interval_ms(registration.fps);
                fastest = match fastest {
                    Some(best) => if interval < best {
                        Some(interval)
                    } else {
                        Some(best)
                    },
                    None => Some(interval),
                };
            }
        }
        proof {
            let animated = self.animated@;
            if keys@.len() == 0 {
                assert(animated.dom() =~= Set::empty());
                assert(animated =~= Map::empty());
            } else {
                let found = fastest->0;
                let j = choose|j: int|
                    0 <= j < keys@.len() && crate::runtime_model::interval_for(
                        animated[#[trigger] keys@[j]].fps,
                    ) == found;
                assert(keys@.to_set().contains(keys@[j]));
                assert(animated.contains_key(keys@[j]));
                assert forall|key: isize| #[trigger] animated.contains_key(key) implies found
                    <= crate::runtime_model::interval_for(animated[key].fps) by {
                    assert(keys@.to_set().contains(key));
                    let k = choose|k: int| 0 <= k < keys@.len() && keys@[k] == key;
                    assert(keys@[k] == key);
                }
                assert(crate::runtime_model::is_fastest(animated, found));
                assert forall|other: u32| crate::runtime_model::is_fastest(
                    animated,
                    other,
                ) implies other == found by {
                    let key = choose|key: isize| #[trigger]
                        animated.contains_key(key) && crate::runtime_model::interval_for(
                            animated[key].fps,
                        ) == other;
                    assert(found <= other);
                    assert(other <= found);
                }
            }
        }
        fastest
    }

    fn remove_animation_registration(&mut self, identity: WindowIdentity)
        requires
            old(self).wf(),
        ensures
            final(self).wf(),
            final(self)@ == old(self)@.without_animation(identity),
    {
        let registered = match self.animated.get(&identity.hwnd) {
            Some(registration) => registration.identity == identity,
            None => false,
        };
        if registered {
            self.animated.remove(&identity.hwnd);
        }
    }

    /// Starts or ends the animation of a border. A window without a border is not animated.
    pub fn set_animation_registration(&mut self, identity: WindowIdentity, fps: Option<u32>) -> (
        actions: Vec<RuntimeAction>)
        requires
            old(self).wf(),
        ensures
            final(self).wf(),
            final(self)@ == old(self)@.with_animation(identity, fps).0,
            actions@ == old(self)@.with_animation(identity, fps).1,
    {
        match fps {
            Some(fps) => {
                if !self.tracks(identity) || !self.borders.contains_key(&identity.hwnd) {
                    return Vec::new();
                }
                let fps: u32 = if fps < 1 {
                    1
                } else {
                    fps
                };
                self.animated.insert(identity.hwnd, AnimationRegistration { identity, fps });
            },
            None => self.remove_animation_registration(identity),
        }
        self.refresh_animation_timer()
    }

    /// Whether the registry holds exactly this window.
    pub fn tracks(&self, identity: WindowIdentity) -> (found: bool)
        ensures
            found == self@.registered(identity),
    {
        match self.registry.get_by_key(identity.hwnd) {
            Some(record) => record.tracking == identity,
            None => false,
        }
    }

    /// Ends the border of exactly this window. A late request for a window whose handle belongs to
    /// another one by now does nothing.
    pub fn destroy_border(&mut self, expected_identity: WindowIdentity) -> (actions: Vec<
        RuntimeAction,
    >)
        requires
            old(self).wf(),
        ensures
            final(self).wf(),
            final(self)@ == old(self)@.destroyed(expected_identity).0,
            actions@ == old(self)@.destroyed(expected_identity).1,
    {
        if !self.tracks(expected_identity) {
            return Vec::new();
        }
        self.remove_animation_registration(expected_identity);
        let mut actions = self.refresh_animation_timer();
        self.registry.remove_by_key(expected_identity.hwnd);
        if let Some(border) = self.borders.remove(&expected_identity.hwnd) {
            actions.push(RuntimeAction::DropBorder { border: border.border_window });
        }
        assert(actions@ =~= old(self)@.destroyed(expected_identity).1);
        actions
    }

    fn destroy_each(&mut self, identities: &Vec<WindowIdentity>) -> (actions: Vec<RuntimeAction>)
        requires
            old(self).wf(),
        ensures
            final(self).wf(),
            final(self)@ == old(self)@.destroyed_each(identities@).0,
            actions@ == old(self)@.destroyed_each(identities@).1,
    {
        let mut actions: Vec<RuntimeAction> = Vec::new();
        for i in 0..identities.len()
            invariant
                self.wf(),
                self@ == old(self)@.destroyed_each(identities@.take(i as int)).0,
                actions@ == old(self)@.destroyed_each(identities@.take(i as int)).1,
        {
            let mut last = self.destroy_border(identities[i]);
            actions.append(&mut last);
            assert(identities@.take(i + 1).drop_last() =~= identities@.take(i as int));
        }
        assert(identities@.take(identities@.len() as int) =~= identities@);
        actions
    }

    /// A window with this handle was reported gone. `live` is the window that the handle names now:
    /// if that is the registered one, the report is about an earlier window and comes late.
    pub fn destroy_observed(&mut self, hwnd: isize, live: Option<WindowIdentity>) -> (actions: Vec<
        RuntimeAction,
    >)
        requires
            old(self).wf(),
        ensures
            final(self).wf(),
            final(self)@ == old(self)@.after_observed_destroy(hwnd, live).0,
            actions@ == old(self)@.after_observed_destroy(hwnd, live).1,
    {
        let tracking = match self.registry.get_by_key(hwnd) {
            Some(record) => record.tracking,
            None => return Vec::new(),
        };
        if tracking.still_matches(live) {
            return Vec::new();
        }
        self.destroy_border(tracking)
    }

    /// Something happened to the window `identity`. `live` is the window that its handle names now.
    pub fn handle_window_event(
        &mut self,
        identity: WindowIdentity,
        event: BorderWindowEvent,
        live: Option<WindowIdentity>,
    ) -> (actions: Vec<RuntimeAction>)
        requires
            old(self).wf(),
        ensures
            final(self).wf(),
            final(self)@ == old(self)@.after_window_event(identity, event, live).0,
            actions@ == old(self)@.after_window_event(identity, event, live).1,
    {
        if !identity.still_matches(live) {
            return Vec::new();
        }
        let found: Option<WindowIdentity> = match self.registry.get_by_key(identity.hwnd) {
            Some(record) => Some(record.tracking),
            None => None,
        };
        let mut actions: Vec<RuntimeAction> = Vec::new();
        if let Some(tracking) = found {
            if tracking == identity {
                if let Some(border) = self.borders.get(&identity.hwnd) {
                    actions.push(
                        RuntimeAction::Call {
                            border: border.border_window,
                            call: call_for_event(event),
                        },
                    );
                    assert(actions@ =~= old(self)@.after_window_event(identity, event, live).1);
                    return actions;
                }
            }
            actions = self.destroy_border(tracking);
        }
        if event == BorderWindowEvent::ShowUncloaked {
            actions.push(RuntimeAction::CreateBorder { identity });
        }
        assert(actions@ =~= old(self)@.after_window_event(identity, event, live).1);
        actions
    }

    /// A border is wanted for the window `identity`. `live` is the window that its handle names
    /// now. Leads to `assess_border` unless the border is there already or the window has gone.
    pub fn create_border(&mut self, identity: WindowIdentity, live: Option<WindowIdentity>) -> (
        actions: Vec<RuntimeAction>)
        requires
            old(self).wf(),
        ensures
            final(self).wf(),
            final(self)@ == old(self)@.after_create(identity, live).0,
            actions@ == old(self)@.after_create(identity, live).1,
    {
        if !identity.still_matches(live) {
            return Vec::new();
        }
        let existing: Option<WindowIdentity> = match self.registry.get(identity.hwnd()) {
            Some(record) => Some(record.tracking),
            None => None,
        };
        let mut actions: Vec<RuntimeAction> = Vec::new();
        if let Some(tracking) = existing {
            if tracking == identity {
                if self.borders.contains_key(&identity.hwnd) {
                    return actions;
                }
                self.registry.remove_by_key(identity.hwnd);
            } else {
                actions = self.destroy_border(tracking);
            }
        }
        actions.push(RuntimeAction::AssessBorder { identity });
        assert(actions@ =~= old(self)@.after_create(identity, live).1);
        actions
    }

    /// Goes on with the creation if the window calls for a border.
    pub fn assess_border(&self, identity: WindowIdentity, facts: WindowFacts) -> (actions: Vec<
        RuntimeAction,
    >)
        ensures
            actions@ == self@.after_assessment(identity, facts),
            actions@ == (if facts.calls_for_border(self.current_process_elevated) {
                seq![RuntimeAction::AdmitBorder { identity }]
            } else {
                Seq::empty()
            }),
    {
        let mut actions: Vec<RuntimeAction> = Vec::new();
        if should_create_border(facts, self.current_process_elevated) {
            actions.push(RuntimeAction::AdmitBorder { identity });
        }
        assert(actions@ =~= (if facts.calls_for_border(self.current_process_elevated) {
            seq![RuntimeAction::AdmitBorder { identity }]
        } else {
            Seq::empty()
        }));
        actions
    }

    /// Goes on with the creation if the window is still there.
    pub fn admit_border(&self, identity: WindowIdentity, live: Option<WindowIdentity>) -> (actions:
        Vec<RuntimeAction>)
        ensures
            actions@ == self@.after_admission(identity, live),
            actions@ == (if live == Some(identity) {
                seq![RuntimeAction::ConstructBorder { identity }]
            } else {
                Seq::empty()
            }),
    {
        let mut actions: Vec<RuntimeAction> = Vec::new();
        if identity.still_matches(live) {
            actions.push(RuntimeAction::ConstructBorder { identity });
        }
        assert(actions@ =~= (if live == Some(identity) {
            seq![RuntimeAction::ConstructBorder { identity }]
        } else {
            Seq::empty()
        }));
        actions
    }

    /// The border window has been made: registers it and asks for its initialization.
    pub fn register_border(&mut self, identity: WindowIdentity, border_window: isize) -> (actions:
        Vec<RuntimeAction>)
        requires
            old(self).wf(),
        ensures
            final(self).wf(),
            final(self)@ == old(self)@.after_register(identity, border_window).0,
            actions@ == old(self)@.after_register(identity, border_window).1,
    {
        self.registry.insert(
            BorderRecord {
                tracking: identity,
                border_hwnd: border_window,
                state: BorderLifecycleState::Initializing,
            },
        );
        let mut actions: Vec<RuntimeAction> = Vec::new();
        let border = WindowBorder { tracked_identity: Some(identity), border_window };
        if let Some(replaced) = self.borders.insert(identity.hwnd, border) {
            actions.push(RuntimeAction::DropBorder { border: replaced.border_window });
        }
        let is_active = identity.hwnd == self.active_window;
        actions.push(RuntimeAction::InitBorder { identity, border: border_window, is_active });
        assert(actions@ =~= old(self)@.after_register(identity, border_window).1);
        actions
    }

    /// The border window has been initialized, or failed to be and goes again.
    pub fn finish_create(&mut self, identity: WindowIdentity, initialized: bool) -> (actions: Vec<
        RuntimeAction,
    >)
        requires
            old(self).wf(),
        ensures
            final(self).wf(),
            final(self)@ == old(self)@.after_initialization(identity, initialized).0,
            actions@ == old(self)@.after_initialization(identity, initialized).1,
            initialized ==> final(self)@ == old(self)@ && actions@.len() == 0,
            !initialized ==> final(self)@ == old(self)@.destroyed(identity).0 && actions@ == old(
                self,
            )@.destroyed(identity).1,
    {
        if initialized {
            return Vec::new();
        }
        self.destroy_border(identity)
    }

    pub fn handle_location_request(&mut self, identity: WindowIdentity, now: u64) -> (actions: Vec<
        RuntimeAction,
    >)
        requires
            old(self).wf(),
        ensures
            final(self).wf(),
            final(self)@ == old(self)@.after_location_request(identity, now).0,
            actions@ == old(self)@.after_location_request(identity, now).1,
    {
        match self.location.on_event(identity, now) {
            LocationAction::FlushNow => {
                let mut moved: Vec<WindowIdentity> = Vec::new();
                moved.push(identity);
                assert(moved@ =~= seq![identity]);
                flush_location_identities(&moved)
            },
            LocationAction::ArmTimer(delay) => self.arm_location_timer(delay),
            LocationAction::Coalesced => Vec::new(),
        }
    }

    fn arm_location_timer(&mut self, delay: u64) -> (actions: Vec<RuntimeAction>)
        requires
            old(self).wf(),
        ensures
            final(self).wf(),
            final(self)@ == old(self)@.with_location_timer(delay).0,
            actions@ == old(self)@.with_location_timer(delay).1,
    {
        let mut actions: Vec<RuntimeAction> = Vec::new();
        if self.dispatcher_hwnd == 0 {
            self.location.reset();
            actions.push(RuntimeAction::ClearLocationGate);
        } else {
            actions.push(
                RuntimeAction::ArmTimer {
                    timer_id: LOCATION_TIMER_ID,
                    delay_ms: timer_delay_ms(delay),
                },
            );
        }
        assert(actions@ =~= old(self)@.with_location_timer(delay).1);
        actions
    }

    /// The location timer could not be set: what waits for it is flushed at once.
    pub fn location_timer_failed(&mut self, now: u64) -> (actions: Vec<RuntimeAction>)
        requires
            old(self).wf(),
        ensures
            final(self).wf(),
            old(self)@.misses_location_timer(now, final(self)@, actions@),
            final(self)@ == (RuntimeView {
                location: old(self)@.location.after_timer(now),
                ..old(self)@
            }),
            exists|moved: Seq<WindowIdentity>|
                crate::coalescing::lists_identities(moved, old(self)@.location.dirty) && actions@
                    == #[trigger] crate::runtime_model::location_flushes(moved),
    {
        let moved = self.location.on_timer(now);
        flush_location_identities(&moved)
    }

    /// The location timer has run out.
    pub fn handle_location_timer(&mut self, now: u64) -> (actions: Vec<RuntimeAction>)
        requires
            old(self).wf(),
        ensures
            final(self).wf(),
            old(self)@.runs_location_timer(now, final(self)@, actions@),
    {
        let mut actions: Vec<RuntimeAction> = Vec::new();
        if self.dispatcher_hwnd == 0 {
            self.location.reset();
            actions.push(RuntimeAction::ClearLocationGate);
            assert(actions@ =~= seq![RuntimeAction::ClearLocationGate]);
            return actions;
        }
        actions.push(RuntimeAction::KillTimer { timer_id: LOCATION_TIMER_ID });
        let moved = self.location.on_timer(now);
        let mut flush = flush_location_identities(&moved);
        actions.append(&mut flush);
        assert(actions@ =~= seq![RuntimeAction::KillTimer { timer_id: LOCATION_TIMER_ID }]
            + crate::runtime_model::location_flushes(moved@));
        actions
    }

    pub fn handle_reorder_request(&mut self, now: u64) -> (actions: Vec<RuntimeAction>)
        requires
            old(self).wf(),
        ensures
            final(self).wf(),
            final(self)@ == old(self)@.after_reorder_request(now).0,
            actions@ == old(self)@.after_reorder_request(now).1,
    {
        match self.reorder.on_event(now) {
            ReorderAction::FlushNow => {
                let mut actions: Vec<RuntimeAction> = Vec::new();
                actions.push(RuntimeAction::FlushReorder);
                actions.push(RuntimeAction::ClearReorderPending);
                assert(actions@ =~= old(self)@.after_reorder_request(now).1);
                actions
            },
            ReorderAction::ArmTimer(delay) => self.arm_reorder_timer(delay),
            ReorderAction::Coalesced => Vec::new(),
        }
    }

    fn arm_reorder_timer(&mut self, delay: u64) -> (actions: Vec<RuntimeAction>)
        requires
            old(self).wf(),
        ensures
            final(self).wf(),
            final(self)@ == old(self)@.with_reorder_timer(delay).0,
            actions@ == old(self)@.with_reorder_timer(delay).1,
    {
        let mut actions: Vec<RuntimeAction> = Vec::new();
        if self.dispatcher_hwnd == 0 {
            self.reorder.reset();
            actions.push(RuntimeAction::ClearReorderPending);
        } else {
            actions.push(
                RuntimeAction::ArmTimer {
                    timer_id: REORDER_TIMER_ID,
                    delay_ms: timer_delay_ms(delay),
                },
            );
        }
        assert(actions@ =~= old(self)@.with_reorder_timer(delay).1);
        actions
    }

    /// The reorder timer could not be set: the flush happens at once.
    pub fn reorder_timer_failed(&mut self) -> (actions: Vec<RuntimeAction>)
        requires
            old(self).wf(),
        ensures
            final(self).wf(),
            final(self)@ == old(self)@.without_reorder_timer().0,
            actions@ == old(self)@.without_reorder_timer().1,
            final(self)@ == (RuntimeView { reorder: ReorderCoalescer::idle(), ..old(self)@ }),
            actions@ == seq![RuntimeAction::FlushReorder, RuntimeAction::ClearReorderPending],
    {
        self.reorder.reset();
        let mut actions: Vec<RuntimeAction> = Vec::new();
        actions.push(RuntimeAction::FlushReorder);
        actions.push(RuntimeAction::ClearReorderPending);
        assert(actions@ =~= seq![
            RuntimeAction::FlushReorder,
            RuntimeAction::ClearReorderPending,
        ]);
        actions
    }

    /// The reorder timer has run out.
    pub fn handle_reorder_timer(&mut self, now: u64) -> (actions: Vec<RuntimeAction>)
        requires
            old(self).wf(),
        ensures
            final(self).wf(),
            final(self)@ == old(self)@.after_reorder_timer(now).0,
            actions@ == old(self)@.after_reorder_timer(now).1,
    {
        let mut actions: Vec<RuntimeAction> = Vec::new();
        if self.dispatcher_hwnd == 0 {
            return actions;
        }
        actions.push(RuntimeAction::KillTimer { timer_id: REORDER_TIMER_ID });
        if self.reorder.on_timer(now) {
            actions.push(RuntimeAction::FlushReorder);
        }
        actions.push(RuntimeAction::ClearReorderPending);
        assert(actions@ =~= old(self)@.after_reorder_timer(now).1);
        actions
    }

    /// The handles of all registered windows, in an order of the registry's choosing.
    fn registered_handles(&self) -> (handles: Vec<isize>)
        requires
            self.wf(),
        ensures
            crate::keys::lists_keys(handles@, self.registry@.dom()),
    {
        let records = self.registry.records();
        let mut handles: Vec<isize> = Vec::new();
        for i in 0..records.len()
            invariant
                handles@.len() == i,
                forall|j: int| 0 <= j < i ==> #[trigger] handles@[j] == records@[j].tracking.hwnd,
        {
            handles.push(records[i].tracking.hwnd);
        }
        proof {
            let registry = self.registry@;
            assert forall|i: int, j: int| 0 <= i < handles@.len() && 0 <= j < handles@.len() && i
                != j implies handles@[i] != handles@[j] by {
                if i < j {
                    assert(records@[i].tracking.hwnd != records@[j].tracking.hwnd);
                } else {
                    assert(records@[j].tracking.hwnd != records@[i].tracking.hwnd);
                }
            }
            assert forall|key: isize| handles@.to_set().contains(key) == registry.dom().contains(
                key,
            ) by {
                if handles@.to_set().contains(key) {
                    let i = choose|i: int| 0 <= i < handles@.len() && handles@[i] == key;
                    assert(registry.contains_key(records@[i].tracking.hwnd));
                }
                if registry.dom().contains(key) {
                    assert(registry.contains_key(key));
                    assert(records@.contains(registry[key]));
                    let i = choose|i: int| 0 <= i < records@.len() && records@[i] == registry[key];
                    assert(handles@[i] == key);
                }
            }
            assert(handles@.to_set() =~= registry.dom());
        }
        handles
    }

    /// Brings every border that can be seen into its place in the window order. `visible` holds the
    /// border windows that can be seen.
    pub fn flush_reorder_borders(&self, visible: &HashSet<isize>) -> (actions: Vec<RuntimeAction>)
        requires
            self.wf(),
        ensures
            exists|keys: Seq<isize>|
                crate::keys::lists_keys(keys, self@.registry.dom()) && actions@
                    == #[trigger] self@.broadcast_calls(
                    (Broadcast::Reorder { visible: visible@ }),
                    keys,
                ),
    {
        let handles = self.registered_handles();
        let ghost broadcast = Broadcast::Reorder { visible: visible@ };
        let mut actions: Vec<RuntimeAction> = Vec::new();
        for i in 0..handles.len()
            invariant
                broadcast == (Broadcast::Reorder { visible: visible@ }),
                actions@ == self@.broadcast_calls(broadcast, handles@.take(i as int)),
        {
            let key: isize = handles[i];
            if let Some(border) = self.own_border(key) {
                if visible.contains(&border.border_window) {
                    actions.push(
                        RuntimeAction::Call {
                            border: border.border_window,
                            call: BorderCall::Reorder,
                        },
                    );
                }
            }
            assert(handles@.take(i + 1).drop_last() =~= handles@.take(i as int));
            assert(actions@ =~= self@.broadcast_calls(broadcast, handles@.take(i + 1)));
        }
        assert(handles@.take(handles@.len() as int) =~= handles@);
        actions
    }

    /// The border filed under `key`, if it belongs to the window registered there.
    fn own_border(&self, key: isize) -> (border: Option<WindowBorder>)
        ensures
            border == (if self@.registry.contains_key(key) && self@.borders.contains_key(key)
                && self@.borders[key].tracked_identity == Some(self@.registry[key].tracking) {
                Some(self@.borders[key])
            } else {
                None
            }),
    {
        match (self.registry.get_by_key(key), self.borders.get(&key)) {
            (Some(record), Some(border)) => match border.tracked_identity {
                Some(identity) => if identity == record.tracking {
                    Some(*border)
                } else {
                    None
                },
                None => None,
            },
            _ => None,
        }
    }

    /// Another window has come to the foreground.
    pub fn update_foreground(&mut self, new_active_hwnd: isize) -> (actions: Vec<RuntimeAction>)
        requires
            old(self).wf(),
        ensures
            final(self).wf(),
            final(self)@ == old(self)@.after_foreground(new_active_hwnd).0,
            actions@ == old(self)@.after_foreground(new_active_hwnd).1,
    {
        let mut actions: Vec<RuntimeAction> = Vec::new();
        if new_active_hwnd == 0 {
            return actions;
        }
        let old_active_hwnd: isize = self.active_window;
        if old_active_hwnd == new_active_hwnd {
            return actions;
        }
        self.active_window = new_active_hwnd;
        if old_active_hwnd != 0 {
            if let Some(border) = self.borders.get(&old_active_hwnd) {
                actions.push(
                    RuntimeAction::Call {
                        border: border.border_window,
                        call: BorderCall::ForegroundChange { is_active: false },
                    },
                );
            }
        }
        if let Some(border) = self.borders.get(&new_active_hwnd) {
            actions.push(
                RuntimeAction::Call {
                    border: border.border_window,
                    call: BorderCall::ForegroundChange { is_active: true },
                },
            );
        }
        assert(actions@ =~= old(self)@.after_foreground(new_active_hwnd).1);
        actions
    }

    /// The foreground window as the system names it when asked. Catches changes that no event told.
    pub fn reconcile_foreground(&mut self, new_active_hwnd: isize) -> (actions: Vec<RuntimeAction>)
        requires
            old(self).wf(),
        ensures
            final(self).wf(),
            final(self)@ == old(self)@.after_foreground(new_active_hwnd).0,
            actions@ == old(self)@.after_foreground(new_active_hwnd).1,
    {
        if new_active_hwnd != self.active_window && new_active_hwnd != 0 {
            self.update_foreground(new_active_hwnd)
        } else {
            Vec::new()
        }
    }

    fn recreate_drawers(&self) -> (actions: Vec<RuntimeAction>)
        requires
            self.wf(),
        ensures
            exists|keys: Seq<isize>|
                crate::keys::lists_keys(keys, self@.registry.dom()) && actions@
                    == #[trigger] self@.broadcast_calls(Broadcast::RecreateDrawer, keys),
    {
        let handles = self.registered_handles();
        let mut actions: Vec<RuntimeAction> = Vec::new();
        for i in 0..handles.len()
            invariant
                actions@ == self@.broadcast_calls(
                    Broadcast::RecreateDrawer,
                    handles@.take(i as int),
                ),
        {
            if let Some(border) = self.borders.get(&handles[i]) {
                actions.push(
                    RuntimeAction::Call {
                        border: border.border_window,
                        call: BorderCall::RecreateDrawer,
                    },
                );
            }
            assert(handles@.take(i + 1).drop_last() =~= handles@.take(i as int));
            assert(actions@ =~= self@.broadcast_calls(
                Broadcast::RecreateDrawer,
                handles@.take(i + 1),
            ));
        }
        assert(handles@.take(handles@.len() as int) =~= handles@);
        actions
    }

    /// Makes every border that is up, but for `exclude`, rebuild what it draws with.
    pub fn force_recreate_drawers(&self, exclude: Option<WindowIdentity>) -> (actions: Vec<
        RuntimeAction,
    >)
        requires
            self.wf(),
        ensures
            exists|keys: Seq<isize>|
                crate::keys::lists_keys(keys, self@.registry.dom()) && actions@
                    == #[trigger] self@.broadcast_calls(
                    (Broadcast::ForceRecreateDrawer { exclude }),
                    keys,
                ),
    {
        let handles = self.registered_handles();
        let ghost broadcast = Broadcast::ForceRecreateDrawer { exclude };
        let mut actions: Vec<RuntimeAction> = Vec::new();
        for i in 0..handles.len()
            invariant
                broadcast == (Broadcast::ForceRecreateDrawer { exclude }),
                actions@ == self@.broadcast_calls(broadcast, handles@.take(i as int)),
        {
            let key: isize = handles[i];
            if let Some(record) = self.registry.get_by_key(key) {
                let excluded = match exclude {
                    Some(identity) => identity == record.tracking,
                    None => false,
                };
                if record.state == BorderLifecycleState::Active && !excluded {
                    if let Some(border) = self.borders.get(&key) {
                        actions.push(
                            RuntimeAction::Call {
                                border: border.border_window,
                                call: BorderCall::ForceRecreateDrawer,
                            },
                        );
                    }
                }
            }
            assert(handles@.take(i + 1).drop_last() =~= handles@.take(i as int));
            assert(actions@ =~= self@.broadcast_calls(broadcast, handles@.take(i + 1)));
        }
        assert(handles@.take(handles@.len() as int) =~= handles@);
        actions
    }

    /// A graphics refresh starts with the shared devices.
    pub fn handle_graphics_refresh(&self) -> (actions: Vec<RuntimeAction>)
        ensures
            actions@ == seq![
                RuntimeAction::BeginGraphicsRefresh,
                RuntimeAction::SyncDevices(SyncPurpose::Refresh),
            ],
    {
        let mut actions: Vec<RuntimeAction> = Vec::new();
        actions.push(RuntimeAction::BeginGraphicsRefresh);
        actions.push(RuntimeAction::SyncDevices(SyncPurpose::Refresh));
        assert(actions@ =~= seq![
            RuntimeAction::BeginGraphicsRefresh,
            RuntimeAction::SyncDevices(SyncPurpose::Refresh),
        ]);
        actions
    }

    /// The shared devices have been brought in line with the configuration, or could not be.
    pub fn devices_synced(&self, purpose: SyncPurpose, succeeded: bool) -> (actions: Vec<
        RuntimeAction,
    >)
        requires
            self.wf(),
        ensures
            self@.follows_sync(purpose, succeeded, actions@),
            match (purpose, succeeded) {
                (SyncPurpose::Refresh, true) => exists|keys: Seq<isize>|
                    crate::keys::lists_keys(keys, self@.registry.dom()) && actions@
                        == #[trigger] self@.broadcast_calls(Broadcast::RecreateDrawer, keys)
                        + seq![RuntimeAction::FinishGraphicsRefresh],
                (SyncPurpose::Refresh, false) => actions@ == seq![
                    RuntimeAction::FinishGraphicsRefresh,
                ],
                (SyncPurpose::Reload, true) => actions@ == seq![
                    RuntimeAction::CollectWindows(CollectPurpose::Reload),
                ],
                (SyncPurpose::Reload, false) => actions@ == Seq::<RuntimeAction>::empty(),
            },
    {
        let mut actions: Vec<RuntimeAction> = Vec::new();
        match purpose {
            SyncPurpose::Refresh => {
                let ghost mut calls = Seq::<RuntimeAction>::empty();
                if succeeded {
                    actions = self.recreate_drawers();
                }
                proof {
                    calls = actions@;
                }
                actions.push(RuntimeAction::FinishGraphicsRefresh);
                assert(actions@ =~= calls + seq![RuntimeAction::FinishGraphicsRefresh]);
                assert(!succeeded ==> actions@ =~= seq![RuntimeAction::FinishGraphicsRefresh]);
            },
            SyncPurpose::Reload => {
                if succeeded {
                    actions.push(RuntimeAction::CollectWindows(CollectPurpose::Reload));
                    assert(actions@ =~= seq![
                        RuntimeAction::CollectWindows(CollectPurpose::Reload),
                    ]);
                }
            },
        }
        actions
    }

    /// Asks the borders of these windows for another look at their komorebi color.
    pub fn refresh_komorebi(&self, hwnds: &Vec<isize>) -> (actions: Vec<RuntimeAction>)
        ensures
            actions@ == self@.broadcast_calls(Broadcast::KomorebiRefresh, hwnds@),
    {
        let mut actions: Vec<RuntimeAction> = Vec::new();
        for i in 0..hwnds.len()
            invariant
                actions@ == self@.broadcast_calls(
                    Broadcast::KomorebiRefresh,
                    hwnds@.take(i as int),
                ),
        {
            if let Some(border) = self.own_border(hwnds[i]) {
                actions.push(
                    RuntimeAction::Call {
                        border: border.border_window,
                        call: BorderCall::KomorebiRefresh,
                    },
                );
            }
            assert(hwnds@.take(i + 1).drop_last() =~= hwnds@.take(i as int));
            assert(actions@ =~= self@.broadcast_calls(
                Broadcast::KomorebiRefresh,
                hwnds@.take(i + 1),
            ));
        }
        assert(hwnds@.take(hwnds@.len() as int) =~= hwnds@);
        actions
    }

    /// The windows whose border an update concerns: the active one alone, or all.
    pub fn border_update_targets(&self, focused_only: bool) -> (targets: Vec<isize>)
        requires
            self.wf(),
        ensures
            self@.concerns(focused_only, targets@),
            focused_only ==> targets@ == (if self@.registry.contains_key(self@.active_window) {
                seq![self@.active_window]
            } else {
                Seq::empty()
            }),
            !focused_only ==> crate::keys::lists_keys(targets@, self@.registry.dom()),
    {
        if focused_only {
            let mut targets: Vec<isize> = Vec::new();
            if let Some(record) = self.registry.get_by_key(self.active_window) {
                targets.push(record.tracking.hwnd);
            }
            assert(targets@ =~= (if self@.registry.contains_key(self@.active_window) {
                seq![self@.active_window]
            } else {
                Seq::empty()
            }));
            targets
        } else {
            self.registered_handles()
        }
    }

    /// Changes the appearance of the active window's border, or of all borders.
    pub fn apply_border_update(&self, update: BorderRuntimeUpdate, focused_only: bool) -> (actions:
        Vec<RuntimeAction>)
        requires
            self.wf(),
        ensures
            focused_only ==> actions@ == (if self@.registry.contains_key(self@.active_window) {
                self@.broadcast_call(Broadcast::Update(update), self@.active_window)
            } else {
                Seq::empty()
            }),
            !focused_only ==> exists|keys: Seq<isize>|
                crate::keys::lists_keys(keys, self@.registry.dom()) && actions@
                    == #[trigger] self@.broadcast_calls(Broadcast::Update(update), keys),
    {
        let targets = self.border_update_targets(focused_only);
        let ghost broadcast = Broadcast::Update(update);
        let mut actions: Vec<RuntimeAction> = Vec::new();
        for i in 0..targets.len()
            invariant
                broadcast == Broadcast::Update(update),
                actions@ == self@.broadcast_calls(broadcast, targets@.take(i as int)),
        {
            if let Some(border) = self.borders.get(&targets[i]) {
                actions.push(
                    RuntimeAction::Call {
                        border: border.border_window,
                        call: call_for_update(&update),
                    },
                );
            }
            assert(targets@.take(i + 1).drop_last() =~= targets@.take(i as int));
            assert(actions@ =~= self@.broadcast_calls(broadcast, targets@.take(i + 1)));
        }
        assert(targets@.take(targets@.len() as int) =~= targets@);
        proof {
            if focused_only && targets@.len() == 1 {
                reveal_with_fuel(RuntimeView::broadcast_calls, 2);
                assert(targets@.drop_last() =~= Seq::empty());
                assert(actions@ =~= self@.broadcast_call(broadcast, self@.active_window));
            }
        }
        actions
    }

    pub fn snapshot(&self) -> (snapshot: BorderRuntimeSnapshot)
        ensures
            snapshot == self@.snapshot(),
            snapshot.border_count == self@.registry.len(),
    {
        BorderRuntimeSnapshot {
            active_window: self.active_window,
            border_count: self.registry.len(),
        }
    }

    /// Sends a tick to every animated border and ends animations whose border is gone.
    pub fn tick_animations(&mut self) -> (actions: Vec<RuntimeAction>)
        requires
            old(self).wf(),
        ensures
            final(self).wf(),
            final(self)@ == old(self)@.after_tick().0,
            exists|keys: Seq<isize>|
                crate::keys::lists_keys(keys, old(self)@.animated.dom()) && actions@
                    == #[trigger] old(self)@.broadcast_calls(Broadcast::AnimationTick, keys) + old(
                    self,
                )@.after_tick().1,
    {
        let keys = keys_of(&self.animated);
        let mut actions: Vec<RuntimeAction> = Vec::new();
        let mut stale: Vec<WindowIdentity> = Vec::new();
        for i in 0..keys.len()
            invariant
                self@ == old(self)@,
                self.wf(),
                crate::keys::lists_keys(keys@, self@.animated.dom()),
                actions@ == self@.broadcast_calls(
                    Broadcast::AnimationTick,
                    keys@.take(i as int),
                ),
                forall|j: int|
                    #![trigger stale@[j]]
                    0 <= j < stale@.len() ==> {
                        &&& self@.animated.contains_key(stale@[j].hwnd)
                        &&& self@.animated[stale@[j].hwnd].identity == stale@[j]
                        &&& !self@.animates(stale@[j].hwnd)
                    },
                forall|j: int|
                    #![trigger keys@[j]]
                    0 <= j < i && !self@.animates(keys@[j]) ==> stale@.contains(
                        self@.animated[keys@[j]].identity,
                    ),
        {
            let ghost shorter = stale@;
            assert(self@.animated.contains_key(keys@[i as int])) by {
                assert(keys@.to_set().contains(keys@[i as int]));
            }
            if let Some(registration) = self.animated.get(&keys[i]) {
                let identity: WindowIdentity = registration.identity;
                let border: Option<&WindowBorder> = if self.tracks(identity) {
                    self.borders.get(&identity.hwnd)
                } else {
                    None
                };
                match border {
                    Some(border) => actions.push(
                        RuntimeAction::Call {
                            border: border.border_window,
                            call: BorderCall::AnimationTick,
                        },
                    ),
                    None => stale.push(identity),
                }
            }
            proof {
                assert(keys@.take(i + 1).drop_last() =~= keys@.take(i as int));
                assert(actions@ =~= self@.broadcast_calls(
                    Broadcast::AnimationTick,
                    keys@.take(i + 1),
                ));
                assert forall|j: int| #![trigger keys@[j]] 0 <= j < i + 1 && !self@.animates(
                    keys@[j],
                ) implies stale@.contains(self@.animated[keys@[j]].identity) by {
                    if j < i {
                        let identity = self@.animated[keys@[j]].identity;
                        let at = choose|at: int| 0 <= at < shorter.len() && shorter[at] == identity;
                        assert(stale@[at] == identity);
                    } else {
                        assert(stale@.last() == self@.animated[keys@[j]].identity);
                    }
                }
            }
        }
        assert(keys@.take(keys@.len() as int) =~= keys@);
        let ghost calls = actions@;
        if stale.len() > 0 {
            for i in 0..stale.len()
                invariant
                    self.wf(),
                    old(self).wf(),
                    self@ == (RuntimeView { animated: self@.animated, ..old(self)@ }),
                    self@.animated.dom().subset_of(old(self)@.animated.dom()),
                    forall|key: isize| #[trigger]
                        self@.animated.contains_key(key) ==> self@.animated[key]
                            == old(self)@.animated[key],
                    forall|key: isize|
                        old(self)@.animates(key) ==> #[trigger] self@.animated.contains_key(key),
                    forall|j: int|
                        #![trigger stale@[j]]
                        0 <= j < i ==> !self@.animated.contains_key(stale@[j].hwnd),
                    forall|j: int|
                        #![trigger stale@[j]]
                        0 <= j < stale@.len() ==> {
                            &&& old(self)@.animated.contains_key(stale@[j].hwnd)
                            &&& old(self)@.animated[stale@[j].hwnd].identity == stale@[j]
                            &&& !old(self)@.animates(stale@[j].hwnd)
                        },
            {
                self.remove_animation_registration(stale[i]);
            }
            proof {
                let before = old(self)@;
                assert forall|key: isize| self@.animated.contains_key(key) == before.animates(
                    key,
                ) by {
                    if self@.animated.contains_key(key) && !before.animates(key) {
                        assert(before.animated.dom().contains(key));
                        assert(keys@.to_set().contains(key));
                        let j = choose|j: int| 0 <= j < keys@.len() && keys@[j] == key;
                        assert(stale@.contains(before.animated[keys@[j]].identity));
                        let at = choose|at: int|
                            0 <= at < stale@.len() && stale@[at] == before.animated[key].identity;
                        assert(stale@[at].hwnd == key);
                    }
                }
                assert(self@.animated =~= before.live_animations());
                assert(before.animated.contains_key(stale@[0].hwnd));
                assert(before.live_animations() != before.animated) by {
                    assert(!before.live_animations().contains_key(stale@[0].hwnd));
                }
            }
            let mut timer = self.refresh_animation_timer();
            actions.append(&mut timer);
        } else {
            proof {
                let before = old(self)@;
                assert forall|key: isize| before.animated.contains_key(key) implies before.animates(
                    key,
                ) by {
                    assert(before.animated.dom().contains(key));
                    assert(keys@.to_set().contains(key));
                    let j = choose|j: int| 0 <= j < keys@.len() && keys@[j] == key;
                    if !before.animates(key) {
                        assert(stale@.contains(before.animated[keys@[j]].identity));
                    }
                }
                assert(before.live_animations() =~= before.animated);
            }
        }
        assert(actions@ =~= calls + old(self)@.after_tick().1);
        actions
    }

    /// Ends every border.
    pub fn destroy_all_borders(&mut self) -> (actions: Vec<RuntimeAction>)
        requires
            old(self).wf(),
        ensures
            final(self).wf(),
            exists|keys: Seq<isize>, strays: Seq<isize>| #[trigger]
                old(self)@.destroys_all(keys, strays, final(self)@, actions@),
    {
        let mut actions: Vec<RuntimeAction> = Vec::new();
        if self.dispatcher_hwnd != 0 {
            actions.push(RuntimeAction::KillTimer { timer_id: LOCATION_TIMER_ID });
        }
        self.location.reset();
        actions.push(RuntimeAction::ClearLocationGate);
        if self.dispatcher_hwnd != 0 {
            actions.push(RuntimeAction::KillTimer { timer_id: REORDER_TIMER_ID });
        }
        self.reorder.reset();
        actions.push(RuntimeAction::ClearReorderPending);
        let ghost prefix = actions@;
        let ghost start = self@;

        let handles = self.registered_handles();
        let identities = self.tracking_identities(&handles);
        let mut destroy = self.destroy_each(&identities);
        let ghost destroy_actions = destroy@;
        actions.append(&mut destroy);

        self.animated.clear();
        let mut timer = self.refresh_animation_timer();
        let ghost timer_actions = timer@;
        actions.append(&mut timer);

        let ghost timed = self@;
        let strays = keys_of(&self.borders);
        let mut drops = self.drops_of(&strays);
        let ghost drop_actions = drops@;
        actions.append(&mut drops);
        self.borders.clear();
        proof {
            let before = old(self)@;
            assert(identities@ =~= before.trackings(handles@));
            assert(start == (RuntimeView {
                location: crate::coalescing::LocationView::idle(),
                reorder: ReorderCoalescer::idle(),
                ..before
            }));
            assert(prefix =~= before.killed(LOCATION_TIMER_ID) + seq![
                RuntimeAction::ClearLocationGate,
            ] + before.killed(REORDER_TIMER_ID) + seq![RuntimeAction::ClearReorderPending]);
            assert(actions@ =~= prefix + destroy_actions + timer_actions + drop_actions);
            assert(self@ =~= RuntimeView { borders: Map::empty(), ..timed });
            assert(before.destroys_all(handles@, strays@, self@, actions@));
        }
        actions
    }

    fn tracking_identities(&self, handles: &Vec<isize>) -> (identities: Vec<WindowIdentity>)
        requires
            forall|i: int|
                0 <= i < handles@.len() ==> self@.registry.contains_key(#[trigger] handles@[i]),
        ensures
            identities@ == self@.trackings(handles@),
    {
        let mut identities: Vec<WindowIdentity> = Vec::new();
        for i in 0..handles.len()
            invariant
                forall|j: int|
                    0 <= j < handles@.len() ==> self@.registry.contains_key(#[trigger] handles@[j]),
                identities@ == self@.trackings(handles@.take(i as int)),
        {
            assert(self@.registry.contains_key(handles@[i as int]));
            if let Some(record) = self.registry.get_by_key(handles[i]) {
                identities.push(record.tracking);
            }
            assert(identities@ =~= self@.trackings(handles@.take(i + 1)));
        }
        assert(handles@.take(handles@.len() as int) =~= handles@);
        identities
    }

    fn drops_of(&self, keys: &Vec<isize>) -> (actions: Vec<RuntimeAction>)
        ensures
            actions@ == crate::runtime_model::dropped_each(self@.borders, keys@),
    {
        let mut actions: Vec<RuntimeAction> = Vec::new();
        for i in 0..keys.len()
            invariant
                actions@ == crate::runtime_model::dropped_each(
                    self@.borders,
                    keys@.take(i as int),
                ),
        {
            if let Some(border) = self.borders.get(&keys[i]) {
                actions.push(RuntimeAction::DropBorder { border: border.border_window });
            }
            assert(keys@.take(i + 1).drop_last() =~= keys@.take(i as int));
            assert(actions@ =~= crate::runtime_model::dropped_each(
                self@.borders,
                keys@.take(i + 1),
            ));
        }
        assert(keys@.take(keys@.len() as int) =~= keys@);
        actions
    }

    /// Brings registry and borders to agree with each other.
    pub fn reconcile_runtime_invariants(&mut self) -> (actions: Vec<RuntimeAction>)
        requires
            old(self).wf(),
        ensures
            final(self).wf(),
            exists|keys: Seq<isize>, orphans: Seq<isize>| #[trigger]
                old(self)@.reconciles(keys, orphans, final(self)@, actions@),
    {
        let handles = self.registered_handles();
        let diverged = self.diverged_identities(&handles);
        let mut actions = self.destroy_each(&diverged);
        let ghost destroy_actions = actions@;
        let ghost agreed = self@;

        let orphans = self.orphaned_handles();
        let mut drops = self.drops_of(&orphans);
        let ghost drop_actions = drops@;
        actions.append(&mut drops);
        let ghost stray = agreed.borders.dom().difference(agreed.registry.dom());
        for i in 0..orphans.len()
            invariant
                self.wf(),
                crate::keys::lists_keys(orphans@, stray),
                self@ == (RuntimeView {
                    animated: agreed.animated.remove_keys(orphans@.take(i as int).to_set()),
                    borders: agreed.borders.remove_keys(orphans@.take(i as int).to_set()),
                    ..agreed
                }),
        {
            self.animated.remove(&orphans[i]);
            self.borders.remove(&orphans[i]);
            proof {
                let shorter = orphans@.take(i as int);
                let longer = orphans@.take(i + 1);
                assert(longer =~= shorter.push(orphans@[i as int]));
                assert(longer.to_set() =~= shorter.to_set().insert(orphans@[i as int])) by {
                    assert forall|key: isize| longer.to_set().contains(key)
                        == shorter.to_set().insert(orphans@[i as int]).contains(key) by {
                        if shorter.contains(key) {
                            let k = choose|k: int| 0 <= k < shorter.len() && shorter[k] == key;
                            assert(longer[k] == key);
                        }
                        if longer.contains(key) {
                            let k = choose|k: int| 0 <= k < longer.len() && longer[k] == key;
                            if k < i {
                                assert(shorter[k] == key);
                            }
                        }
                        assert(longer[i as int] == orphans@[i as int]);
                    }
                }
                assert(self@.animated =~= agreed.animated.remove_keys(longer.to_set()));
                assert(self@.borders =~= agreed.borders.remove_keys(longer.to_set()));
            }
        }
        assert(orphans@.take(orphans@.len() as int) =~= orphans@);
        let mut timer = self.refresh_animation_timer();
        let ghost timer_actions = timer@;
        actions.append(&mut timer);
        proof {
            assert(actions@ =~= destroy_actions + drop_actions + timer_actions);
            assert(old(self)@.reconciles(handles@, orphans@, self@, actions@));
        }
        actions
    }

    fn diverged_identities(&self, handles: &Vec<isize>) -> (identities: Vec<WindowIdentity>)
        requires
            crate::keys::lists_keys(handles@, self@.registry.dom()),
        ensures
            identities@ == self@.diverged_trackings(handles@),
    {
        let mut identities: Vec<WindowIdentity> = Vec::new();
        for i in 0..handles.len()
            invariant
                crate::keys::lists_keys(handles@, self@.registry.dom()),
                identities@ == self@.diverged_trackings(handles@.take(i as int)),
        {
            let key: isize = handles[i];
            assert(self@.registry.dom().contains(key)) by {
                assert(handles@.to_set().contains(handles@[i as int]));
            }
            assert(handles@.take(i + 1).drop_last() =~= handles@.take(i as int));
            if self.own_border(key).is_none() {
                if let Some(record) = self.registry.get_by_key(key) {
                    identities.push(record.tracking);
                }
            }
        }
        assert(handles@.take(handles@.len() as int) =~= handles@);
        identities
    }

    /// The handles under which a border but no registered window is filed.
    fn orphaned_handles(&self) -> (orphans: Vec<isize>)
        ensures
            crate::keys::lists_keys(
                orphans@,
                self@.borders.dom().difference(self@.registry.dom()),
            ),
    {
        let keys = keys_of(&self.borders);
        let mut orphans: Vec<isize> = Vec::new();
        for i in 0..keys.len()
            invariant
                keys@.no_duplicates(),
                orphans@.no_duplicates(),
                forall|key: isize| #[trigger]
                    orphans@.contains(key) <==> keys@.take(i as int).contains(key)
                        && !self@.registry.contains_key(key),
        {
            let ghost before = orphans@;
            if !self.registry.contains(keys[i]) {
                assert(!orphans@.contains(keys@[i as int])) by {
                    if keys@.take(i as int).contains(keys@[i as int]) {
                        let k = choose|k: int|
                            0 <= k < i && keys@.take(i as int)[k] == keys@[i as int];
                        assert(keys@[k] == keys@[i as int]);
                    }
                }
                orphans.push(keys[i]);
            }
            proof {
                let shorter = keys@.take(i as int);
                let longer = keys@.take(i + 1);
                assert forall|key: isize| #[trigger] orphans@.contains(key) <==> longer.contains(key)
                    && !self@.registry.contains_key(key) by {
                    if shorter.contains(key) {
                        let k = choose|k: int| 0 <= k < shorter.len() && shorter[k] == key;
                        assert(longer[k] == key);
                    }
                    if longer.contains(key) {
                        let k = choose|k: int| 0 <= k < longer.len() && longer[k] == key;
                        if k < i {
                            assert(shorter[k] == key);
                        }
                    }
                    assert(longer[i as int] == keys@[i as int]);
                    if before.contains(key) {
                        let k = choose|k: int| 0 <= k < before.len() && before[k] == key;
                        assert(orphans@[k] == key);
                    }
                    if orphans@.contains(key) {
                        let k = choose|k: int| 0 <= k < orphans@.len() && orphans@[k] == key;
                        if k < before.len() {
                            assert(before[k] == key);
                        }
                    }
                    if !self@.registry.contains_key(keys@[i as int]) {
                        assert(orphans@.last() == keys@[i as int]);
                    }
                }
            }
        }
        assert(keys@.take(keys@.len() as int) =~= keys@);
        assert forall|key: isize| orphans@.to_set().contains(key)
            == self@.borders.dom().difference(self@.registry.dom()).contains(key) by {
            assert(keys@.to_set().contains(key) == self@.borders.dom().contains(key));
            assert(orphans@.contains(key) == (keys@.contains(key) && !self@.registry.contains_key(
                key,
            )));
        }
        assert(orphans@.to_set() =~= self@.borders.dom().difference(self@.registry.dom()));
        orphans
    }

    /// The first half of a periodic reconciliation: registry and borders are made to agree, then
    /// the windows of the desktop are wanted.
    pub fn reconcile_windows(&mut self) -> (actions: Vec<RuntimeAction>)
        requires
            old(self).wf(),
        ensures
            final(self).wf(),
            old(self)@.runs_timer(RECONCILE_TIMER_ID, 0, final(self)@, actions@),
    {
        let mut actions = self.reconcile_runtime_invariants();
        let ghost agree = actions@;
        actions.push(RuntimeAction::CollectWindows(CollectPurpose::Reconcile));
        proof {
            assert(actions@ =~= agree + seq![
                RuntimeAction::CollectWindows(CollectPurpose::Reconcile),
            ]);
            let (keys, orphans) = choose|keys: Seq<isize>, orphans: Seq<isize>| #[trigger]
                old(self)@.reconciles(keys, orphans, self@, agree);
            assert(old(self)@.reconciles(keys, orphans, self@, agree));
        }
        actions
    }

    /// The second half of a periodic reconciliation: the borders follow the windows. Borders go
    /// before others come, because a handle may have changed hands.
    pub fn apply_snapshot(&mut self, snapshot: &WindowSnapshot) -> (actions: Vec<RuntimeAction>)
        requires
            old(self).wf(),
            snapshot.wf(),
        ensures
            final(self).wf(),
            exists|destroy: Seq<WindowIdentity>, create: Seq<WindowIdentity>| #[trigger]
                old(self)@.follows_snapshot(
                    snapshot.present@,
                    snapshot.creatable@,
                    destroy,
                    create,
                    final(self)@,
                    actions@,
                ),
    {
        let current = self.registry.records();
        let plan = plan_reconciliation(&current, snapshot);
        proof {
            let registry = self@.registry;
            assert forall|w: WindowIdentity| #[trigger] crate::window_snapshot::is_recorded(
                current@,
                w,
            ) == self@.registered(w) by {
                if crate::window_snapshot::is_recorded(current@, w) {
                    let i = choose|i: int|
                        0 <= i < current@.len() && (#[trigger] current@[i]).tracking == w;
                    assert(registry[current@[i].tracking.hwnd] == current@[i]);
                }
                if self@.registered(w) {
                    assert(current@.contains(registry[w.hwnd]));
                    let i = choose|i: int|
                        0 <= i < current@.len() && current@[i] == registry[w.hwnd];
                    assert(current@[i].tracking == w);
                }
            }
        }
        let mut actions = self.destroy_each(&plan.destroy);
        let ghost destroy_actions = actions@;
        let mut creations = create_each(&plan.create);
        actions.append(&mut creations);
        assert(actions@ =~= destroy_actions + crate::runtime_model::creations(plan.create@));
        assert(old(self)@.follows_snapshot(
            snapshot.present@,
            snapshot.creatable@,
            plan.destroy@,
            plan.create@,
            self@,
            actions@,
        ));
        actions
    }

    /// The first half of a reload: every border goes before the shared devices change.
    pub fn reload_borders(&mut self) -> (actions: Vec<RuntimeAction>)
        requires
            old(self).wf(),
        ensures
            final(self).wf(),
            exists|keys: Seq<isize>, strays: Seq<isize>, destroy: Seq<RuntimeAction>| #[trigger]
                old(self)@.destroys_all(keys, strays, final(self)@, destroy) && actions@ == destroy
                    + seq![
                    RuntimeAction::ClearInitialWindows,
                    RuntimeAction::SyncDevices(SyncPurpose::Reload),
                ],
    {
        let mut actions = self.destroy_all_borders();
        let ghost destroy = actions@;
        actions.push(RuntimeAction::ClearInitialWindows);
        actions.push(RuntimeAction::SyncDevices(SyncPurpose::Reload));
        proof {
            assert(actions@ =~= destroy + seq![
                RuntimeAction::ClearInitialWindows,
                RuntimeAction::SyncDevices(SyncPurpose::Reload),
            ]);
            let (keys, strays) = choose|keys: Seq<isize>, strays: Seq<isize>| #[trigger]
                old(self)@.destroys_all(keys, strays, self@, destroy);
            assert(old(self)@.destroys_all(keys, strays, self@, destroy));
        }
        actions
    }

    pub fn start_maintenance_timers(&self) -> (actions: Vec<RuntimeAction>)
        ensures
            actions@ == Self::maintenance_timers(),
    {
        let mut actions: Vec<RuntimeAction> = Vec::new();
        actions.push(
            RuntimeAction::SetTimer {
                timer_id: FOREGROUND_POLL_TIMER_ID,
                interval_ms: FOREGROUND_POLL_INTERVAL_MS,
            },
        );
        actions.push(
            RuntimeAction::SetTimer {
                timer_id: RECONCILE_TIMER_ID,
                interval_ms: RECONCILE_INTERVAL_MS,
            },
        );
        assert(actions@ =~= Self::maintenance_timers());
        actions
    }

    pub open spec fn maintenance_timers() -> Seq<RuntimeAction> {
        seq![
            RuntimeAction::SetTimer {
                timer_id: FOREGROUND_POLL_TIMER_ID,
                interval_ms: FOREGROUND_POLL_INTERVAL_MS,
            },
            RuntimeAction::SetTimer {
                timer_id: RECONCILE_TIMER_ID,
                interval_ms: RECONCILE_INTERVAL_MS,
            },
        ]
    }

    pub fn stop_all_timers(&mut self) -> (actions: Vec<RuntimeAction>)
        requires
            old(self).wf(),
        ensures
            final(self).wf(),
            final(self)@ == old(self)@.stopped().0,
            actions@ == old(self)@.stopped().1,
    {
        let mut actions: Vec<RuntimeAction> = Vec::new();
        if self.dispatcher_hwnd == 0 {
            return actions;
        }
        actions.push(RuntimeAction::KillTimer { timer_id: LOCATION_TIMER_ID });
        actions.push(RuntimeAction::KillTimer { timer_id: REORDER_TIMER_ID });
        actions.push(RuntimeAction::KillTimer { timer_id: ANIMATION_TIMER_ID });
        actions.push(RuntimeAction::KillTimer { timer_id: FOREGROUND_POLL_TIMER_ID });
        actions.push(RuntimeAction::KillTimer { timer_id: RECONCILE_TIMER_ID });
        self.location.reset();
        actions.push(RuntimeAction::ClearLocationGate);
        actions.push(RuntimeAction::ResetGraphicsRefresh);
        self.reorder.reset();
        actions.push(RuntimeAction::ClearReorderPending);
        self.animation_timer_interval_ms = None;
        assert(actions@ =~= old(self)@.stopped().1);
        actions
    }

    /// Carries out a command. `live` is the window that the handle in the command names now.
    pub fn handle_command(
        &mut self,
        command: BorderRuntimeCommand,
        live: Option<WindowIdentity>,
        now: u64,
    ) -> (actions: Vec<RuntimeAction>)
        requires
            old(self).wf(),
        ensures
            final(self).wf(),
            old(self)@.carries_out(command, live, now, final(self)@, actions@),
    {
        match command {
            BorderRuntimeCommand::Create { identity } => self.create_border(identity, live),
            BorderRuntimeCommand::Destroy { identity } => self.destroy_border(identity),
            BorderRuntimeCommand::DestroyObserved { hwnd } => self.destroy_observed(hwnd, live),
            BorderRuntimeCommand::DestroyAll => self.destroy_all_borders(),
            BorderRuntimeCommand::MarkActive { identity } => {
                self.registry.set_state(identity, BorderLifecycleState::Active);
                Vec::new()
            },
            BorderRuntimeCommand::SetAnimation {
                identity,
                fps,
            } => self.set_animation_registration(identity, fps),
            BorderRuntimeCommand::WindowEvent { identity, event } => if event
                == BorderWindowEvent::LocationChange {
                self.handle_location_request(identity, now)
            } else {
                self.handle_window_event(identity, event, live)
            },
            BorderRuntimeCommand::Reorder => self.handle_reorder_request(now),
            BorderRuntimeCommand::Foreground { hwnd } => self.update_foreground(hwnd),
            BorderRuntimeCommand::RefreshGraphics => self.handle_graphics_refresh(),
            BorderRuntimeCommand::ForceRecreateDrawers { exclude } => self.force_recreate_drawers(
                exclude,
            ),
            BorderRuntimeCommand::ReloadBorders => self.reload_borders(),
            BorderRuntimeCommand::KomorebiRefresh { hwnds } => self.refresh_komorebi(&hwnds),
            BorderRuntimeCommand::ApplyUpdate {
                update,
                focused_only,
            } => self.apply_border_update(update, focused_only),
            BorderRuntimeCommand::Snapshot => {
                let mut actions: Vec<RuntimeAction> = Vec::new();
                actions.push(RuntimeAction::Reply(self.snapshot()));
                assert(actions@ =~= seq![RuntimeAction::Reply(old(self)@.snapshot())]);
                actions
            },
        }
    }

    /// A timer has run out.
    pub fn handle_timer(&mut self, timer_id: usize, now: u64) -> (actions: Vec<RuntimeAction>)
        requires
            old(self).wf(),
        ensures
            final(self).wf(),
            old(self)@.runs_timer(timer_id, now, final(self)@, actions@),
    {
        if timer_id == LOCATION_TIMER_ID {
            self.handle_location_timer(now)
        } else if timer_id == REORDER_TIMER_ID {
            self.handle_reorder_timer(now)
        } else if timer_id == ANIMATION_TIMER_ID {
            self.tick_animations()
        } else if timer_id == FOREGROUND_POLL_TIMER_ID {
            let mut actions: Vec<RuntimeAction> = Vec::new();
            actions.push(RuntimeAction::PollForeground);
            assert(actions@ =~= seq![RuntimeAction::PollForeground]);
            actions
        } else if timer_id == RECONCILE_TIMER_ID {
            self.reconcile_windows()
        } else {
            Vec::new()
        }
    }
}

fn create_each(identities: &Vec<WindowIdentity>) -> (actions: Vec<RuntimeAction>)
    ensures
        actions@ == crate::runtime_model::creations(identities@),
{
    let mut actions: Vec<RuntimeAction> = Vec::new();
    for i in 0..identities.len()
        invariant
            actions@ == crate::runtime_model::creations(identities@.take(i as int)),
    {
        actions.push(RuntimeAction::CreateBorder { identity: identities[i] });
        assert(actions@ =~= crate::runtime_model::creations(identities@.take(i + 1)));
    }
    assert(identities@.take(identities@.len() as int) =~= identities@);
    actions
}

/// What a reload goes on with once the windows of the desktop are known.
#[derive(Debug)]
pub struct ReloadPlan {
    /// The windows that are open from the start, in ascending order.
    pub initial_windows: Vec<isize>,
    pub actions: Vec<RuntimeAction>,
}

/// The second half of a reload: every window that calls for a border gets one, in ascending order.
pub fn finish_reload(snapshot: &WindowSnapshot) -> (plan: ReloadPlan)
    requires
        snapshot.wf(),
    ensures
        crate::runtime_model::reloads_with(
            snapshot.present@,
            snapshot.creatable@,
            plan.initial_windows@,
            plan.actions@,
        ),
        crate::sorted::ascending(plan.initial_windows@),
        forall|h: isize| #[trigger]
            plan.initial_windows@.contains(h) <==> snapshot.present@.contains_key(h),
        exists|create: Seq<WindowIdentity>|
            {
                &&& crate::sorted::ascending_identities(create)
                &&& forall|w: WindowIdentity| #[trigger]
                    create.contains(w) <==> crate::window_snapshot::is_present(
                        snapshot.present@,
                        w,
                    ) && snapshot.creatable@.contains(w.hwnd)
                &&& plan.actions@ == #[trigger] crate::runtime_model::creations(create)
            },
{
    let initial_windows = snapshot.initial_windows();
    let creatable = snapshot.creatable_windows();
    let actions = create_each(&creatable);
    ReloadPlan { initial_windows, actions }
}

/// While the runtime is up, it looks for the foreground window ten times a second and goes through
/// the windows once a second.
pub proof fn law_maintenance_runs_both_timers()
    ensures
        ({
            let timers = BorderRuntime::maintenance_timers();
            &&& timers.len() == 2
            &&& timers.contains(
                RuntimeAction::SetTimer { timer_id: FOREGROUND_POLL_TIMER_ID, interval_ms: 100 },
            )
            &&& timers.contains(
                RuntimeAction::SetTimer { timer_id: RECONCILE_TIMER_ID, interval_ms: 1000 },
            )
        }),
{
    let timers = BorderRuntime::maintenance_timers();
    assert(timers[0] == (RuntimeAction::SetTimer {
        timer_id: FOREGROUND_POLL_TIMER_ID,
        interval_ms: 100,
    }));
    assert(timers[1] == (RuntimeAction::SetTimer {
        timer_id: RECONCILE_TIMER_ID,
        interval_ms: 1000,
    }));
}

/// A runtime that has just come up knows no window, has no border, animates nothing, lets nothing
/// wait and has set no timer.
pub proof fn law_new_runtime_knows_nothing()
    ensures
        ({
            let view = BorderRuntime::empty_view();
            &&& view.registry.dom() == Set::<isize>::empty()
            &&& view.borders.dom() == Set::<isize>::empty()
            &&& view.animated.dom() == Set::<isize>::empty()
            &&& view.active_window == 0
            &&& view.dispatcher_hwnd == 0
            &&& !view.current_process_elevated
            &&& view.animation_timer_interval_ms is None
            &&& !view.reorder.pending && !view.reorder.timer_armed
            &&& !view.location.timer_armed
            &&& view.location.dirty == Set::<WindowIdentity>::empty()
        }),
{
}

} // verus!
