//! What holds of the border runtime as a whole.

use vstd::prelude::*;

use crate::border_registry::{BorderLifecycleState, WindowIdentity};
use crate::runtime_model::{
    AnimationRegistration, BorderRuntimeCommand, BorderWindowEvent, Broadcast, RuntimeAction,
    RuntimeView, WindowBorder, LOCATION_TIMER_ID, REORDER_TIMER_ID,
};
use crate::runtime_requests::{BorderRuntimeHandle, GatesView};

verus! {

impl RuntimeView {
    /// The animation timer runs at the pace of the fastest animation, and not at all without one.
    pub open spec fn timer_in_step(self) -> bool {
        self.dispatcher_hwnd != 0 ==> self.animation_timer_interval_ms
            == crate::runtime_model::desired_interval(self.animated)
    }

    /// Registry and borders know the same windows.
    pub open spec fn consistent(self) -> bool {
        &&& self.registry.dom() == self.borders.dom()
        &&& forall|key: isize| #[trigger]
            self.registry.contains_key(key) ==> self.borders[key].tracked_identity == Some(
                self.registry[key].tracking,
            )
    }

    /// Nothing but the animations and their timer differs.
    pub open spec fn same_but_animation(self, other: Self) -> bool {
        other == RuntimeView {
            animated: other.animated,
            animation_timer_interval_ms: other.animation_timer_interval_ms,
            ..self
        }
    }
}

/// Whether the end of every border that `before` has and `after` has not is among the actions.
pub open spec fn gone_are_dropped(
    before: Map<isize, WindowBorder>,
    after: Map<isize, WindowBorder>,
    actions: Seq<RuntimeAction>,
) -> bool {
    forall|key: isize| #[trigger]
        before.contains_key(key) && !after.contains_key(key) ==> actions.contains(
            RuntimeAction::DropBorder { border: before[key].border_window },
        )
}

proof fn lemma_contains_in_sum<A>(a: Seq<A>, b: Seq<A>, x: A)
    ensures
        (a + b).contains(x) <==> a.contains(x) || b.contains(x),
{
    if a.contains(x) {
        let i = choose|i: int| 0 <= i < a.len() && a[i] == x;
        assert((a + b)[i] == x);
    }
    if b.contains(x) {
        let i = choose|i: int| 0 <= i < b.len() && b[i] == x;
        assert((a + b)[a.len() + i] == x);
    }
    if (a + b).contains(x) {
        let i = choose|i: int| 0 <= i < (a + b).len() && (a + b)[i] == x;
        if i < a.len() {
            assert(a[i] == x);
        } else {
            assert(b[i - a.len()] == x);
        }
    }
}

proof fn lemma_retimed(view: RuntimeView)
    ensures
        view.same_but_animation(view.retimed().0),
        view.retimed().0.animated == view.animated,
        view.retimed().0.timer_in_step(),
        view.wf() ==> view.retimed().0.wf(),
{
}

/// What the end of a border leaves: its window is no longer registered, has no border and no
/// animation of its own, and nothing else has changed.
pub proof fn law_destroy_concerns_one_window(view: RuntimeView, identity: WindowIdentity)
    requires
        view.wf(),
    ensures
        ({
            let after = view.destroyed(identity).0;
            &&& after.wf()
            &&& !after.registered(identity)
            &&& view.registered(identity) ==> {
                &&& !after.registry.contains_key(identity.hwnd)
                &&& !after.borders.contains_key(identity.hwnd)
                &&& after.animated.contains_key(identity.hwnd)
                    ==> after.animated[identity.hwnd].identity != identity
            }
            &&& forall|key: isize|
                key != identity.hwnd ==> {
                    &&& after.registry.contains_key(key) == view.registry.contains_key(key)
                    &&& after.registry[key] == view.registry[key]
                    &&& after.borders.contains_key(key) == view.borders.contains_key(key)
                    &&& after.borders[key] == view.borders[key]
                    &&& after.animated.contains_key(key) == view.animated.contains_key(key)
                    &&& after.animated[key] == view.animated[key]
                }
        }),
{
    lemma_retimed(view.without_animation(identity));
}

/// A request to end the border of a window whose handle another window has taken over changes
/// nothing and asks for nothing.
pub proof fn law_stale_destroy_spares_reused_handle(
    view: RuntimeView,
    stale: WindowIdentity,
    current: WindowIdentity,
)
    requires
        stale.hwnd == current.hwnd,
        stale != current,
        view.registered(current),
    ensures
        view.destroyed(stale) == (view, Seq::<RuntimeAction>::empty()),
        view.marked_active(stale) == view,
{
}

/// A report that a window went away changes nothing while the registered window is still there.
pub proof fn law_late_destroy_report_spares_live_window(view: RuntimeView, hwnd: isize)
    requires
        view.registry.contains_key(hwnd),
    ensures
        view.after_observed_destroy(hwnd, Some(view.registry[hwnd].tracking)) == (
            view,
            Seq::<RuntimeAction>::empty(),
        ),
{
}

/// What waited in the queue for a window that is gone, or whose handle has changed hands, changes
/// nothing and asks for nothing.
pub proof fn law_stale_events_are_ignored(
    view: RuntimeView,
    identity: WindowIdentity,
    event: BorderWindowEvent,
    live: Option<WindowIdentity>,
)
    requires
        live != Some(identity),
    ensures
        view.after_window_event(identity, event, live) == (view, Seq::<RuntimeAction>::empty()),
        view.after_create(identity, live) == (view, Seq::<RuntimeAction>::empty()),
{
}

/// When a window shows up under a handle that another window had, the old border goes and one for
/// the new window is asked for.
pub proof fn law_reused_handle_gets_new_border(
    view: RuntimeView,
    old_window: WindowIdentity,
    new_window: WindowIdentity,
)
    requires
        view.wf(),
        old_window.hwnd == new_window.hwnd,
        old_window != new_window,
        view.registered(old_window),
    ensures
        ({
            let (after, actions) = view.after_window_event(
                new_window,
                BorderWindowEvent::ShowUncloaked,
                Some(new_window),
            );
            &&& !after.registry.contains_key(new_window.hwnd)
            &&& !after.borders.contains_key(new_window.hwnd)
            &&& gone_are_dropped(view.borders, after.borders, actions)
            &&& actions.last() == (RuntimeAction::CreateBorder { identity: new_window })
        }),
{
    law_destroy_concerns_one_window(view, old_window);
    lemma_destroyed(view, old_window);
    let (after, actions) = view.destroyed(old_window);
    let create = seq![RuntimeAction::CreateBorder { identity: new_window }];
    assert forall|key: isize| #[trigger] view.borders.contains_key(key) && !after.borders.contains_key(
        key,
    ) implies (actions + create).contains(
        RuntimeAction::DropBorder { border: view.borders[key].border_window },
    ) by {
        lemma_contains_in_sum(
            actions,
            create,
            RuntimeAction::DropBorder { border: view.borders[key].border_window },
        );
    }
}

/// Asking for a border that is there already does nothing.
pub proof fn law_create_is_idempotent(view: RuntimeView, identity: WindowIdentity, border: isize)
    requires
        view.wf(),
    ensures
        ({
            let created = view.after_register(identity, border).0;
            &&& created.registered(identity)
            &&& created.registry[identity.hwnd].state == BorderLifecycleState::Initializing
            &&& created.borders[identity.hwnd].border_window == border
            &&& created.after_create(identity, Some(identity)) == (
                created,
                Seq::<RuntimeAction>::empty(),
            )
        }),
{
}

/// A border that could not be initialized leaves no trace: what was filed under its handle before
/// is gone too, and everything else is as it was.
pub proof fn law_failed_initialization_leaves_no_trace(
    view: RuntimeView,
    identity: WindowIdentity,
    border: isize,
)
    requires
        view.wf(),
    ensures
        ({
            let created = view.after_register(identity, border).0;
            let (after, actions) = created.destroyed(identity);
            &&& after.registry == view.registry.remove(identity.hwnd)
            &&& after.borders == view.borders.remove(identity.hwnd)
            &&& actions.contains(RuntimeAction::DropBorder { border })
        }),
{
    let created = view.after_register(identity, border).0;
    let (after, actions) = created.destroyed(identity);
    lemma_retimed(created.without_animation(identity));
    lemma_destroyed(created, identity);
    assert(after.registry =~= view.registry.remove(identity.hwnd));
    assert(after.borders =~= view.borders.remove(identity.hwnd));
    assert(created.borders.contains_key(identity.hwnd) && !after.borders.contains_key(
        identity.hwnd,
    ));
}

proof fn lemma_destroyed(view: RuntimeView, identity: WindowIdentity)
    requires
        view.wf(),
    ensures
        ({
            let (after, actions) = view.destroyed(identity);
            &&& after.wf()
            &&& gone_are_dropped(view.borders, after.borders, actions)
            &&& view.timer_in_step() ==> after.timer_in_step()
            &&& after == RuntimeView {
                registry: after.registry,
                borders: after.borders,
                animated: after.animated,
                animation_timer_interval_ms: after.animation_timer_interval_ms,
                ..view
            }
            &&& after.animated.dom().subset_of(view.animated.dom())
            &&& view.consistent() ==> after.consistent()
        }),
{
    lemma_retimed(view.without_animation(identity));
    let (after, actions) = view.destroyed(identity);
    if view.registered(identity) {
        let (timed, timer) = view.without_animation(identity).retimed();
        let drop = crate::runtime_model::dropped(timed.borders, identity.hwnd);
        assert forall|key: isize| #[trigger] view.borders.contains_key(key)
            && !after.borders.contains_key(key) implies actions.contains(
            RuntimeAction::DropBorder { border: view.borders[key].border_window },
        ) by {
            let gone = RuntimeAction::DropBorder { border: view.borders[key].border_window };
            assert(drop[0] == gone);
            lemma_contains_in_sum(timer, drop, gone);
        }
        if view.consistent() {
            assert(after.registry.dom() =~= after.borders.dom());
        }
    }
}

/// Which windows are left once some have been ended.
pub(crate) proof fn lemma_destroyed_each(view: RuntimeView, identities: Seq<WindowIdentity>)
    requires
        view.wf(),
    ensures
        ({
            let (after, actions) = view.destroyed_each(identities);
            &&& after.wf()
            &&& forall|key: isize| #[trigger]
                after.registry.contains_key(key) <==> view.registry.contains_key(key)
                    && !identities.contains(view.registry[key].tracking)
            &&& forall|key: isize| #[trigger]
                after.registry.contains_key(key) ==> after.registry[key] == view.registry[key]
            &&& forall|key: isize| #[trigger]
                after.borders.contains_key(key) <==> view.borders.contains_key(key) && !(
                view.registry.contains_key(key) && identities.contains(view.registry[key].tracking))
            &&& forall|key: isize| #[trigger]
                after.borders.contains_key(key) ==> after.borders[key] == view.borders[key]
            &&& gone_are_dropped(view.borders, after.borders, actions)
            &&& view.timer_in_step() ==> after.timer_in_step()
            &&& view.consistent() ==> after.consistent()
            &&& after == RuntimeView {
                registry: after.registry,
                borders: after.borders,
                animated: after.animated,
                animation_timer_interval_ms: after.animation_timer_interval_ms,
                ..view
            }
            &&& after.animated.dom().subset_of(view.animated.dom())
        }),
    decreases identities.len(),
{
    if identities.len() > 0 {
        let shorter = identities.drop_last();
        let last = identities.last();
        lemma_destroyed_each(view, shorter);
        let (earlier, earlier_actions) = view.destroyed_each(shorter);
        lemma_destroyed(earlier, last);
        law_destroy_concerns_one_window(earlier, last);
        let (after, last_actions) = earlier.destroyed(last);
        assert forall|w: WindowIdentity| identities.contains(w) == (shorter.contains(w) || w
            == last) by {
            assert(identities =~= shorter + seq![last]);
            lemma_contains_in_sum(shorter, seq![last], w);
            if w == last {
                assert(seq![last][0] == w);
            }
        }
        assert forall|key: isize| #[trigger] view.borders.contains_key(key)
            && !after.borders.contains_key(key) implies (earlier_actions + last_actions).contains(
            RuntimeAction::DropBorder { border: view.borders[key].border_window },
        ) by {
            lemma_contains_in_sum(
                earlier_actions,
                last_actions,
                RuntimeAction::DropBorder { border: view.borders[key].border_window },
            );
            if earlier.borders.contains_key(key) {
                assert(earlier.borders[key] == view.borders[key]);
            }
        }
    }
}

proof fn lemma_dropped_each(borders: Map<isize, WindowBorder>, keys: Seq<isize>, key: isize)
    requires
        keys.contains(key),
        borders.contains_key(key),
    ensures
        crate::runtime_model::dropped_each(borders, keys).contains(
            RuntimeAction::DropBorder { border: borders[key].border_window },
        ),
    decreases keys.len(),
{
    let gone = RuntimeAction::DropBorder { border: borders[key].border_window };
    let earlier = crate::runtime_model::dropped_each(borders, keys.drop_last());
    let last = crate::runtime_model::dropped(borders, keys.last());
    lemma_contains_in_sum(earlier, last, gone);
    if keys.last() == key {
        assert(last[0] == gone);
    } else {
        let i = choose|i: int| 0 <= i < keys.len() && keys[i] == key;
        assert(keys.drop_last()[i] == key);
        lemma_dropped_each(borders, keys.drop_last(), key);
    }
}

/// Once all borders have been ended there is no registered window, no border and no animation left,
/// nothing waits for a timer, and every border window that there was has been ended.
pub proof fn law_destroy_all_leaves_nothing(
    before: RuntimeView,
    keys: Seq<isize>,
    strays: Seq<isize>,
    after: RuntimeView,
    actions: Seq<RuntimeAction>,
)
    requires
        before.wf(),
        before.destroys_all(keys, strays, after, actions),
    ensures
        after.wf(),
        after.registry == Map::<isize, crate::border_registry::BorderRecord>::empty(),
        after.borders == Map::<isize, WindowBorder>::empty(),
        after.animated == Map::<isize, AnimationRegistration>::empty(),
        after.snapshot().border_count == 0,
        after.reorder == crate::coalescing::ReorderCoalescer::idle(),
        after.location == crate::coalescing::LocationView::idle(),
        after.active_window == before.active_window,
        gone_are_dropped(before.borders, after.borders, actions),
        after.timer_in_step(),
        after.consistent(),
{
    let start = RuntimeView {
        location: crate::coalescing::LocationView::idle(),
        reorder: crate::coalescing::ReorderCoalescer::idle(),
        ..before
    };
    let trackings = before.trackings(keys);
    lemma_destroyed_each(start, trackings);
    let (emptied, destroy) = start.destroyed_each(trackings);
    let without = RuntimeView { animated: Map::empty(), ..emptied };
    lemma_retimed(without);
    let (timed, timer) = without.retimed();
    assert forall|key: isize| !emptied.registry.contains_key(key) by {
        if before.registry.contains_key(key) {
            assert(keys.to_set().contains(key));
            let i = choose|i: int| 0 <= i < keys.len() && keys[i] == key;
            assert(trackings[i] == before.registry[key].tracking);
        }
    }
    assert(after.registry =~= Map::empty());
    assert(after.registry.dom() =~= Set::empty());
    let drops = crate::runtime_model::dropped_each(timed.borders, strays);
    let prefix = before.killed(crate::runtime_model::LOCATION_TIMER_ID) + seq![
        RuntimeAction::ClearLocationGate,
    ] + before.killed(crate::runtime_model::REORDER_TIMER_ID) + seq![
        RuntimeAction::ClearReorderPending,
    ];
    assert forall|key: isize| #[trigger] before.borders.contains_key(key)
        && !after.borders.contains_key(key) implies actions.contains(
        RuntimeAction::DropBorder { border: before.borders[key].border_window },
    ) by {
        let gone = RuntimeAction::DropBorder { border: before.borders[key].border_window };
        lemma_contains_in_sum(prefix + destroy + timer, drops, gone);
        lemma_contains_in_sum(prefix + destroy, timer, gone);
        lemma_contains_in_sum(prefix, destroy, gone);
        if emptied.borders.contains_key(key) {
            assert(strays.to_set().contains(key));
            lemma_dropped_each(timed.borders, strays, key);
        }
    }
    assert(after.registry.dom() =~= after.borders.dom());
}

proof fn lemma_diverged_trackings(view: RuntimeView, keys: Seq<isize>, key: isize)
    requires
        crate::border_registry::keyed_by_handle(view.registry),
        view.registry.contains_key(key),
        forall|i: int| 0 <= i < keys.len() ==> view.registry.contains_key(#[trigger] keys[i]),
    ensures
        view.diverged_trackings(keys).contains(view.registry[key].tracking) <==> keys.contains(key)
            && view.diverged(key),
    decreases keys.len(),
{
    if keys.len() > 0 {
        let shorter = keys.drop_last();
        assert forall|i: int| 0 <= i < shorter.len() implies view.registry.contains_key(
            #[trigger] shorter[i],
        ) by {
            assert(shorter[i] == keys[i]);
        }
        lemma_diverged_trackings(view, shorter, key);
        assert(keys =~= shorter + seq![keys.last()]);
        lemma_contains_in_sum(shorter, seq![keys.last()], key);
        assert(seq![keys.last()].contains(key) == (keys.last() == key)) by {
            if keys.last() == key {
                assert(seq![keys.last()][0] == key);
            }
        }
        if view.diverged(keys.last()) {
            let earlier = view.diverged_trackings(shorter);
            let last = view.registry[keys.last()].tracking;
            assert(view.diverged_trackings(keys) =~= earlier + seq![last]);
            lemma_contains_in_sum(earlier, seq![last], view.registry[key].tracking);
            if keys.last() == key {
                assert(seq![last][0] == view.registry[key].tracking);
            }
            assert(view.registry.contains_key(keys[keys.len() - 1]));
        }
    }
}

/// Once registry and borders have been reconciled they know the same windows, the windows that they
/// agreed on before are still there, and every border window that had to go has been ended.
pub proof fn law_reconciliation_restores_agreement(
    before: RuntimeView,
    keys: Seq<isize>,
    orphans: Seq<isize>,
    after: RuntimeView,
    actions: Seq<RuntimeAction>,
)
    requires
        before.wf(),
        before.reconciles(keys, orphans, after, actions),
    ensures
        after.wf(),
        after.consistent(),
        forall|key: isize| #[trigger]
            after.registry.contains_key(key) <==> before.registry.contains_key(key)
                && !before.diverged(key),
        forall|key: isize| #[trigger]
            after.registry.contains_key(key) ==> after.registry[key] == before.registry[key],
        gone_are_dropped(before.borders, after.borders, actions),
        after.timer_in_step(),
{
    let diverged = before.diverged_trackings(keys);
    lemma_destroyed_each(before, diverged);
    let (agreed, destroy) = before.destroyed_each(diverged);
    let stray = agreed.borders.dom().difference(agreed.registry.dom());
    let trimmed = RuntimeView {
        animated: agreed.animated.remove_keys(stray),
        borders: agreed.borders.remove_keys(stray),
        ..agreed
    };
    assert(trimmed.animated.dom().finite()) by {
        vstd::set_lib::lemma_set_subset_finite(agreed.animated.dom(), trimmed.animated.dom());
    }
    assert(trimmed.borders.dom().finite()) by {
        vstd::set_lib::lemma_set_subset_finite(agreed.borders.dom(), trimmed.borders.dom());
    }
    lemma_retimed(trimmed);
    assert forall|i: int| 0 <= i < keys.len() implies before.registry.contains_key(
        #[trigger] keys[i],
    ) by {
        assert(keys.to_set().contains(keys[i]));
        assert(before.registry.dom().contains(keys[i]));
    }
    assert forall|key: isize| #[trigger] agreed.registry.contains_key(key) <==> before.registry.contains_key(
        key,
    ) && !before.diverged(key) by {
        if before.registry.contains_key(key) {
            lemma_diverged_trackings(before, keys, key);
            assert(before.registry.dom().contains(key));
            assert(keys.to_set().contains(key));
        }
    }
    assert forall|key: isize| agreed.registry.contains_key(key) implies #[trigger] agreed.borders.contains_key(
        key,
    ) by {
        assert(!before.diverged(key));
    }
    assert(trimmed.registry.dom() =~= trimmed.borders.dom()) by {
        assert forall|key: isize| trimmed.registry.dom().contains(key)
            == trimmed.borders.dom().contains(key) by {
            if agreed.registry.contains_key(key) {
                assert(agreed.borders.contains_key(key));
            }
        }
    }
    let (timed, timer) = trimmed.retimed();
    let drops = crate::runtime_model::dropped_each(agreed.borders, orphans);
    assert forall|key: isize| #[trigger] before.borders.contains_key(key)
        && !after.borders.contains_key(key) implies actions.contains(
        RuntimeAction::DropBorder { border: before.borders[key].border_window },
    ) by {
        let gone = RuntimeAction::DropBorder { border: before.borders[key].border_window };
        lemma_contains_in_sum(destroy + drops, timer, gone);
        lemma_contains_in_sum(destroy, drops, gone);
        if agreed.borders.contains_key(key) {
            assert(stray.contains(key));
            assert(orphans.to_set().contains(key));
            lemma_dropped_each(agreed.borders, orphans, key);
        }
    }
}

/// Once the runtime has followed a snapshot, every registered window is one of the snapshot, the
/// windows of the snapshot that had a border keep it even where they are hidden, and every window
/// that calls for a border has one or is about to get one.
pub proof fn law_borders_follow_the_windows(
    before: RuntimeView,
    present: Map<isize, WindowIdentity>,
    creatable: Set<isize>,
    destroy: Seq<WindowIdentity>,
    create: Seq<WindowIdentity>,
    after: RuntimeView,
    actions: Seq<RuntimeAction>,
    identity: WindowIdentity,
)
    requires
        before.wf(),
        before.follows_snapshot(present, creatable, destroy, create, after, actions),
    ensures
        after.wf(),
        after.registered(identity) <==> before.registered(identity)
            && crate::window_snapshot::is_present(present, identity),
        crate::window_snapshot::is_present(present, identity) && creatable.contains(identity.hwnd)
            ==> after.registered(identity) || actions.contains(
            RuntimeAction::CreateBorder { identity },
        ),
        gone_are_dropped(before.borders, after.borders, actions),
        before.consistent() ==> after.consistent(),
        before.timer_in_step() ==> after.timer_in_step(),
{
    lemma_destroyed_each(before, destroy);
    let destroy_actions = before.destroyed_each(destroy).1;
    let creations = crate::runtime_model::creations(create);
    assert(after.registered(identity) <==> before.registered(identity)
        && crate::window_snapshot::is_present(present, identity)) by {
        if before.registered(identity) {
            assert(destroy.contains(identity) <==> !crate::window_snapshot::is_present(
                present,
                identity,
            ));
            assert(before.registry.contains_key(identity.hwnd));
            assert(after.registry.contains_key(identity.hwnd) <==> !destroy.contains(identity));
        }
    }
    if crate::window_snapshot::is_present(present, identity) && creatable.contains(identity.hwnd)
        && !before.registered(identity) {
        assert(create.contains(identity));
        let i = choose|i: int| 0 <= i < create.len() && create[i] == identity;
        let wanted = RuntimeAction::CreateBorder { identity };
        assert(creations[i] == wanted);
        lemma_contains_in_sum(destroy_actions, creations, wanted);
    }
    assert forall|key: isize| #[trigger] before.borders.contains_key(key)
        && !after.borders.contains_key(key) implies actions.contains(
        RuntimeAction::DropBorder { border: before.borders[key].border_window },
    ) by {
        lemma_contains_in_sum(
            destroy_actions,
            creations,
            RuntimeAction::DropBorder { border: before.borders[key].border_window },
        );
    }
}

/// Whether what is kept up by everything the runtime does holds of a state.
pub open spec fn sound(view: RuntimeView) -> bool {
    view.wf() && view.consistent() && view.timer_in_step()
}

proof fn lemma_outcome_destroyed(view: RuntimeView, identity: WindowIdentity)
    requires
        sound(view),
    ensures
        sound(view.destroyed(identity).0),
{
    lemma_destroyed(view, identity);
}

/// Whatever is commanded, registry and borders go on knowing the same windows, and the animation
/// timer goes on at the pace of the animations.
pub proof fn law_commands_keep_runtime_sound(
    before: RuntimeView,
    command: BorderRuntimeCommand,
    live: Option<WindowIdentity>,
    now: u64,
    after: RuntimeView,
    actions: Seq<RuntimeAction>,
)
    requires
        sound(before),
        before.carries_out(command, live, now, after, actions),
    ensures
        sound(after),
{
    match command {
        BorderRuntimeCommand::Create { identity } => {
            if before.registry.contains_key(identity.hwnd) {
                lemma_outcome_destroyed(before, before.registry[identity.hwnd].tracking);
                assert(before.registry.dom().contains(identity.hwnd));
                assert(before.borders.dom().contains(identity.hwnd));
            }
        },
        BorderRuntimeCommand::Destroy { identity } => {
            lemma_outcome_destroyed(before, identity);
        },
        BorderRuntimeCommand::DestroyObserved { hwnd } => {
            if before.registry.contains_key(hwnd) {
                lemma_outcome_destroyed(before, before.registry[hwnd].tracking);
            }
        },
        BorderRuntimeCommand::DestroyAll => {
            let (keys, strays) = choose|keys: Seq<isize>, strays: Seq<isize>| #[trigger]
                before.destroys_all(keys, strays, after, actions);
            law_destroy_all_leaves_nothing(before, keys, strays, after, actions);
        },
        BorderRuntimeCommand::MarkActive { identity } => {
            assert(after.registry.dom() =~= before.registry.dom());
        },
        BorderRuntimeCommand::SetAnimation { identity, fps } => {
            lemma_retimed(before.without_animation(identity));
            if let Some(fps) = fps {
                lemma_retimed(
                    RuntimeView {
                        animated: before.animated.insert(
                            identity.hwnd,
                            AnimationRegistration {
                                identity,
                                fps: if fps == 0 {
                                    1
                                } else {
                                    fps
                                },
                            },
                        ),
                        ..before
                    },
                );
            }
        },
        BorderRuntimeCommand::WindowEvent { identity, event } => {
            if before.registry.contains_key(identity.hwnd) {
                lemma_outcome_destroyed(before, before.registry[identity.hwnd].tracking);
            }
        },
        BorderRuntimeCommand::ReloadBorders => {
            let (keys, strays, destroy) = choose|
                keys: Seq<isize>,
                strays: Seq<isize>,
                destroy: Seq<RuntimeAction>,
            |
                #[trigger] before.destroys_all(keys, strays, after, destroy) && actions == destroy
                    + seq![
                    RuntimeAction::ClearInitialWindows,
                    RuntimeAction::SyncDevices(crate::runtime_model::SyncPurpose::Reload),
                ];
            law_destroy_all_leaves_nothing(before, keys, strays, after, destroy);
        },
        _ => {},
    }
}

/// Whatever timer runs out, registry and borders go on knowing the same windows, and the animation
/// timer goes on at the pace of the animations.
pub proof fn law_timers_keep_runtime_sound(
    before: RuntimeView,
    timer_id: usize,
    now: u64,
    after: RuntimeView,
    actions: Seq<RuntimeAction>,
)
    requires
        sound(before),
        before.runs_timer(timer_id, now, after, actions),
    ensures
        sound(after),
{
    if timer_id == crate::runtime_model::ANIMATION_TIMER_ID {
        assert(before.live_animations().dom().finite()) by {
            vstd::set_lib::lemma_set_subset_finite(
                before.animated.dom(),
                before.live_animations().dom(),
            );
        }
        lemma_retimed(RuntimeView { animated: before.live_animations(), ..before });
    } else if timer_id == crate::runtime_model::RECONCILE_TIMER_ID {
        let (keys, orphans, agree) = choose|
            keys: Seq<isize>,
            orphans: Seq<isize>,
            agree: Seq<RuntimeAction>,
        |
            #[trigger] before.reconciles(keys, orphans, after, agree) && actions == agree + seq![
                RuntimeAction::CollectWindows(crate::runtime_model::CollectPurpose::Reconcile),
            ];
        law_reconciliation_restores_agreement(before, keys, orphans, after, agree);
    }
}

/// A new border is filed with the registry and with the borders alike.
pub proof fn law_registration_keeps_runtime_sound(
    before: RuntimeView,
    identity: WindowIdentity,
    border_window: isize,
)
    requires
        sound(before),
    ensures
        sound(before.after_register(identity, border_window).0),
{
    let after = before.after_register(identity, border_window).0;
    assert(after.registry.dom() =~= after.borders.dom());
}

/// Coming to the foreground once more changes nothing.
pub proof fn law_foreground_change_is_idempotent(view: RuntimeView, hwnd: isize)
    ensures
        ({
            let after = view.after_foreground(hwnd).0;
            &&& hwnd != 0 ==> after.active_window == hwnd
            &&& after.after_foreground(hwnd) == (after, Seq::<RuntimeAction>::empty())
        }),
{
}

/// Whether every call among the actions goes to a border window that the runtime has.
pub open spec fn calls_known_borders(
    borders: Map<isize, WindowBorder>,
    actions: Seq<RuntimeAction>,
) -> bool {
    forall|i: int|
        0 <= i < actions.len() ==> (#[trigger] actions[i] matches RuntimeAction::Call { border, .. }
            ==> exists|key: isize| #[trigger]
            borders.contains_key(key) && borders[key].border_window == border)
}

/// Whatever is broadcast, and in whatever order, it goes to border windows that the runtime has, and
/// there are no more calls than keys.
pub proof fn law_broadcasts_reach_known_borders(
    view: RuntimeView,
    broadcast: Broadcast,
    keys: Seq<isize>,
)
    requires
        view.wf(),
    ensures
        calls_known_borders(view.borders, view.broadcast_calls(broadcast, keys)),
        view.broadcast_calls(broadcast, keys).len() <= keys.len(),
    decreases keys.len(),
{
    if keys.len() > 0 {
        law_broadcasts_reach_known_borders(view, broadcast, keys.drop_last());
        let earlier = view.broadcast_calls(broadcast, keys.drop_last());
        let last = view.broadcast_call(broadcast, keys.last());
        let all = view.broadcast_calls(broadcast, keys);
        assert forall|i: int| 0 <= i < all.len() implies (#[trigger] all[i] matches RuntimeAction::Call {
            border,
            ..
        } ==> exists|key: isize| #[trigger]
            view.borders.contains_key(key) && view.borders[key].border_window == border) by {
            if i < earlier.len() {
                assert(all[i] == earlier[i]);
            } else {
                assert(all[i] == last[i - earlier.len()]);
                assert(view.borders.contains_key(keys.last()));
            }
        }
    }
}

/// A komorebi refresh or a reorder is never handed to the border of another window that merely
/// shares the handle.
pub proof fn law_refresh_skips_foreign_borders(view: RuntimeView, key: isize, visible: Set<isize>)
    requires
        view.registry.contains_key(key),
        view.diverged(key),
    ensures
        view.broadcast_call(Broadcast::KomorebiRefresh, key) == Seq::<RuntimeAction>::empty(),
        view.broadcast_call(Broadcast::Reorder { visible }, key) == Seq::<RuntimeAction>::empty(),
{
}

/// The gates once all actions of a list have been performed.
pub open spec fn gates_after(gates: GatesView, actions: Seq<RuntimeAction>) -> GatesView
    decreases actions.len(),
{
    if actions.len() == 0 {
        gates
    } else {
        gates_after(gates, actions.drop_last()).after_action(actions.last()).0
    }
}

/// Whether each gate that is closed is closed for a reason that will go away: what it holds back is
/// on its way to the runtime, or waits there for a timer that runs. `queued` are the windows with a
/// location change on its way, `reorder_queued` says whether a reorder is.
pub open spec fn gates_justified(
    gates: GatesView,
    view: RuntimeView,
    queued: Set<WindowIdentity>,
    reorder_queued: bool,
) -> bool {
    &&& forall|w: WindowIdentity| #[trigger]
        gates.location.contains(w) ==> queued.contains(w) || view.location.dirty.contains(w)
    &&& view.location.dirty != Set::<WindowIdentity>::empty() ==> view.location.timer_armed
    &&& gates.reorder_pending ==> reorder_queued || view.reorder.timer_armed
}

/// Actions close no gate, and those that open one do.
proof fn lemma_gates_after(gates: GatesView, actions: Seq<RuntimeAction>)
    ensures
        forall|w: WindowIdentity| #[trigger]
            gates_after(gates, actions).location.contains(w) ==> gates.location.contains(w)
                && !actions.contains(RuntimeAction::ReleaseLocation(w)) && !actions.contains(
                RuntimeAction::ClearLocationGate,
            ),
        gates_after(gates, actions).reorder_pending ==> gates.reorder_pending && !actions.contains(
            RuntimeAction::ClearReorderPending,
        ),
    decreases actions.len(),
{
    if actions.len() > 0 {
        let shorter = actions.drop_last();
        lemma_gates_after(gates, shorter);
        assert(actions =~= shorter.push(actions.last()));
        assert forall|action: RuntimeAction| #[trigger] actions.contains(action) implies shorter.contains(
            action,
        ) || action == actions.last() by {
            let i = choose|i: int| 0 <= i < actions.len() && actions[i] == action;
            if i < shorter.len() {
                assert(shorter[i] == action);
            }
        }
    }
}

/// Each window that moved is let through again.
proof fn lemma_flushes_release(moved: Seq<WindowIdentity>, w: WindowIdentity)
    requires
        moved.contains(w),
    ensures
        crate::runtime_model::location_flushes(moved).contains(RuntimeAction::ReleaseLocation(w)),
    decreases moved.len(),
{
    let shorter = moved.drop_last();
    let release = RuntimeAction::ReleaseLocation(w);
    let earlier = crate::runtime_model::location_flushes(shorter);
    let last = seq![
        RuntimeAction::ReleaseLocation(moved.last()),
        RuntimeAction::HandleWindowEvent {
            identity: moved.last(),
            event: BorderWindowEvent::LocationChange,
        },
    ];
    lemma_contains_in_sum(earlier, last, release);
    if moved.last() == w {
        assert(last[0] == release);
    } else {
        let i = choose|i: int| 0 <= i < moved.len() && moved[i] == w;
        assert(shorter[i] == w);
        lemma_flushes_release(shorter, w);
    }
}

proof fn lemma_destroyed_each_waits(view: RuntimeView, identities: Seq<WindowIdentity>)
    ensures
        view.destroyed_each(identities).0.location == view.location,
        view.destroyed_each(identities).0.reorder == view.reorder,
    decreases identities.len(),
{
    if identities.len() > 0 {
        lemma_destroyed_each_waits(view, identities.drop_last());
    }
}

proof fn lemma_destroys_all_opens(
    before: RuntimeView,
    keys: Seq<isize>,
    strays: Seq<isize>,
    after: RuntimeView,
    actions: Seq<RuntimeAction>,
    more: Seq<RuntimeAction>,
)
    requires
        before.destroys_all(keys, strays, after, actions),
    ensures
        after.location == crate::coalescing::LocationView::idle(),
        after.reorder == crate::coalescing::ReorderCoalescer::idle(),
        (actions + more).contains(RuntimeAction::ClearLocationGate),
        (actions + more).contains(RuntimeAction::ClearReorderPending),
{
    let start = RuntimeView {
        location: crate::coalescing::LocationView::idle(),
        reorder: crate::coalescing::ReorderCoalescer::idle(),
        ..before
    };
    lemma_destroyed_each_waits(start, before.trackings(keys));
    let first = before.killed(LOCATION_TIMER_ID).len() as int;
    let second = first + 1 + before.killed(REORDER_TIMER_ID).len();
    assert((actions + more)[first] == RuntimeAction::ClearLocationGate);
    assert((actions + more)[second] == RuntimeAction::ClearReorderPending);
}

/// A gate that closes does so for a command that is on its way.
pub proof fn law_gates_close_for_what_is_posted(
    gates: GatesView,
    view: RuntimeView,
    queued: Set<WindowIdentity>,
    reorder_queued: bool,
    handle: Option<BorderRuntimeHandle>,
    identity: WindowIdentity,
)
    requires
        gates_justified(gates, view, queued, reorder_queued),
    ensures
        ({
            let event = BorderWindowEvent::LocationChange;
            let (moved, posting) = gates.after_window_event(handle, Some(identity), event);
            gates_justified(
                moved,
                view,
                if posting is Some {
                    queued.insert(identity)
                } else {
                    queued
                },
                reorder_queued,
            )
        }),
        ({
            let (reordered, posting) = gates.after_reorder(handle);
            gates_justified(reordered, view, queued, reorder_queued || posting is Some)
        }),
{
}

/// Whatever command is carried out, a gate stays closed only for what is still on its way or waits
/// for a timer. What the command itself brought is on its way no longer.
pub proof fn law_commands_keep_gates_justified(
    gates: GatesView,
    queued: Set<WindowIdentity>,
    reorder_queued: bool,
    before: RuntimeView,
    command: BorderRuntimeCommand,
    live: Option<WindowIdentity>,
    now: u64,
    after: RuntimeView,
    actions: Seq<RuntimeAction>,
)
    requires
        gates_justified(gates, before, queued, reorder_queued),
        before.carries_out(command, live, now, after, actions),
    ensures
        gates_justified(
            gates_after(gates, actions),
            after,
            match command {
                BorderRuntimeCommand::WindowEvent {
                    identity,
                    event: BorderWindowEvent::LocationChange,
                } => queued.remove(identity),
                _ => queued,
            },
            reorder_queued && !(command is Reorder),
        ),
{
    lemma_gates_after(gates, actions);
    match command {
        BorderRuntimeCommand::DestroyAll => {
            let (keys, strays) = choose|keys: Seq<isize>, strays: Seq<isize>| #[trigger]
                before.destroys_all(keys, strays, after, actions);
            lemma_destroys_all_opens(before, keys, strays, after, actions, Seq::empty());
            assert(actions + Seq::empty() =~= actions);
        },
        BorderRuntimeCommand::ReloadBorders => {
            let (keys, strays, destroy) = choose|
                keys: Seq<isize>,
                strays: Seq<isize>,
                destroy: Seq<RuntimeAction>,
            |
                #[trigger] before.destroys_all(keys, strays, after, destroy) && actions == destroy
                    + seq![
                    RuntimeAction::ClearInitialWindows,
                    RuntimeAction::SyncDevices(crate::runtime_model::SyncPurpose::Reload),
                ];
            lemma_destroys_all_opens(
                before,
                keys,
                strays,
                after,
                destroy,
                seq![
                    RuntimeAction::ClearInitialWindows,
                    RuntimeAction::SyncDevices(crate::runtime_model::SyncPurpose::Reload),
                ],
            );
        },
        BorderRuntimeCommand::WindowEvent { identity, event } => {
            if event == BorderWindowEvent::LocationChange {
                let (location, action) = before.location.after_event(identity, now);
                match action {
                    crate::coalescing::LocationAction::FlushNow => {
                        assert(seq![identity][0] == identity);
                        lemma_flushes_release(seq![identity], identity);
                    },
                    crate::coalescing::LocationAction::ArmTimer(_) => {
                        if before.dispatcher_hwnd == 0 {
                            assert(actions[0] == RuntimeAction::ClearLocationGate);
                        }
                    },
                    crate::coalescing::LocationAction::Coalesced => {},
                }
            }
        },
        BorderRuntimeCommand::Reorder => {
            let (reorder, action) = before.reorder.after_event(now);
            match action {
                crate::coalescing::ReorderAction::FlushNow => {
                    assert(actions[1] == RuntimeAction::ClearReorderPending);
                },
                crate::coalescing::ReorderAction::ArmTimer(_) => {
                    if before.dispatcher_hwnd == 0 {
                        assert(actions[0] == RuntimeAction::ClearReorderPending);
                    }
                },
                crate::coalescing::ReorderAction::Coalesced => {},
            }
        },
        _ => {},
    }
}

/// Whatever timer runs out, a gate stays closed only for what is still on its way or waits for a
/// timer. After the location timer no gate of a window is closed but for what is on its way, and
/// after the reorder timer that of reorders is not either.
pub proof fn law_timers_keep_gates_justified(
    gates: GatesView,
    queued: Set<WindowIdentity>,
    reorder_queued: bool,
    before: RuntimeView,
    timer_id: usize,
    now: u64,
    after: RuntimeView,
    actions: Seq<RuntimeAction>,
)
    requires
        gates_justified(gates, before, queued, reorder_queued),
        before.runs_timer(timer_id, now, after, actions),
    ensures
        gates_justified(gates_after(gates, actions), after, queued, reorder_queued),
        timer_id == LOCATION_TIMER_ID ==> gates_after(gates, actions).location.subset_of(queued),
        timer_id == REORDER_TIMER_ID && before.dispatcher_hwnd != 0 ==> !gates_after(
            gates,
            actions,
        ).reorder_pending,
{
    lemma_gates_after(gates, actions);
    if timer_id == LOCATION_TIMER_ID {
        if before.dispatcher_hwnd == 0 {
            assert(actions[0] == RuntimeAction::ClearLocationGate);
        } else {
            let kill = seq![RuntimeAction::KillTimer { timer_id: LOCATION_TIMER_ID }];
            let moved = choose|moved: Seq<WindowIdentity>|
                crate::coalescing::lists_identities(moved, before.location.dirty) && actions == kill
                    + #[trigger] crate::runtime_model::location_flushes(moved);
            lemma_flushes_open(gates, kill, moved, before.location.dirty);
        }
    } else if timer_id == REORDER_TIMER_ID {
        if before.dispatcher_hwnd != 0 {
            assert(actions.last() == RuntimeAction::ClearReorderPending);
        }
    } else if timer_id == crate::runtime_model::RECONCILE_TIMER_ID {
        let (keys, orphans, agree) = choose|
            keys: Seq<isize>,
            orphans: Seq<isize>,
            agree: Seq<RuntimeAction>,
        |
            #[trigger] before.reconciles(keys, orphans, after, agree) && actions == agree + seq![
                RuntimeAction::CollectWindows(crate::runtime_model::CollectPurpose::Reconcile),
            ];
        lemma_destroyed_each_waits(before, before.diverged_trackings(keys));
    }
}

proof fn lemma_flushes_open(
    gates: GatesView,
    first: Seq<RuntimeAction>,
    moved: Seq<WindowIdentity>,
    dirty: Set<WindowIdentity>,
)
    requires
        crate::coalescing::lists_identities(moved, dirty),
    ensures
        forall|w: WindowIdentity| #[trigger]
            gates_after(
                gates,
                first + crate::runtime_model::location_flushes(moved),
            ).location.contains(w) ==> gates.location.contains(w) && !dirty.contains(w),
{
    let flushes = crate::runtime_model::location_flushes(moved);
    lemma_gates_after(gates, first + flushes);
    assert forall|w: WindowIdentity| dirty.contains(w) implies (#[trigger] (first
        + flushes).contains(RuntimeAction::ReleaseLocation(w))) by {
        assert(moved.to_set().contains(w));
        lemma_flushes_release(moved, w);
        lemma_contains_in_sum(first, flushes, RuntimeAction::ReleaseLocation(w));
    }
}

/// A timer that cannot be set holds nothing back: what would have waited for it is flushed, and its
/// gates open.
pub proof fn law_failed_timers_open_gates(
    gates: GatesView,
    queued: Set<WindowIdentity>,
    reorder_queued: bool,
    view: RuntimeView,
    moved: Seq<WindowIdentity>,
    now: u64,
)
    requires
        gates_justified(gates, view, queued, reorder_queued),
        crate::coalescing::lists_identities(moved, view.location.dirty),
    ensures
        gates_justified(
            gates_after(gates, crate::runtime_model::location_flushes(moved)),
            RuntimeView { location: view.location.after_timer(now), ..view },
            queued,
            reorder_queued,
        ),
        ({
            let flush = seq![RuntimeAction::FlushReorder, RuntimeAction::ClearReorderPending];
            &&& !gates_after(gates, flush).reorder_pending
            &&& gates_justified(
                gates_after(gates, flush),
                RuntimeView { reorder: crate::coalescing::ReorderCoalescer::idle(), ..view },
                queued,
                reorder_queued,
            )
        }),
{
    let flushes = crate::runtime_model::location_flushes(moved);
    lemma_flushes_open(gates, Seq::empty(), moved, view.location.dirty);
    assert(Seq::<RuntimeAction>::empty() + flushes =~= flushes);
    lemma_gates_after(gates, flushes);
    let flush = seq![RuntimeAction::FlushReorder, RuntimeAction::ClearReorderPending];
    lemma_gates_after(gates, flush);
    assert(flush[1] == RuntimeAction::ClearReorderPending);
}

/// What the runtime is asked to do between commands neither closes a gate nor takes away the reason
/// for a closed one.
pub proof fn law_follow_up_steps_keep_gates_justified(
    gates: GatesView,
    queued: Set<WindowIdentity>,
    reorder_queued: bool,
    view: RuntimeView,
    identity: WindowIdentity,
    event: BorderWindowEvent,
    live: Option<WindowIdentity>,
    border: isize,
    hwnd: isize,
    gone: Seq<WindowIdentity>,
    wanted: Seq<WindowIdentity>,
)
    requires
        gates_justified(gates, view, queued, reorder_queued),
    ensures
        ({
            let kept = |outcome: (RuntimeView, Seq<RuntimeAction>)|
                gates_justified(gates_after(gates, outcome.1), outcome.0, queued, reorder_queued);
            &&& kept(view.after_window_event(identity, event, live))
            &&& kept(view.after_create(identity, live))
            &&& kept(view.after_register(identity, border))
            &&& kept(view.destroyed(identity))
            &&& kept(view.after_foreground(hwnd))
            &&& kept(
                (
                    view.destroyed_each(gone).0,
                    view.destroyed_each(gone).1 + crate::runtime_model::creations(wanted),
                ),
            )
        }),
{
    lemma_gates_after(gates, view.after_window_event(identity, event, live).1);
    lemma_gates_after(gates, view.after_create(identity, live).1);
    lemma_gates_after(gates, view.after_register(identity, border).1);
    lemma_gates_after(gates, view.destroyed(identity).1);
    lemma_gates_after(gates, view.after_foreground(hwnd).1);
    lemma_gates_after(
        gates,
        view.destroyed_each(gone).1 + crate::runtime_model::creations(wanted),
    );
    lemma_destroyed_each_waits(view, gone);
}

/// A runtime that stops leaves no gate closed.
pub proof fn law_stop_opens_gates(gates: GatesView, view: RuntimeView)
    requires
        view.dispatcher_hwnd != 0,
    ensures
        gates_after(gates, view.stopped().1) == GatesView::open(),
{
    let actions = view.stopped().1;
    lemma_gates_after(gates, actions);
    assert(actions[5] == RuntimeAction::ClearLocationGate);
    assert(actions[7] == RuntimeAction::ClearReorderPending);
    assert(gates_after(gates, actions).location =~= Set::empty());
    reveal_with_fuel(gates_after, 9);
}

} // verus!
