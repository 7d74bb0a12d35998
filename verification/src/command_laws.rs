//! What each command and each timer of the border runtime comes to, told border by border.

use vstd::prelude::*;

use crate::border_registry::{BorderRecord, WindowIdentity};
use crate::runtime_model::{
    AnimationRegistration, BorderCall, BorderRuntimeCommand, BorderRuntimeUpdate,
    BorderWindowEvent, Broadcast, CollectPurpose, RuntimeAction, RuntimeView, SyncPurpose,
    WindowBorder, ANIMATION_TIMER_ID, FOREGROUND_POLL_TIMER_ID, LOCATION_TIMER_ID,
    RECONCILE_TIMER_ID, REORDER_TIMER_ID,
};

verus! {

/// Whether the actions hand `call` to the border of each of these windows, once to each, and do
/// nothing else.
pub open spec fn exactly_told(
    borders: Map<isize, WindowBorder>,
    windows: Set<isize>,
    call: BorderCall,
    actions: Seq<RuntimeAction>,
) -> bool {
    &&& windows.finite()
    &&& windows.subset_of(borders.dom())
    &&& actions.len() == windows.len()
    &&& forall|key: isize| #[trigger]
        windows.contains(key) ==> actions.contains(
            RuntimeAction::Call { border: borders[key].border_window, call },
        )
    &&& forall|i: int|
        0 <= i < actions.len() ==> exists|key: isize| #[trigger]
            windows.contains(key) && #[trigger] actions[i] == (RuntimeAction::Call {
                border: borders[key].border_window,
                call,
            })
}

proof fn lemma_told(
    view: RuntimeView,
    broadcast: Broadcast,
    keys: Seq<isize>,
    windows: Set<isize>,
    call: BorderCall,
)
    requires
        keys.no_duplicates(),
        windows.subset_of(view.borders.dom()),
        forall|key: isize| #[trigger] windows.contains(key) ==> keys.contains(key),
        forall|key: isize| #[trigger]
            keys.contains(key) ==> view.broadcast_call(broadcast, key) == (if windows.contains(key) {
                seq![RuntimeAction::Call { border: view.borders[key].border_window, call }]
            } else {
                Seq::empty()
            }),
    ensures
        exactly_told(view.borders, windows, call, view.broadcast_calls(broadcast, keys)),
    decreases keys.len(),
{
    let actions = view.broadcast_calls(broadcast, keys);
    if keys.len() == 0 {
        assert(windows =~= Set::empty()) by {
            assert forall|key: isize| !windows.contains(key) by {
                if windows.contains(key) {
                    assert(keys.contains(key));
                }
            }
        }
    } else {
        let shorter = keys.drop_last();
        let last = keys.last();
        let rest = windows.remove(last);
        assert(keys.contains(last)) by {
            assert(keys[keys.len() - 1] == last);
        }
        assert forall|key: isize| #[trigger] shorter.contains(key) <==> keys.contains(key) && key
            != last by {
            if shorter.contains(key) {
                let i = choose|i: int| 0 <= i < shorter.len() && shorter[i] == key;
                assert(keys[i] == key);
            }
            if keys.contains(key) && key != last {
                let i = choose|i: int| 0 <= i < keys.len() && keys[i] == key;
                assert(shorter[i] == key);
            }
        }
        assert forall|key: isize| #[trigger] shorter.contains(key) implies view.broadcast_call(
            broadcast,
            key,
        ) == (if rest.contains(key) {
            seq![RuntimeAction::Call { border: view.borders[key].border_window, call }]
        } else {
            Seq::empty()
        }) by {
            assert(keys.contains(key));
        }
        lemma_told(view, broadcast, shorter, rest, call);
        let earlier = view.broadcast_calls(broadcast, shorter);
        let told = RuntimeAction::Call { border: view.borders[last].border_window, call };
        if windows.contains(last) {
            assert(windows =~= rest.insert(last));
            assert(actions =~= earlier.push(told));
            assert forall|key: isize| #[trigger] windows.contains(key) implies actions.contains(
                RuntimeAction::Call { border: view.borders[key].border_window, call },
            ) by {
                let to_key = RuntimeAction::Call { border: view.borders[key].border_window, call };
                if key == last {
                    assert(actions[actions.len() - 1] == to_key);
                } else {
                    assert(rest.contains(key));
                    let i = choose|i: int| 0 <= i < earlier.len() && earlier[i] == to_key;
                    assert(actions[i] == to_key);
                }
            }
            assert forall|i: int| 0 <= i < actions.len() implies exists|key: isize| #[trigger]
                windows.contains(key) && #[trigger] actions[i] == (RuntimeAction::Call {
                    border: view.borders[key].border_window,
                    call,
                }) by {
                if i < earlier.len() {
                    let key = choose|key: isize| #[trigger]
                        rest.contains(key) && earlier[i] == (RuntimeAction::Call {
                            border: view.borders[key].border_window,
                            call,
                        });
                    assert(windows.contains(key));
                } else {
                    assert(windows.contains(last));
                }
            }
        } else {
            assert(windows =~= rest);
            assert(actions =~= earlier);
        }
    }
}

/// When another window comes to the foreground, its border is told that it is active, whatever was
/// active before; the border of the window that was active, if there is one, is told first that it
/// no longer is; and nobody else is told anything. Nothing happens where no window is in the
/// foreground or the same one as before.
pub proof fn law_foreground_change_tells_both_borders(
    view: RuntimeView,
    hwnd: isize,
    live: Option<WindowIdentity>,
    now: u64,
    after: RuntimeView,
    actions: Seq<RuntimeAction>,
)
    requires
        view.carries_out(BorderRuntimeCommand::Foreground { hwnd }, live, now, after, actions)
            || (after, actions) == view.after_foreground(hwnd),
    ensures
        hwnd == 0 || hwnd == view.active_window ==> after == view && actions.len() == 0,
        hwnd != 0 && hwnd != view.active_window ==> {
            let leaves = view.active_window != 0 && view.borders.contains_key(view.active_window);
            let comes = view.borders.contains_key(hwnd);
            let left = RuntimeAction::Call {
                border: view.borders[view.active_window].border_window,
                call: BorderCall::ForegroundChange { is_active: false },
            };
            let came = RuntimeAction::Call {
                border: view.borders[hwnd].border_window,
                call: BorderCall::ForegroundChange { is_active: true },
            };
            &&& after == RuntimeView { active_window: hwnd, ..view }
            &&& comes ==> actions.contains(came) && actions.last() == came
            &&& leaves ==> actions.contains(left) && actions[0] == left
            &&& forall|action: RuntimeAction| #[trigger]
                actions.contains(action) ==> comes && action == came || leaves && action == left
            &&& actions.len() == (if comes {
                1int
            } else {
                0
            }) + (if leaves {
                1int
            } else {
                0
            })
        },
{
    if hwnd != 0 && hwnd != view.active_window {
        let leaves = view.active_window != 0 && view.borders.contains_key(view.active_window);
        let comes = view.borders.contains_key(hwnd);
        let left = RuntimeAction::Call {
            border: view.borders[view.active_window].border_window,
            call: BorderCall::ForegroundChange { is_active: false },
        };
        let came = RuntimeAction::Call {
            border: view.borders[hwnd].border_window,
            call: BorderCall::ForegroundChange { is_active: true },
        };
        if leaves && comes {
            assert(actions =~= seq![left, came]);
            assert(actions[0] == left && actions[1] == came);
        } else if leaves {
            assert(actions =~= seq![left]);
            assert(actions[0] == left);
        } else if comes {
            assert(actions =~= seq![came]);
            assert(actions[0] == came);
        } else {
            assert(actions =~= Seq::empty());
        }
    }
}

/// The window that comes to the foreground is told the same whatever window was active before it,
/// with a border or without.
pub proof fn law_arrival_does_not_depend_on_departure(
    view: RuntimeView,
    hwnd: isize,
    other_active: isize,
)
    requires
        hwnd != 0,
        hwnd != view.active_window,
        hwnd != other_active,
        view.borders.contains_key(hwnd),
    ensures
        ({
            let other = RuntimeView { active_window: other_active, ..view };
            &&& view.after_foreground(hwnd).0 == other.after_foreground(hwnd).0
            &&& view.after_foreground(hwnd).1.len() > 0
            &&& other.after_foreground(hwnd).1.len() > 0
            &&& view.after_foreground(hwnd).1.last() == other.after_foreground(hwnd).1.last()
        }),
{
    let other = RuntimeView { active_window: other_active, ..view };
    let (after, actions) = view.after_foreground(hwnd);
    let (other_after, other_actions) = other.after_foreground(hwnd);
    law_foreground_change_tells_both_borders(view, hwnd, None, 0, after, actions);
    law_foreground_change_tells_both_borders(other, hwnd, None, 0, other_after, other_actions);
}

/// A change of appearance reaches each border that it concerns exactly as it was asked for: that of
/// the active window alone, or those of all registered windows. The runtime itself stays as it is.
pub proof fn law_updates_reach_borders_unchanged(
    view: RuntimeView,
    update: BorderRuntimeUpdate,
    focused_only: bool,
    live: Option<WindowIdentity>,
    now: u64,
    after: RuntimeView,
    actions: Seq<RuntimeAction>,
)
    requires
        view.carries_out(
            BorderRuntimeCommand::ApplyUpdate { update, focused_only },
            live,
            now,
            after,
            actions,
        ),
    ensures
        after == view,
        ({
            let concerned = Set::new(
                |key: isize|
                    view.registry.contains_key(key) && view.borders.contains_key(key) && (
                    focused_only ==> key == view.active_window),
            );
            match update {
                BorderRuntimeUpdate::Colors { active, inactive } => exactly_told(
                    view.borders,
                    concerned,
                    BorderCall::ApplyColors { active, inactive },
                    actions,
                ),
                BorderRuntimeUpdate::Width(width) => exactly_told(
                    view.borders,
                    concerned,
                    BorderCall::ApplyWidth(width),
                    actions,
                ),
                BorderRuntimeUpdate::Offset(offset) => exactly_told(
                    view.borders,
                    concerned,
                    BorderCall::ApplyOffset(offset),
                    actions,
                ),
                BorderRuntimeUpdate::Radius(radius) => exactly_told(
                    view.borders,
                    concerned,
                    BorderCall::ApplyRadius(radius),
                    actions,
                ),
            }
        }),
{
    let concerned = Set::new(
        |key: isize|
            view.registry.contains_key(key) && view.borders.contains_key(key) && (focused_only
                ==> key == view.active_window),
    );
    let broadcast = Broadcast::Update(update);
    let keys = if focused_only {
        if view.registry.contains_key(view.active_window) {
            seq![view.active_window]
        } else {
            Seq::empty()
        }
    } else {
        choose|keys: Seq<isize>|
            crate::keys::lists_keys(keys, view.registry.dom()) && actions
                == #[trigger] view.broadcast_calls(broadcast, keys)
    };
    assert(keys.no_duplicates());
    assert(actions == view.broadcast_calls(broadcast, keys)) by {
        reveal_with_fuel(RuntimeView::broadcast_calls, 2);
        if focused_only {
            assert(keys.len() > 0 ==> keys.drop_last() =~= Seq::empty());
            assert(actions =~= view.broadcast_calls(broadcast, keys));
        }
    }
    assert forall|key: isize| #[trigger] concerned.contains(key) implies keys.contains(key) by {
        if focused_only {
            assert(keys[0] == key);
        } else {
            assert(view.registry.dom().contains(key));
            assert(keys.to_set().contains(key));
        }
    }
    let call = match update {
        BorderRuntimeUpdate::Colors { active, inactive } => BorderCall::ApplyColors {
            active,
            inactive,
        },
        BorderRuntimeUpdate::Width(width) => BorderCall::ApplyWidth(width),
        BorderRuntimeUpdate::Offset(offset) => BorderCall::ApplyOffset(offset),
        BorderRuntimeUpdate::Radius(radius) => BorderCall::ApplyRadius(radius),
    };
    assert forall|key: isize| #[trigger] keys.contains(key) implies view.broadcast_call(
        broadcast,
        key,
    ) == (if concerned.contains(key) {
        seq![RuntimeAction::Call { border: view.borders[key].border_window, call }]
    } else {
        Seq::empty()
    }) by {
        if !focused_only {
            assert(keys.to_set().contains(key));
            assert(view.registry.dom().contains(key));
        }
    }
    lemma_told(view, broadcast, keys, concerned, call);
}

proof fn lemma_keys_listed(keys: Seq<isize>, map: Map<isize, BorderRecord>)
    requires
        crate::keys::lists_keys(keys, map.dom()),
    ensures
        forall|key: isize| #[trigger] keys.contains(key) <==> map.contains_key(key),
{
    assert forall|key: isize| #[trigger] keys.contains(key) <==> map.contains_key(key) by {
        assert(keys.to_set().contains(key) <==> keys.contains(key));
        assert(map.dom().contains(key) <==> map.contains_key(key));
    }
}

/// Drawers are rebuilt by force for exactly the borders that are up and running, other than that of
/// the window that is left out.
pub proof fn law_forced_rebuild_reaches_active_borders(
    view: RuntimeView,
    exclude: Option<WindowIdentity>,
    live: Option<WindowIdentity>,
    now: u64,
    after: RuntimeView,
    actions: Seq<RuntimeAction>,
)
    requires
        view.carries_out(
            BorderRuntimeCommand::ForceRecreateDrawers { exclude },
            live,
            now,
            after,
            actions,
        ),
    ensures
        after == view,
        exactly_told(
            view.borders,
            Set::new(
                |key: isize|
                    view.registry.contains_key(key) && view.borders.contains_key(key)
                        && view.registry[key].state is Active && exclude != Some(
                        view.registry[key].tracking,
                    ),
            ),
            BorderCall::ForceRecreateDrawer,
            actions,
        ),
{
    let concerned = Set::new(
        |key: isize|
            view.registry.contains_key(key) && view.borders.contains_key(key)
                && view.registry[key].state is Active && exclude != Some(
                view.registry[key].tracking,
            ),
    );
    let broadcast = Broadcast::ForceRecreateDrawer { exclude };
    let keys = choose|keys: Seq<isize>|
        crate::keys::lists_keys(keys, view.registry.dom()) && actions
            == #[trigger] view.broadcast_calls(broadcast, keys);
    lemma_keys_listed(keys, view.registry);
    lemma_told(view, broadcast, keys, concerned, BorderCall::ForceRecreateDrawer);
}

/// After a change of the shared devices each registered border rebuilds its drawer. A reorder goes
/// to each border that can be seen and still belongs to the registered window.
pub proof fn law_broadcasts_to_all_miss_nobody(
    view: RuntimeView,
    keys: Seq<isize>,
    visible: Set<isize>,
)
    requires
        crate::keys::lists_keys(keys, view.registry.dom()),
    ensures
        exactly_told(
            view.borders,
            view.registry.dom().intersect(view.borders.dom()),
            BorderCall::RecreateDrawer,
            view.broadcast_calls(Broadcast::RecreateDrawer, keys),
        ),
        exactly_told(
            view.borders,
            Set::new(
                |key: isize|
                    view.registry.contains_key(key) && view.borders.contains_key(key)
                        && view.borders[key].tracked_identity == Some(view.registry[key].tracking)
                        && visible.contains(view.borders[key].border_window),
            ),
            BorderCall::Reorder,
            view.broadcast_calls(Broadcast::Reorder { visible }, keys),
        ),
{
    lemma_keys_listed(keys, view.registry);
    lemma_told(
        view,
        Broadcast::RecreateDrawer,
        keys,
        view.registry.dom().intersect(view.borders.dom()),
        BorderCall::RecreateDrawer,
    );
    let seen = Set::new(
        |key: isize|
            view.registry.contains_key(key) && view.borders.contains_key(key)
                && view.borders[key].tracked_identity == Some(view.registry[key].tracking)
                && visible.contains(view.borders[key].border_window),
    );
    lemma_told(view, Broadcast::Reorder { visible }, keys, seen, BorderCall::Reorder);
}

/// A komorebi refresh goes to the borders of the windows that it names, where the border still
/// belongs to the registered window, and to no other.
pub proof fn law_komorebi_refresh_reaches_named_windows(
    view: RuntimeView,
    hwnds: Vec<isize>,
    live: Option<WindowIdentity>,
    now: u64,
    after: RuntimeView,
    actions: Seq<RuntimeAction>,
)
    requires
        view.carries_out(
            BorderRuntimeCommand::KomorebiRefresh { hwnds },
            live,
            now,
            after,
            actions,
        ),
        hwnds@.no_duplicates(),
    ensures
        after == view,
        exactly_told(
            view.borders,
            Set::new(
                |key: isize|
                    hwnds@.contains(key) && view.registry.contains_key(key)
                        && view.borders.contains_key(key) && view.borders[key].tracked_identity
                        == Some(view.registry[key].tracking),
            ),
            BorderCall::KomorebiRefresh,
            actions,
        ),
{
    let concerned = Set::new(
        |key: isize|
            hwnds@.contains(key) && view.registry.contains_key(key) && view.borders.contains_key(
                key,
            ) && view.borders[key].tracked_identity == Some(view.registry[key].tracking),
    );
    lemma_told(view, Broadcast::KomorebiRefresh, hwnds@, concerned, BorderCall::KomorebiRefresh);
}

/// What happens to a window that still is what it was reaches its border, and nothing else happens:
/// each kind of event as the call of the same kind.
pub proof fn law_window_events_reach_their_border(
    view: RuntimeView,
    identity: WindowIdentity,
    event: BorderWindowEvent,
)
    requires
        view.registry.contains_key(identity.hwnd),
        view.registry[identity.hwnd].tracking == identity,
        view.borders.contains_key(identity.hwnd),
    ensures
        ({
            let (after, actions) = view.after_window_event(identity, event, Some(identity));
            &&& after == view
            &&& actions.len() == 1
            &&& actions[0] matches RuntimeAction::Call { border, call } && {
                &&& border == view.borders[identity.hwnd].border_window
                &&& event is LocationChange <==> call is LocationChange
                &&& event is ShowUncloaked <==> call is ShowUncloaked
                &&& event is HideCloaked <==> call is HideCloaked
                &&& event is MinimizeStart <==> call is MinimizeStart
                &&& event is MinimizeEnd <==> call is MinimizeEnd
            }
        }),
{
}

/// Two kinds of event never lead to the same call.
pub proof fn law_window_events_are_told_apart(
    view: RuntimeView,
    identity: WindowIdentity,
    one: BorderWindowEvent,
    other: BorderWindowEvent,
)
    requires
        one != other,
        view.registered(identity),
        view.borders.contains_key(identity.hwnd),
    ensures
        view.after_window_event(identity, one, Some(identity)).1 != view.after_window_event(
            identity,
            other,
            Some(identity),
        ).1,
{
    assert(view.after_window_event(identity, one, Some(identity)).1[0]
        != view.after_window_event(identity, other, Some(identity)).1[0]);
}

/// A window without a border of its own gets one asked for when it shows up, and only then. What
/// another window left behind under its handle goes first.
pub proof fn law_only_showing_up_asks_for_a_border(
    view: RuntimeView,
    identity: WindowIdentity,
    event: BorderWindowEvent,
)
    requires
        !(view.registry.contains_key(identity.hwnd) && view.registry[identity.hwnd].tracking
            == identity && view.borders.contains_key(identity.hwnd)),
    ensures
        ({
            let (after, actions) = view.after_window_event(identity, event, Some(identity));
            &&& event is ShowUncloaked ==> actions.len() > 0 && actions.last() == (
            RuntimeAction::CreateBorder { identity })
            &&& event !is ShowUncloaked ==> forall|i: int|
                0 <= i < actions.len() ==> !(#[trigger] actions[i] is CreateBorder)
            &&& view.wf() ==> !after.registry.contains_key(identity.hwnd)
            &&& view.wf() && view.registry.contains_key(identity.hwnd)
                ==> !after.borders.contains_key(identity.hwnd)
            &&& !view.registry.contains_key(identity.hwnd) ==> after == view && actions.len() == (
            if event is ShowUncloaked {
                1int
            } else {
                0
            })
            &&& view.wf() ==> after.registry == view.registry.remove(identity.hwnd)
            &&& only_gone_are_dropped(view.borders, after.borders, actions)
            &&& crate::runtime_laws::gone_are_dropped(view.borders, after.borders, actions)
        }),
{
    let create = if event is ShowUncloaked {
        seq![RuntimeAction::CreateBorder { identity }]
    } else {
        Seq::empty()
    };
    if view.registry.contains_key(identity.hwnd) {
        lemma_replaced_border_is_dropped(view, view.registry[identity.hwnd].tracking, create);
    } else {
        assert(view.registry =~= view.registry.remove(identity.hwnd));
    }
    let (after, actions) = view.after_window_event(identity, event, Some(identity));
    if view.registry.contains_key(identity.hwnd) {
        let old_window = view.registry[identity.hwnd].tracking;
        let (timed, timer) = view.without_animation(old_window).retimed();
    }
    if event !is ShowUncloaked {
        assert forall|i: int| 0 <= i < actions.len() implies !(
        #[trigger] actions[i] is CreateBorder) by {}
    }
}

/// An event other than a move is dealt with at once, by the rules for window events.
pub proof fn law_events_are_handled_at_once(
    view: RuntimeView,
    identity: WindowIdentity,
    event: BorderWindowEvent,
    live: Option<WindowIdentity>,
    now: u64,
    after: RuntimeView,
    actions: Seq<RuntimeAction>,
)
    requires
        event !is LocationChange,
        view.carries_out(
            BorderRuntimeCommand::WindowEvent { identity, event },
            live,
            now,
            after,
            actions,
        ),
    ensures
        (after, actions) == view.after_window_event(identity, event, live),
        live != Some(identity) ==> after == view && actions.len() == 0,
{
}

/// A border is asked for wherever the window is still there and has none of its own: the assessment
/// of that very window comes last, and no registration under its handle is left. Where it has one,
/// nothing happens.
pub proof fn law_creation_goes_on_unless_there_is_a_border(
    view: RuntimeView,
    identity: WindowIdentity,
    live: Option<WindowIdentity>,
    now: u64,
    after: RuntimeView,
    actions: Seq<RuntimeAction>,
)
    requires
        view.wf(),
        view.carries_out(
            BorderRuntimeCommand::Create { identity },
            live,
            now,
            after,
            actions,
        ),
    ensures
        ({
            let there = view.registry.contains_key(identity.hwnd)
                && view.registry[identity.hwnd].tracking == identity && view.borders.contains_key(
                identity.hwnd,
            );
            let wanted = live == Some(identity) && !there;
            &&& !wanted ==> after == view && actions.len() == 0
            &&& wanted ==> actions.len() > 0 && actions.last() == (RuntimeAction::AssessBorder {
                identity,
            })
            &&& wanted ==> after.registry == view.registry.remove(identity.hwnd)
            &&& after.active_window == view.active_window
            &&& only_gone_are_dropped(view.borders, after.borders, actions)
            &&& crate::runtime_laws::gone_are_dropped(view.borders, after.borders, actions)
        }),
{
    assert(!view.registry.contains_key(identity.hwnd) ==> view.registry =~= view.registry.remove(
        identity.hwnd,
    ));
    if live == Some(identity) && view.registry.contains_key(identity.hwnd)
        && view.registry[identity.hwnd].tracking != identity {
        let old_window = view.registry[identity.hwnd].tracking;
        lemma_replaced_border_is_dropped(
            view,
            old_window,
            seq![RuntimeAction::AssessBorder { identity }],
        );
    }
}

proof fn lemma_replaced_border_is_dropped(
    view: RuntimeView,
    old_window: WindowIdentity,
    then: Seq<RuntimeAction>,
)
    requires
        forall|i: int| 0 <= i < then.len() ==> !(#[trigger] then[i] is DropBorder),
    ensures
        ({
            let (after, actions) = view.destroyed(old_window);
            &&& only_gone_are_dropped(view.borders, after.borders, actions + then)
            &&& crate::runtime_laws::gone_are_dropped(view.borders, after.borders, actions + then)
        }),
{
    let (after, actions) = view.destroyed(old_window);
    let all = actions + then;
    lemma_destroyed_drops_only_gone(view, old_window);
    assert forall|i: int| 0 <= i < all.len() && #[trigger] all[i] is DropBorder implies exists|
        key: isize,
    | #[trigger]
        view.borders.contains_key(key) && !after.borders.contains_key(key) && all[i] == (
        RuntimeAction::DropBorder { border: view.borders[key].border_window }) by {
        if i >= actions.len() {
            assert(all[i] == then[i - actions.len()]);
        }
        assert(all[i] == actions[i]);
        let key = choose|key: isize| #[trigger]
            view.borders.contains_key(key) && !after.borders.contains_key(key) && actions[i] == (
            RuntimeAction::DropBorder { border: view.borders[key].border_window });
        assert(view.borders.contains_key(key));
    }
    assert forall|key: isize| #[trigger] view.borders.contains_key(key)
        && !after.borders.contains_key(key) implies all.contains(
        RuntimeAction::DropBorder { border: view.borders[key].border_window },
    ) by {
        let gone = RuntimeAction::DropBorder { border: view.borders[key].border_window };
        assert(actions.last() == gone);
        assert(all[actions.len() - 1] == gone);
    }
}

/// The end of a border: registration, border and animation of exactly this window go, its border
/// window is ended last, and no other border window is. Where another window, or none, is registered
/// under the handle nothing happens.
pub proof fn law_destroy_ends_one_border(
    view: RuntimeView,
    identity: WindowIdentity,
    live: Option<WindowIdentity>,
    now: u64,
    after: RuntimeView,
    actions: Seq<RuntimeAction>,
)
    requires
        view.carries_out(BorderRuntimeCommand::Destroy { identity }, live, now, after, actions),
    ensures
        ({
            let there = view.registry.contains_key(identity.hwnd)
                && view.registry[identity.hwnd].tracking == identity;
            let ended = RuntimeAction::DropBorder {
                border: view.borders[identity.hwnd].border_window,
            };
            &&& !there ==> after == view && actions.len() == 0
            &&& there ==> {
                &&& after.registry == view.registry.remove(identity.hwnd)
                &&& after.borders == view.borders.remove(identity.hwnd)
                &&& view.borders.contains_key(identity.hwnd) ==> actions.len() > 0
                    && actions.last() == ended
                &&& forall|i: int|
                    0 <= i < actions.len() && #[trigger] actions[i] is DropBorder
                        ==> view.borders.contains_key(identity.hwnd) && actions[i] == ended
                &&& forall|key: isize|
                    after.animated.contains_key(key) <==> #[trigger] view.animated.contains_key(key)
                        && !(key == identity.hwnd && view.animated[key].identity == identity)
                &&& after.active_window == view.active_window
                &&& after.location == view.location
                &&& after.reorder == view.reorder
            }
        }),
{
}

/// A report that a window went away ends the border of the registered window, unless that very
/// window is still there.
pub proof fn law_observed_destroy_ends_the_registered_border(
    view: RuntimeView,
    hwnd: isize,
    live: Option<WindowIdentity>,
    now: u64,
    after: RuntimeView,
    actions: Seq<RuntimeAction>,
)
    requires
        view.wf(),
        view.carries_out(
            BorderRuntimeCommand::DestroyObserved { hwnd },
            live,
            now,
            after,
            actions,
        ),
    ensures
        ({
            let ends = view.registry.contains_key(hwnd) && live != Some(
                view.registry[hwnd].tracking,
            );
            &&& !ends ==> after == view && actions.len() == 0
            &&& ends ==> {
                &&& after.registry == view.registry.remove(hwnd)
                &&& after.borders == view.borders.remove(hwnd)
                &&& view.borders.contains_key(hwnd) ==> actions.len() > 0 && actions.last() == (
                RuntimeAction::DropBorder { border: view.borders[hwnd].border_window })
            }
        }),
{
}

/// A new border is registered for its own window, still on its way up, and told to start, with the
/// news whether its window is the active one. What was filed under the handle before goes first.
/// Everything filed under other handles stays.
pub proof fn law_registration_files_the_new_border(
    view: RuntimeView,
    identity: WindowIdentity,
    border_window: isize,
)
    ensures
        ({
            let (after, actions) = view.after_register(identity, border_window);
            &&& after.registry.contains_key(identity.hwnd)
            &&& after.registry[identity.hwnd].tracking == identity
            &&& after.registry[identity.hwnd].border_hwnd == border_window
            &&& after.registry[identity.hwnd].state is Initializing
            &&& after.borders.contains_key(identity.hwnd)
            &&& after.borders[identity.hwnd].border_window == border_window
            &&& after.borders[identity.hwnd].tracked_identity == Some(identity)
            &&& forall|key: isize|
                key != identity.hwnd ==> {
                    &&& after.registry.contains_key(key) == view.registry.contains_key(key)
                    &&& after.registry[key] == view.registry[key]
                    &&& after.borders.contains_key(key) == view.borders.contains_key(key)
                    &&& after.borders[key] == view.borders[key]
                }
            &&& after.animated == view.animated
            &&& after.active_window == view.active_window
            &&& actions.len() == (if view.borders.contains_key(identity.hwnd) {
                2int
            } else {
                1
            })
            &&& view.borders.contains_key(identity.hwnd) ==> actions[0] == (
            RuntimeAction::DropBorder { border: view.borders[identity.hwnd].border_window })
            &&& actions.last() == (RuntimeAction::InitBorder {
                identity,
                border: border_window,
                is_active: identity.hwnd == view.active_window,
            })
        }),
{
}

/// Marking a border as up and running changes the state of exactly that registration and asks for
/// nothing.
pub proof fn law_marking_active_concerns_one_record(
    view: RuntimeView,
    identity: WindowIdentity,
    live: Option<WindowIdentity>,
    now: u64,
    after: RuntimeView,
    actions: Seq<RuntimeAction>,
)
    requires
        view.carries_out(BorderRuntimeCommand::MarkActive { identity }, live, now, after, actions),
    ensures
        actions.len() == 0,
        after.registry.dom() == view.registry.dom(),
        after.borders == view.borders,
        after.animated == view.animated,
        after.active_window == view.active_window,
        forall|key: isize| #[trigger]
            view.registry.contains_key(key) ==> {
                let meant = key == identity.hwnd && view.registry[key].tracking == identity;
                &&& after.registry[key].tracking == view.registry[key].tracking
                &&& after.registry[key].border_hwnd == view.registry[key].border_hwnd
                &&& meant ==> after.registry[key].state is Active
                &&& !meant ==> after.registry[key].state == view.registry[key].state
            },
{
    assert(after.registry.dom() =~= view.registry.dom());
}

/// The state of the runtime as it is told to others: the active window, and how many windows are
/// registered.
pub proof fn law_snapshot_tells_the_state(
    view: RuntimeView,
    live: Option<WindowIdentity>,
    now: u64,
    after: RuntimeView,
    actions: Seq<RuntimeAction>,
)
    requires
        view.carries_out(BorderRuntimeCommand::Snapshot, live, now, after, actions),
        view.registry.len() <= usize::MAX,
    ensures
        after == view,
        actions.len() == 1,
        actions[0] matches RuntimeAction::Reply(told) && told.active_window == view.active_window
            && told.border_count == view.registry.dom().len(),
{
}

/// A graphics refresh begins before the shared devices are synced. A reload ends all borders,
/// forgets which windows were open from the start, and syncs the devices last.
pub proof fn law_refresh_and_reload_sync_devices(
    view: RuntimeView,
    live: Option<WindowIdentity>,
    now: u64,
    after: RuntimeView,
    actions: Seq<RuntimeAction>,
)
    ensures
        view.carries_out(BorderRuntimeCommand::RefreshGraphics, live, now, after, actions) ==> {
            &&& after == view
            &&& actions.len() == 2
            &&& actions[0] is BeginGraphicsRefresh
            &&& actions[1] == RuntimeAction::SyncDevices(SyncPurpose::Refresh)
        },
        view.carries_out(BorderRuntimeCommand::ReloadBorders, live, now, after, actions) ==> {
            &&& actions.len() >= 2
            &&& actions[actions.len() - 2] is ClearInitialWindows
            &&& actions.last() == RuntimeAction::SyncDevices(SyncPurpose::Reload)
            &&& view.carries_out(
                BorderRuntimeCommand::DestroyAll,
                live,
                now,
                after,
                actions.take(actions.len() - 2),
            )
        },
{
    if view.carries_out(BorderRuntimeCommand::ReloadBorders, live, now, after, actions) {
        let (keys, strays, destroy) = choose|
            keys: Seq<isize>,
            strays: Seq<isize>,
            destroy: Seq<RuntimeAction>,
        |
            #[trigger] view.destroys_all(keys, strays, after, destroy) && actions == destroy + seq![
                RuntimeAction::ClearInitialWindows,
                RuntimeAction::SyncDevices(SyncPurpose::Reload),
            ];
        assert(actions.take(actions.len() - 2) =~= destroy);
    }
}

/// An animation runs for a registered window with a border, at the frame rate that was asked for,
/// and at one frame per second at least. No other animation is touched.
pub proof fn law_animation_is_registered_as_asked(
    view: RuntimeView,
    identity: WindowIdentity,
    fps: u32,
    live: Option<WindowIdentity>,
    now: u64,
    after: RuntimeView,
    actions: Seq<RuntimeAction>,
)
    requires
        view.carries_out(
            BorderRuntimeCommand::SetAnimation { identity, fps: Some(fps) },
            live,
            now,
            after,
            actions,
        ),
    ensures
        ({
            let can = view.registry.contains_key(identity.hwnd)
                && view.registry[identity.hwnd].tracking == identity && view.borders.contains_key(
                identity.hwnd,
            );
            &&& !can ==> after == view && actions.len() == 0
            &&& can ==> {
                &&& after.animated.contains_key(identity.hwnd)
                &&& after.animated[identity.hwnd].identity == identity
                &&& fps > 0 ==> after.animated[identity.hwnd].fps == fps
                &&& fps == 0 ==> after.animated[identity.hwnd].fps == 1
                &&& after.animated.remove(identity.hwnd) == view.animated.remove(identity.hwnd)
                &&& after.registry == view.registry
                &&& after.borders == view.borders
            }
        }),
{
    assert(after.animated.remove(identity.hwnd) =~= view.animated.remove(identity.hwnd));
}

/// Ending an animation ends that of exactly this window. That of another window under the same
/// handle goes on.
pub proof fn law_animation_ends_for_its_window_only(
    view: RuntimeView,
    identity: WindowIdentity,
    live: Option<WindowIdentity>,
    now: u64,
    after: RuntimeView,
    actions: Seq<RuntimeAction>,
)
    requires
        view.carries_out(
            BorderRuntimeCommand::SetAnimation { identity, fps: None },
            live,
            now,
            after,
            actions,
        ),
    ensures
        after.registry == view.registry,
        after.borders == view.borders,
        forall|key: isize|
            after.animated.contains_key(key) <==> #[trigger] view.animated.contains_key(key) && !(key
                == identity.hwnd && view.animated[key].identity == identity),
        forall|key: isize| #[trigger]
            after.animated.contains_key(key) ==> after.animated[key] == view.animated[key],
{
}

/// A frame of the animation timer lasts ten milliseconds at least and a second at most, never longer
/// for a higher rate, and as long as the rate asks for in between, to the millisecond.
pub proof fn law_faster_animations_wait_no_longer(fps: u32, faster: u32)
    requires
        fps <= faster,
    ensures
        crate::runtime_model::interval_for(faster) <= crate::runtime_model::interval_for(fps),
        10 <= crate::runtime_model::interval_for(fps) <= 1000,
        1 <= fps <= 100 ==> crate::runtime_model::interval_for(fps) * fps <= 1000 < (
        crate::runtime_model::interval_for(fps) + 1) * fps,
        fps >= 100 ==> crate::runtime_model::interval_for(fps) == 10,
        crate::runtime_model::interval_for(0) == 1000,
{
    if fps > 0 {
        let quotient = 1000int / fps as int;
        assert(quotient * fps <= 1000 < (quotient + 1) * fps) by (nonlinear_arith)
            requires
                fps > 0,
                quotient == 1000int / fps as int,
        ;
        assert(1000int / faster as int <= quotient) by (nonlinear_arith)
            requires
                0 < fps <= faster,
                quotient == 1000int / fps as int,
        ;
        assert(fps >= 100 ==> quotient <= 10) by (nonlinear_arith)
            requires
                fps > 0,
                quotient == 1000int / fps as int,
        ;
        assert(fps <= 100 ==> quotient >= 10) by (nonlinear_arith)
            requires
                fps > 0,
                quotient == 1000int / fps as int,
        ;
        assert(quotient <= 1000) by (nonlinear_arith)
            requires
                fps > 0,
                quotient == 1000int / fps as int,
        ;
    } else if faster > 0 {
        assert(1000int / faster as int <= 1000) by (nonlinear_arith)
            requires
                faster > 0,
        ;
    }
}

proof fn lemma_fastest_exists(animated: Map<isize, AnimationRegistration>)
    requires
        animated.dom().finite(),
        animated.dom() != Set::<isize>::empty(),
    ensures
        exists|interval: u32| crate::runtime_model::is_fastest(animated, interval),
    decreases animated.dom().len(),
{
    assert(exists|key: isize| animated.contains_key(key)) by {
        if forall|key: isize| !animated.contains_key(key) {
            assert(animated.dom() =~= Set::empty());
        }
    }
    let key = choose|key: isize| animated.contains_key(key);
    let rest = animated.remove(key);
    let own = crate::runtime_model::interval_for(animated[key].fps);
    assert(animated.contains_key(key));
    if rest.dom() == Set::<isize>::empty() {
        assert forall|other: isize| #[trigger] animated.contains_key(other) implies other == key by {
            if other != key {
                assert(rest.dom().contains(other));
            }
        }
        assert(crate::runtime_model::is_fastest(animated, own));
    } else {
        lemma_fastest_exists(rest);
        let among = choose|interval: u32| crate::runtime_model::is_fastest(rest, interval);
        let best = if own <= among {
            own
        } else {
            among
        };
        let holder = choose|other: isize| #[trigger]
            rest.contains_key(other) && crate::runtime_model::interval_for(rest[other].fps)
                == among;
        assert(animated.contains_key(holder));
        assert forall|other: isize| #[trigger] animated.contains_key(other) implies best
            <= crate::runtime_model::interval_for(animated[other].fps) by {
            if other != key {
                assert(rest.contains_key(other));
            }
        }
        assert(crate::runtime_model::is_fastest(animated, best));
    }
}

/// The animation timer runs exactly while something is animated, often enough for each animation and
/// no more often than one of them needs.
pub proof fn law_timer_keeps_up_with_every_animation(animated: Map<isize, AnimationRegistration>)
    requires
        animated.dom().finite(),
    ensures
        crate::runtime_model::desired_interval(animated) is Some <==> exists|key: isize|
            animated.contains_key(key),
        forall|key: isize| #[trigger]
            animated.contains_key(key) ==> crate::runtime_model::desired_interval(animated)->0
                <= crate::runtime_model::interval_for(animated[key].fps),
        forall|key: isize| #[trigger]
            animated.contains_key(key) ==> crate::runtime_model::desired_interval(animated)->0 == 10
                || crate::runtime_model::desired_interval(animated)->0 * animated[key].fps <= 1000
                || animated[key].fps == 0,
        crate::runtime_model::desired_interval(animated) matches Some(interval) ==> exists|
            key: isize,
        |
            animated.contains_key(key) && crate::runtime_model::interval_for(animated[key].fps)
                == interval,
{
    if animated.dom() == Set::<isize>::empty() {
        assert(animated =~= Map::empty());
        assert forall|key: isize| !animated.contains_key(key) by {
            assert(animated.dom().contains(key) == animated.contains_key(key));
        }
    } else {
        lemma_fastest_exists(animated);
        assert(animated != Map::<isize, AnimationRegistration>::empty());
        let interval = crate::runtime_model::desired_interval(animated)->0;
        assert(crate::runtime_model::is_fastest(animated, interval));
        let holder = choose|key: isize| #[trigger]
            animated.contains_key(key) && crate::runtime_model::interval_for(animated[key].fps)
                == interval;
        assert(animated.contains_key(holder));
        assert forall|key: isize| #[trigger] animated.contains_key(key) implies interval == 10
            || interval * animated[key].fps <= 1000 || animated[key].fps == 0 by {
            let fps = animated[key].fps;
            let own = crate::runtime_model::interval_for(fps);
            law_faster_animations_wait_no_longer(fps, fps);
            law_faster_animations_wait_no_longer(animated[holder].fps, animated[holder].fps);
            if 1 <= fps <= 100 {
                assert(interval * fps <= own * fps) by (nonlinear_arith)
                    requires
                        interval <= own,
                ;
            }
        }
    }
}

/// Where the animation timer has to change, the old one is ended, if there is one, before the new
/// one is set, if one is needed. Where it fits nothing is touched.
pub proof fn law_timer_is_replaced_when_it_no_longer_fits(view: RuntimeView)
    ensures
        ({
            let (after, actions) = view.retimed();
            let desired = crate::runtime_model::desired_interval(view.animated);
            let running = view.animation_timer_interval_ms;
            let ended = RuntimeAction::KillTimer { timer_id: ANIMATION_TIMER_ID };
            &&& after == RuntimeView {
                animation_timer_interval_ms: after.animation_timer_interval_ms,
                ..view
            }
            &&& view.dispatcher_hwnd == 0 ==> after == view && actions.len() == 0
            &&& view.dispatcher_hwnd != 0 ==> {
                &&& after.animation_timer_interval_ms == desired
                &&& desired == running ==> actions.len() == 0
                &&& desired != running && running is Some ==> actions.len() > 0 && actions[0]
                    == ended
                &&& desired != running && desired is Some ==> actions.len() > 0 && actions.last()
                    == (RuntimeAction::SetTimer {
                    timer_id: ANIMATION_TIMER_ID,
                    interval_ms: desired->0,
                })
                &&& desired != running ==> actions.len() == (if running is Some {
                    1int
                } else {
                    0
                }) + (if desired is Some {
                    1int
                } else {
                    0
                })
            }
        }),
{
}

/// Whether no border window is ended but those of windows that `before` has a border for and `after`
/// has not.
pub open spec fn only_gone_are_dropped(
    before: Map<isize, WindowBorder>,
    after: Map<isize, WindowBorder>,
    actions: Seq<RuntimeAction>,
) -> bool {
    forall|i: int|
        0 <= i < actions.len() && #[trigger] actions[i] is DropBorder ==> exists|key: isize|
         #[trigger]
            before.contains_key(key) && !after.contains_key(key) && actions[i] == (
            RuntimeAction::DropBorder { border: before[key].border_window })
}

proof fn lemma_destroyed_drops_only_gone(view: RuntimeView, identity: WindowIdentity)
    ensures
        only_gone_are_dropped(
            view.borders,
            view.destroyed(identity).0.borders,
            view.destroyed(identity).1,
        ),
        view.destroyed(identity).0.borders.submap_of(view.borders),
{
    let (after, actions) = view.destroyed(identity);
    if view.registered(identity) {
        assert forall|i: int| 0 <= i < actions.len() && #[trigger] actions[i] is DropBorder implies exists|
            key: isize,
        | #[trigger]
            view.borders.contains_key(key) && !after.borders.contains_key(key) && actions[i] == (
            RuntimeAction::DropBorder { border: view.borders[key].border_window }) by {
            assert(view.borders.contains_key(identity.hwnd));
        }
    }
}

proof fn lemma_destroyed_each_drops_only_gone(view: RuntimeView, identities: Seq<WindowIdentity>)
    ensures
        only_gone_are_dropped(
            view.borders,
            view.destroyed_each(identities).0.borders,
            view.destroyed_each(identities).1,
        ),
        view.destroyed_each(identities).0.borders.submap_of(view.borders),
    decreases identities.len(),
{
    if identities.len() > 0 {
        let shorter = identities.drop_last();
        lemma_destroyed_each_drops_only_gone(view, shorter);
        let (earlier, earlier_actions) = view.destroyed_each(shorter);
        lemma_destroyed_drops_only_gone(earlier, identities.last());
        let (after, last_actions) = earlier.destroyed(identities.last());
        let actions = earlier_actions + last_actions;
        assert forall|key: isize| #[trigger] after.borders.dom().contains(
            key,
        ) implies view.borders.dom().contains(key) && view.borders[key] == after.borders[key] by {
            assert(earlier.borders.dom().contains(key));
        }
        assert forall|i: int| 0 <= i < actions.len() && #[trigger] actions[i] is DropBorder implies exists|
            key: isize,
        | #[trigger]
            view.borders.contains_key(key) && !after.borders.contains_key(key) && actions[i] == (
            RuntimeAction::DropBorder { border: view.borders[key].border_window }) by {
            if i < earlier_actions.len() {
                assert(actions[i] == earlier_actions[i]);
                let key = choose|key: isize| #[trigger]
                    view.borders.contains_key(key) && !earlier.borders.contains_key(key)
                        && earlier_actions[i] == (RuntimeAction::DropBorder {
                        border: view.borders[key].border_window,
                    });
                assert(view.borders.contains_key(key));
            } else {
                assert(actions[i] == last_actions[i - earlier_actions.len()]);
                let key = choose|key: isize| #[trigger]
                    earlier.borders.contains_key(key) && !after.borders.contains_key(key)
                        && last_actions[i - earlier_actions.len()] == (RuntimeAction::DropBorder {
                        border: earlier.borders[key].border_window,
                    });
                assert(view.borders.contains_key(key));
            }
        }
    }
}

proof fn lemma_dropped_each_of(borders: Map<isize, WindowBorder>, keys: Seq<isize>, i: int)
    requires
        0 <= i < crate::runtime_model::dropped_each(borders, keys).len(),
    ensures
        exists|key: isize| #[trigger]
            borders.contains_key(key) && keys.contains(key) && crate::runtime_model::dropped_each(
                borders,
                keys,
            )[i] == (RuntimeAction::DropBorder { border: borders[key].border_window }),
    decreases keys.len(),
{
    if keys.len() > 0 {
        let earlier = crate::runtime_model::dropped_each(borders, keys.drop_last());
        if i < earlier.len() {
            lemma_dropped_each_of(borders, keys.drop_last(), i);
            let key = choose|key: isize| #[trigger]
                borders.contains_key(key) && keys.drop_last().contains(key) && earlier[i] == (
                RuntimeAction::DropBorder { border: borders[key].border_window });
            let at = choose|at: int| 0 <= at < keys.drop_last().len() && keys.drop_last()[at] == key;
            assert(keys[at] == key);
            assert(borders.contains_key(key));
        } else {
            assert(keys[keys.len() - 1] == keys.last());
            assert(borders.contains_key(keys.last()));
        }
    }
}

/// Reconciling spares every border that belongs to the registered window: it stays, with its
/// registration, and is not ended. Every other registration and every other border goes.
pub proof fn law_reconciliation_spares_matching_borders(
    view: RuntimeView,
    now: u64,
    after: RuntimeView,
    actions: Seq<RuntimeAction>,
)
    requires
        view.wf(),
        view.runs_timer(RECONCILE_TIMER_ID, now, after, actions),
    ensures
        forall|key: isize|
            {
                let matching = view.registry.contains_key(key) && view.borders.contains_key(key)
                    && view.borders[key].tracked_identity == Some(view.registry[key].tracking);
                &&& #[trigger] after.registry.contains_key(key) <==> matching
                &&& after.borders.contains_key(key) <==> matching
                &&& matching ==> after.registry[key] == view.registry[key] && after.borders[key]
                    == view.borders[key]
            },
        only_gone_are_dropped(view.borders, after.borders, actions),
        crate::runtime_laws::gone_are_dropped(view.borders, after.borders, actions),
        actions.len() > 0,
        actions.last() == RuntimeAction::CollectWindows(CollectPurpose::Reconcile),
        after.active_window == view.active_window,
{
    let (keys, orphans, agree) = choose|
        keys: Seq<isize>,
        orphans: Seq<isize>,
        agree: Seq<RuntimeAction>,
    |
        #[trigger] view.reconciles(keys, orphans, after, agree) && actions == agree + seq![
            RuntimeAction::CollectWindows(CollectPurpose::Reconcile),
        ];
    crate::runtime_laws::law_reconciliation_restores_agreement(view, keys, orphans, after, agree);
    let trackings = view.diverged_trackings(keys);
    let (agreed, destroy) = view.destroyed_each(trackings);
    crate::runtime_laws::lemma_destroyed_each(view, trackings);
    lemma_destroyed_each_drops_only_gone(view, trackings);
    let drops = crate::runtime_model::dropped_each(agreed.borders, orphans);
    assert forall|key: isize| #[trigger] after.borders.contains_key(key)
        <==> after.registry.contains_key(key) by {
        assert(after.registry.dom().contains(key) <==> after.borders.dom().contains(key));
    }
    assert forall|i: int| 0 <= i < actions.len() && #[trigger] actions[i] is DropBorder implies exists|
        key: isize,
    | #[trigger]
        view.borders.contains_key(key) && !after.borders.contains_key(key) && actions[i] == (
        RuntimeAction::DropBorder { border: view.borders[key].border_window }) by {
        if i < destroy.len() {
            assert(actions[i] == destroy[i]);
            let key = choose|key: isize| #[trigger]
                view.borders.contains_key(key) && !agreed.borders.contains_key(key) && destroy[i]
                    == (RuntimeAction::DropBorder { border: view.borders[key].border_window });
            assert(view.borders.contains_key(key));
        } else if i < destroy.len() + drops.len() {
            assert(actions[i] == drops[i - destroy.len()]);
            lemma_dropped_each_of(agreed.borders, orphans, i - destroy.len());
            let key = choose|key: isize| #[trigger]
                agreed.borders.contains_key(key) && orphans.contains(key) && drops[i
                    - destroy.len()] == (RuntimeAction::DropBorder {
                    border: agreed.borders[key].border_window,
                });
            assert(orphans.to_set().contains(key));
            assert(agreed.borders.dom().difference(agreed.registry.dom()).contains(key));
            assert(view.borders.contains_key(key));
        }
    }
    assert forall|key: isize| #[trigger] view.borders.contains_key(key)
        && !after.borders.contains_key(key) implies actions.contains(
        RuntimeAction::DropBorder { border: view.borders[key].border_window },
    ) by {
        let gone = RuntimeAction::DropBorder { border: view.borders[key].border_window };
        let i = choose|i: int| 0 <= i < agree.len() && agree[i] == gone;
        assert(actions[i] == gone);
    }
}

/// After a look at the desktop exactly those registered windows keep their border that are still
/// there as the same window, no other border is ended, and a border is asked for exactly where a
/// window that calls for one has none.
pub proof fn law_snapshot_is_followed_to_the_letter(
    view: RuntimeView,
    present: Map<isize, WindowIdentity>,
    creatable: Set<isize>,
    destroy: Seq<WindowIdentity>,
    create: Seq<WindowIdentity>,
    after: RuntimeView,
    actions: Seq<RuntimeAction>,
    w: WindowIdentity,
)
    requires
        view.wf(),
        view.follows_snapshot(present, creatable, destroy, create, after, actions),
    ensures
        forall|key: isize| #[trigger]
            after.registry.contains_key(key) <==> view.registry.contains_key(key)
                && present.contains_key(key) && present[key] == view.registry[key].tracking,
        forall|key: isize| #[trigger]
            after.registry.contains_key(key) ==> after.registry[key] == view.registry[key],
        only_gone_are_dropped(view.borders, after.borders, actions),
        crate::runtime_laws::gone_are_dropped(view.borders, after.borders, actions),
        actions.contains(RuntimeAction::CreateBorder { identity: w }) <==> {
            &&& present.contains_key(w.hwnd)
            &&& present[w.hwnd] == w
            &&& creatable.contains(w.hwnd)
            &&& !(view.registry.contains_key(w.hwnd) && view.registry[w.hwnd].tracking == w)
        },
{
    crate::runtime_laws::lemma_destroyed_each(view, destroy);
    lemma_destroyed_each_drops_only_gone(view, destroy);
    let ended = view.destroyed_each(destroy).1;
    let created = crate::runtime_model::creations(create);
    assert(actions == ended + created);
    assert forall|key: isize| #[trigger] after.registry.contains_key(key)
        <==> view.registry.contains_key(key) && present.contains_key(key) && present[key]
        == view.registry[key].tracking by {
        if view.registry.contains_key(key) {
            let w = view.registry[key].tracking;
            assert(w.hwnd == key);
            assert(destroy.contains(w) <==> view.registered(w)
                && !crate::window_snapshot::is_present(present, w));
        }
    }
    assert forall|i: int| 0 <= i < actions.len() && #[trigger] actions[i] is DropBorder implies exists|
        key: isize,
    | #[trigger]
        view.borders.contains_key(key) && !after.borders.contains_key(key) && actions[i] == (
        RuntimeAction::DropBorder { border: view.borders[key].border_window }) by {
        if i >= ended.len() {
            assert(actions[i] == created[i - ended.len()]);
        }
        assert(actions[i] == ended[i]);
        let key = choose|key: isize| #[trigger]
            view.borders.contains_key(key) && !after.borders.contains_key(key) && ended[i] == (
            RuntimeAction::DropBorder { border: view.borders[key].border_window });
        assert(view.borders.contains_key(key));
    }
    assert forall|key: isize| #[trigger] view.borders.contains_key(key)
        && !after.borders.contains_key(key) implies actions.contains(
        RuntimeAction::DropBorder { border: view.borders[key].border_window },
    ) by {
        let gone = RuntimeAction::DropBorder { border: view.borders[key].border_window };
        let i = choose|i: int| 0 <= i < ended.len() && ended[i] == gone;
        assert(actions[i] == gone);
    }
    assert(actions.contains(RuntimeAction::CreateBorder { identity: w }) <==> create.contains(w)) by {
        let asked = RuntimeAction::CreateBorder { identity: w };
        if create.contains(w) {
            let i = choose|i: int| 0 <= i < create.len() && create[i] == w;
            assert(created[i] == asked);
            assert(actions[ended.len() + i] == asked);
        }
        if actions.contains(asked) {
            let i = choose|i: int| 0 <= i < actions.len() && actions[i] == asked;
            lemma_destroyed_each_asks_for_none(view, destroy);
            if i < ended.len() {
                assert(ended[i] == asked);
            }
            assert(created[i - ended.len()] == asked);
            assert(create[i - ended.len()] == w);
        }
    }
}

proof fn lemma_destroyed_each_asks_for_none(view: RuntimeView, identities: Seq<WindowIdentity>)
    ensures
        forall|i: int|
            0 <= i < view.destroyed_each(identities).1.len() ==> {
                let action = #[trigger] view.destroyed_each(identities).1[i];
                action is DropBorder || action is KillTimer || action is SetTimer
            },
    decreases identities.len(),
{
    if identities.len() > 0 {
        let shorter = identities.drop_last();
        lemma_destroyed_each_asks_for_none(view, shorter);
        let (earlier, earlier_actions) = view.destroyed_each(shorter);
        let (after, last_actions) = earlier.destroyed(identities.last());
        let actions = view.destroyed_each(identities).1;
        assert(actions == earlier_actions + last_actions);
        assert forall|i: int| 0 <= i < actions.len() implies {
            let action = #[trigger] actions[i];
            action is DropBorder || action is KillTimer || action is SetTimer
        } by {
            if i < earlier_actions.len() {
                assert(actions[i] == earlier_actions[i]);
            } else {
                assert(actions[i] == last_actions[i - earlier_actions.len()]);
            }
        }
    }
}

/// Ending all borders ends the border window of every border that there is, and nothing else is
/// ended. The timers for waiting moves and reorders stop first, and that of animations too.
pub proof fn law_destroy_all_stops_what_waits(
    view: RuntimeView,
    live: Option<WindowIdentity>,
    now: u64,
    after: RuntimeView,
    actions: Seq<RuntimeAction>,
)
    requires
        view.wf(),
        view.carries_out(BorderRuntimeCommand::DestroyAll, live, now, after, actions),
    ensures
        after.registry.dom() == Set::<isize>::empty(),
        after.borders.dom() == Set::<isize>::empty(),
        after.animated.dom() == Set::<isize>::empty(),
        after.active_window == view.active_window,
        after.dispatcher_hwnd == view.dispatcher_hwnd,
        crate::runtime_laws::gone_are_dropped(view.borders, after.borders, actions),
        only_gone_are_dropped(view.borders, after.borders, actions),
        view.dispatcher_hwnd != 0 ==> {
            &&& actions.len() >= 4
            &&& actions[0] == (RuntimeAction::KillTimer { timer_id: LOCATION_TIMER_ID })
            &&& actions[1] is ClearLocationGate
            &&& actions[2] == (RuntimeAction::KillTimer { timer_id: REORDER_TIMER_ID })
            &&& actions[3] is ClearReorderPending
            &&& after.animation_timer_interval_ms is None
        },
        view.dispatcher_hwnd == 0 ==> {
            &&& actions.len() >= 2
            &&& actions[0] is ClearLocationGate
            &&& actions[1] is ClearReorderPending
        },
        !after.location.timer_armed,
        !after.reorder.timer_armed,
        after.location.dirty == Set::<WindowIdentity>::empty(),
        !after.reorder.pending,
{
    let (keys, strays) = choose|keys: Seq<isize>, strays: Seq<isize>|
        #[trigger] view.destroys_all(keys, strays, after, actions);
    crate::runtime_laws::law_destroy_all_leaves_nothing(view, keys, strays, after, actions);
    let start = RuntimeView {
        location: crate::coalescing::LocationView::idle(),
        reorder: crate::coalescing::ReorderCoalescer::idle(),
        ..view
    };
    let trackings = view.trackings(keys);
    crate::runtime_laws::lemma_destroyed_each(start, trackings);
    lemma_destroyed_each_drops_only_gone(start, trackings);
    let (emptied, destroy) = start.destroyed_each(trackings);
    let (timed, timer) = RuntimeView { animated: Map::empty(), ..emptied }.retimed();
    let drops = crate::runtime_model::dropped_each(timed.borders, strays);
    let prefix = view.killed(LOCATION_TIMER_ID) + seq![RuntimeAction::ClearLocationGate]
        + view.killed(REORDER_TIMER_ID) + seq![RuntimeAction::ClearReorderPending];
    assert(actions == prefix + destroy + timer + drops);
    if view.dispatcher_hwnd != 0 {
        assert(actions[0] == prefix[0] && actions[1] == prefix[1] && actions[2] == prefix[2]
            && actions[3] == prefix[3]);
    } else {
        assert(actions[0] == prefix[0] && actions[1] == prefix[1]);
    }
    assert forall|i: int| 0 <= i < actions.len() && #[trigger] actions[i] is DropBorder implies exists|
        key: isize,
    | #[trigger]
        view.borders.contains_key(key) && !after.borders.contains_key(key) && actions[i] == (
        RuntimeAction::DropBorder { border: view.borders[key].border_window }) by {
        let from_destroy = i - prefix.len();
        let from_drops = i - prefix.len() - destroy.len() - timer.len();
        if i < prefix.len() {
            assert(actions[i] == prefix[i]);
        } else if from_destroy < destroy.len() {
            assert(actions[i] == destroy[from_destroy]);
            let key = choose|key: isize| #[trigger]
                start.borders.contains_key(key) && !emptied.borders.contains_key(key)
                    && destroy[from_destroy] == (RuntimeAction::DropBorder {
                    border: start.borders[key].border_window,
                });
            assert(view.borders.contains_key(key));
        } else if from_drops < 0 {
            assert(actions[i] == timer[i - prefix.len() - destroy.len()]);
        } else {
            assert(actions[i] == drops[from_drops]);
            lemma_dropped_each_of(timed.borders, strays, from_drops);
            let key = choose|key: isize| #[trigger]
                timed.borders.contains_key(key) && strays.contains(key) && drops[from_drops] == (
                RuntimeAction::DropBorder { border: timed.borders[key].border_window });
            assert(emptied.borders.contains_key(key));
            assert(view.borders.contains_key(key));
        }
    }
}

/// A runtime that stops ends each of its timers, opens every gate, and lets nothing wait. One that
/// has no window that timers belong to has nothing to end.
pub proof fn law_stop_ends_every_timer(view: RuntimeView)
    ensures
        view.dispatcher_hwnd == 0 ==> view.stopped().0 == view && view.stopped().1.len() == 0,
        view.dispatcher_hwnd != 0 ==> ({
            let (after, actions) = view.stopped();
            &&& actions.contains(RuntimeAction::KillTimer { timer_id: ANIMATION_TIMER_ID })
            &&& actions.contains(RuntimeAction::KillTimer { timer_id: FOREGROUND_POLL_TIMER_ID })
            &&& actions.contains(RuntimeAction::KillTimer { timer_id: RECONCILE_TIMER_ID })
            &&& actions.contains(RuntimeAction::KillTimer { timer_id: REORDER_TIMER_ID })
            &&& actions.contains(RuntimeAction::KillTimer { timer_id: LOCATION_TIMER_ID })
            &&& actions.contains(RuntimeAction::ClearLocationGate)
            &&& actions.contains(RuntimeAction::ClearReorderPending)
            &&& actions.contains(RuntimeAction::ResetGraphicsRefresh)
            &&& after.animation_timer_interval_ms is None
            &&& !after.location.timer_armed && !after.reorder.timer_armed
            &&& after.location.dirty == Set::<WindowIdentity>::empty() && !after.reorder.pending
            &&& after.registry == view.registry
            &&& after.borders == view.borders
            &&& after.active_window == view.active_window
        }),
{
    if view.dispatcher_hwnd != 0 {
        let actions = view.stopped().1;
        assert(actions[0] == (RuntimeAction::KillTimer { timer_id: LOCATION_TIMER_ID }));
        assert(actions[1] == (RuntimeAction::KillTimer { timer_id: REORDER_TIMER_ID }));
        assert(actions[2] == (RuntimeAction::KillTimer { timer_id: ANIMATION_TIMER_ID }));
        assert(actions[3] == (RuntimeAction::KillTimer { timer_id: FOREGROUND_POLL_TIMER_ID }));
        assert(actions[4] == (RuntimeAction::KillTimer { timer_id: RECONCILE_TIMER_ID }));
        assert(actions[5] == RuntimeAction::ClearLocationGate);
        assert(actions[6] == RuntimeAction::ResetGraphicsRefresh);
        assert(actions[7] == RuntimeAction::ClearReorderPending);
    }
}

/// The timers are told apart: each has a number of its own.
pub proof fn law_timers_have_numbers_of_their_own()
    ensures
        seq![
            ANIMATION_TIMER_ID,
            FOREGROUND_POLL_TIMER_ID,
            RECONCILE_TIMER_ID,
            REORDER_TIMER_ID,
            LOCATION_TIMER_ID,
        ].no_duplicates(),
{
}

/// The timer of the foreground poll asks for the foreground window, and for nothing else. A timer
/// that nobody set does nothing.
pub proof fn law_poll_timer_asks_for_the_foreground(
    view: RuntimeView,
    timer_id: usize,
    now: u64,
    after: RuntimeView,
    actions: Seq<RuntimeAction>,
)
    requires
        view.runs_timer(timer_id, now, after, actions),
    ensures
        timer_id == FOREGROUND_POLL_TIMER_ID ==> after == view && actions.len() == 1 && actions[0]
            is PollForeground,
        timer_id != FOREGROUND_POLL_TIMER_ID && timer_id != LOCATION_TIMER_ID && timer_id
            != REORDER_TIMER_ID && timer_id != ANIMATION_TIMER_ID && timer_id != RECONCILE_TIMER_ID
            ==> after == view && actions.len() == 0,
{
}

/// An animation tick goes to exactly the animated windows that are still registered and have a
/// border, once to each and before anything else. Those animations go on, all others end, and
/// nothing but the animations and their timer changes.
pub proof fn law_tick_reaches_every_live_animation(
    view: RuntimeView,
    now: u64,
    after: RuntimeView,
    actions: Seq<RuntimeAction>,
)
    requires
        view.wf(),
        view.runs_timer(ANIMATION_TIMER_ID, now, after, actions),
    ensures
        ({
            let alive = Set::new(
                |key: isize|
                    view.animated.contains_key(key) && view.registry.contains_key(key)
                        && view.registry[key].tracking == view.animated[key].identity
                        && view.borders.contains_key(key),
            );
            &&& alive.len() <= actions.len()
            &&& exactly_told(
                view.borders,
                alive,
                BorderCall::AnimationTick,
                actions.take(alive.len() as int),
            )
            &&& forall|i: int|
                alive.len() <= i < actions.len() ==> #[trigger] actions[i] is KillTimer
                    || actions[i] is SetTimer
            &&& after.animated.dom() == alive
            &&& forall|key: isize| #[trigger]
                alive.contains(key) ==> after.animated[key] == view.animated[key]
            &&& after.registry == view.registry
            &&& after.borders == view.borders
            &&& after.active_window == view.active_window
        }),
{
    let alive = Set::new(
        |key: isize|
            view.animated.contains_key(key) && view.registry.contains_key(key)
                && view.registry[key].tracking == view.animated[key].identity
                && view.borders.contains_key(key),
    );
    let keys = choose|keys: Seq<isize>|
        crate::keys::lists_keys(keys, view.animated.dom()) && actions
            == #[trigger] view.broadcast_calls(Broadcast::AnimationTick, keys)
            + view.after_tick().1;
    let calls = view.broadcast_calls(Broadcast::AnimationTick, keys);
    let timer = view.after_tick().1;
    assert forall|key: isize| #[trigger] keys.contains(key) <==> view.animated.contains_key(key) by {
        assert(keys.to_set().contains(key) <==> keys.contains(key));
        assert(view.animated.dom().contains(key) <==> view.animated.contains_key(key));
    }
    assert forall|key: isize| #[trigger] alive.contains(key) <==> view.animates(key) by {}
    lemma_told(view, Broadcast::AnimationTick, keys, alive, BorderCall::AnimationTick);
    assert(actions.take(alive.len() as int) =~= calls);
    assert(view.live_animations().dom() =~= alive);
    assert forall|i: int| alive.len() <= i < actions.len() implies #[trigger] actions[i] is KillTimer
        || actions[i] is SetTimer by {
        assert(actions[i] == timer[i - alive.len()]);
    }
}

/// A move that is let through at once releases its gate and is handled, in this order and alone. One
/// that has to wait asks for its timer, and one that joins others that wait asks for nothing. Without
/// a window that timers belong to, nothing waits and every gate opens.
pub proof fn law_moves_are_flushed_or_wait(
    view: RuntimeView,
    identity: WindowIdentity,
    live: Option<WindowIdentity>,
    now: u64,
    after: RuntimeView,
    actions: Seq<RuntimeAction>,
)
    requires
        view.carries_out(
            BorderRuntimeCommand::WindowEvent {
                identity,
                event: BorderWindowEvent::LocationChange,
            },
            live,
            now,
            after,
            actions,
        ),
    ensures
        ({
            let waits = view.location.timer_armed;
            let rested = view.location.last_flush is None || now - view.location.last_flush->0
                >= 16_000_000;
            &&& after.registry == view.registry
            &&& after.borders == view.borders
            &&& after.animated == view.animated
            &&& after.active_window == view.active_window
            &&& after.reorder == view.reorder
            &&& waits ==> actions.len() == 0 && after.location.dirty
                == view.location.dirty.insert(identity) && after.location.timer_armed
            &&& !waits && rested ==> {
                &&& actions.len() == 2
                &&& actions[0] == RuntimeAction::ReleaseLocation(identity)
                &&& actions[1] == (RuntimeAction::HandleWindowEvent {
                    identity,
                    event: BorderWindowEvent::LocationChange,
                })
                &&& after.location.last_flush == Some(now)
            }
            &&& !waits && !rested && view.dispatcher_hwnd != 0 ==> {
                &&& actions.len() == 1
                &&& actions[0] matches RuntimeAction::ArmTimer { timer_id, delay_ms } && timer_id
                    == LOCATION_TIMER_ID && 1 <= delay_ms <= 16
                &&& after.location.timer_armed && after.location.dirty.contains(identity)
            }
            &&& !waits && !rested && view.dispatcher_hwnd == 0 ==> {
                &&& actions.len() == 1
                &&& actions[0] is ClearLocationGate
                &&& !after.location.timer_armed
                &&& after.location.dirty == Set::<WindowIdentity>::empty()
            }
        }),
{
    crate::coalescing::law_moves_wait_no_longer_than_needed(view.location, identity, now);
    reveal_with_fuel(crate::runtime_model::location_flushes, 2);
    let (location, action) = view.location.after_event(identity, now);
    if let crate::coalescing::LocationAction::ArmTimer(delay_ns) = action {
        crate::coalescing::law_timer_delay_is_whole_milliseconds(delay_ns, 16_000_000);
    }
    assert(seq![identity].drop_last() =~= Seq::empty());
}

proof fn lemma_flushes_in_order(moved: Seq<WindowIdentity>)
    ensures
        crate::runtime_model::location_flushes(moved).len() == 2 * moved.len(),
        forall|i: int|
            #![trigger moved[i]]
            0 <= i < moved.len() ==> crate::runtime_model::location_flushes(moved)[2 * i]
                == RuntimeAction::ReleaseLocation(moved[i])
                && crate::runtime_model::location_flushes(moved)[2 * i + 1] == (
            RuntimeAction::HandleWindowEvent {
                identity: moved[i],
                event: BorderWindowEvent::LocationChange,
            }),
    decreases moved.len(),
{
    if moved.len() > 0 {
        lemma_flushes_in_order(moved.drop_last());
        assert forall|i: int|
            #![trigger moved[i]]
            0 <= i < moved.len() implies crate::runtime_model::location_flushes(moved)[2 * i]
            == RuntimeAction::ReleaseLocation(moved[i]) && crate::runtime_model::location_flushes(
            moved,
        )[2 * i + 1] == (RuntimeAction::HandleWindowEvent {
            identity: moved[i],
            event: BorderWindowEvent::LocationChange,
        }) by {
            if i < moved.len() - 1 {
                assert(moved.drop_last()[i] == moved[i]);
            }
        }
    }
}

/// When the location timer has run out each window that waited is released and then handled, once,
/// and no other window is. Nothing waits then.
pub proof fn law_location_timer_brings_what_waited(
    view: RuntimeView,
    now: u64,
    after: RuntimeView,
    actions: Seq<RuntimeAction>,
)
    requires
        view.runs_timer(LOCATION_TIMER_ID, now, after, actions),
        view.dispatcher_hwnd != 0,
    ensures
        !after.location.timer_armed,
        after.location.dirty == Set::<WindowIdentity>::empty(),
        after.registry == view.registry,
        after.borders == view.borders,
        after.animated == view.animated,
        after.reorder == view.reorder,
        after.active_window == view.active_window,
        actions.len() == 1 + 2 * view.location.dirty.len(),
        actions[0] == (RuntimeAction::KillTimer { timer_id: LOCATION_TIMER_ID }),
        forall|w: WindowIdentity| #[trigger]
            view.location.dirty.contains(w) ==> exists|i: int|
                0 < i < actions.len() - 1 && #[trigger] actions[i]
                    == RuntimeAction::ReleaseLocation(w) && actions[i + 1] == (
                RuntimeAction::HandleWindowEvent {
                    identity: w,
                    event: BorderWindowEvent::LocationChange,
                }),
{
    let moved = choose|moved: Seq<WindowIdentity>|
        crate::coalescing::lists_identities(moved, view.location.dirty) && actions == seq![
            RuntimeAction::KillTimer { timer_id: LOCATION_TIMER_ID },
        ] + #[trigger] crate::runtime_model::location_flushes(moved);
    lemma_flushes_in_order(moved);
    crate::coalescing::law_ascending_lists_name_nothing_twice(moved);
    moved.unique_seq_to_set();
    assert forall|w: WindowIdentity| #[trigger] view.location.dirty.contains(w) implies exists|i: int|
        0 < i < actions.len() - 1 && #[trigger] actions[i] == RuntimeAction::ReleaseLocation(w)
            && actions[i + 1] == (RuntimeAction::HandleWindowEvent {
            identity: w,
            event: BorderWindowEvent::LocationChange,
        }) by {
        assert(moved.to_set().contains(w));
        let at = choose|at: int| 0 <= at < moved.len() && moved[at] == w;
        assert(actions[1 + 2 * at] == RuntimeAction::ReleaseLocation(moved[at]));
        assert(actions[1 + 2 * at + 1] == (RuntimeAction::HandleWindowEvent {
            identity: w,
            event: BorderWindowEvent::LocationChange,
        }));
    }
}

/// A reorder that is let through at once is flushed before its gate opens. One that has to wait asks
/// for its timer, and one that joins others asks for nothing. Without a window that timers belong to
/// nothing waits and its gate opens.
pub proof fn law_reorders_are_flushed_or_wait(
    view: RuntimeView,
    live: Option<WindowIdentity>,
    now: u64,
    after: RuntimeView,
    actions: Seq<RuntimeAction>,
)
    requires
        view.carries_out(BorderRuntimeCommand::Reorder, live, now, after, actions),
    ensures
        ({
            let waits = view.reorder.timer_armed;
            let rested = view.reorder.last_flush is None || now - view.reorder.last_flush->0
                >= 16_000_000;
            &&& after == RuntimeView { reorder: after.reorder, ..view }
            &&& waits ==> actions.len() == 0 && after.reorder.pending && after.reorder.timer_armed
            &&& !waits && rested ==> {
                &&& actions.len() == 2
                &&& actions[0] is FlushReorder
                &&& actions[1] is ClearReorderPending
                &&& after.reorder.last_flush == Some(now)
            }
            &&& !waits && !rested && view.dispatcher_hwnd != 0 ==> {
                &&& actions.len() == 1
                &&& actions[0] matches RuntimeAction::ArmTimer { timer_id, delay_ms } && timer_id
                    == REORDER_TIMER_ID && 1 <= delay_ms <= 16
                &&& after.reorder.pending && after.reorder.timer_armed
            }
            &&& !waits && !rested && view.dispatcher_hwnd == 0 ==> {
                &&& actions.len() == 1
                &&& actions[0] is ClearReorderPending
                &&& !after.reorder.pending && !after.reorder.timer_armed
            }
        }),
{
    crate::coalescing::law_reorders_wait_no_longer_than_needed(view.reorder, now);
    let (reorder, action) = view.reorder.after_event(now);
    if let crate::coalescing::ReorderAction::ArmTimer(delay_ns) = action {
        crate::coalescing::law_timer_delay_is_whole_milliseconds(delay_ns, 16_000_000);
    }
}

/// When the reorder timer has run out it is ended first, a reorder that waited is flushed, and the
/// gate opens last.
pub proof fn law_reorder_timer_brings_what_waited(
    view: RuntimeView,
    now: u64,
    after: RuntimeView,
    actions: Seq<RuntimeAction>,
)
    requires
        view.runs_timer(REORDER_TIMER_ID, now, after, actions),
        view.dispatcher_hwnd != 0,
    ensures
        after == (RuntimeView { reorder: after.reorder, ..view }),
        !after.reorder.pending && !after.reorder.timer_armed,
        actions.len() == (if view.reorder.pending {
            3int
        } else {
            2
        }),
        actions[0] == (RuntimeAction::KillTimer { timer_id: REORDER_TIMER_ID }),
        view.reorder.pending ==> actions[1] is FlushReorder,
        actions.last() is ClearReorderPending,
{
}

/// The creation of a border goes on with the very window that was assessed, exactly if it calls for a
/// border; and then exactly if it is still that window. A border that could be initialized stays as
/// it is; one that could not goes, as any other does.
pub proof fn law_creation_goes_on_step_by_step(
    view: RuntimeView,
    identity: WindowIdentity,
    facts: crate::window_snapshot::WindowFacts,
    live: Option<WindowIdentity>,
    now: u64,
)
    ensures
        ({
            let assessed = view.after_assessment(identity, facts);
            let admitted = view.after_admission(identity, live);
            &&& facts.calls_for_border(view.current_process_elevated) <==> assessed.len() == 1
            &&& assessed.len() == 1 ==> assessed[0] == (RuntimeAction::AdmitBorder { identity })
            &&& assessed.len() <= 1
            &&& live == Some(identity) <==> admitted.len() == 1
            &&& admitted.len() == 1 ==> admitted[0] == (RuntimeAction::ConstructBorder { identity })
            &&& admitted.len() <= 1
            &&& view.after_initialization(identity, true).0 == view
            &&& view.after_initialization(identity, true).1.len() == 0
            &&& view.carries_out(
                BorderRuntimeCommand::Destroy { identity },
                live,
                now,
                view.after_initialization(identity, false).0,
                view.after_initialization(identity, false).1,
            )
        }),
{
}

/// Once the shared devices are in line, a refresh makes every registered border rebuild its drawer
/// and then ends; where they could not be brought in line it ends at once. A reload goes through the
/// windows exactly if they are in line.
pub proof fn law_synced_devices_are_followed(
    view: RuntimeView,
    succeeded: bool,
    actions: Seq<RuntimeAction>,
)
    ensures
        view.follows_sync(SyncPurpose::Refresh, succeeded, actions) ==> {
            &&& actions.len() > 0
            &&& actions.last() is FinishGraphicsRefresh
            &&& succeeded ==> exactly_told(
                view.borders,
                view.registry.dom().intersect(view.borders.dom()),
                BorderCall::RecreateDrawer,
                actions.drop_last(),
            )
            &&& !succeeded ==> actions.len() == 1
        },
        view.follows_sync(SyncPurpose::Reload, succeeded, actions) ==> {
            &&& succeeded ==> actions.len() == 1 && actions[0] == RuntimeAction::CollectWindows(
                CollectPurpose::Reload,
            )
            &&& !succeeded ==> actions.len() == 0
        },
{
    if view.follows_sync(SyncPurpose::Refresh, succeeded, actions) && succeeded {
        let keys = choose|keys: Seq<isize>|
            crate::keys::lists_keys(keys, view.registry.dom()) && actions
                == #[trigger] view.broadcast_calls(Broadcast::RecreateDrawer, keys) + seq![
                RuntimeAction::FinishGraphicsRefresh,
            ];
        let calls = view.broadcast_calls(Broadcast::RecreateDrawer, keys);
        law_broadcasts_to_all_miss_nobody(view, keys, Set::empty());
        assert(actions.drop_last() =~= calls);
    }
}

/// An update for the active window concerns that window alone, if it is registered; one for all
/// concerns each registered window once.
pub proof fn law_updates_concern_active_window_or_all(
    view: RuntimeView,
    focused_only: bool,
    targets: Seq<isize>,
)
    requires
        view.concerns(focused_only, targets),
    ensures
        targets.no_duplicates(),
        forall|key: isize| #[trigger]
            targets.contains(key) <==> view.registry.contains_key(key) && (focused_only ==> key
                == view.active_window),
{
    if focused_only {
        if view.registry.contains_key(view.active_window) {
            assert(targets[0] == view.active_window);
        }
    } else {
        lemma_keys_listed(targets, view.registry);
    }
}

/// Where a timer cannot be set, what would have waited for it is flushed at once: each window that
/// moved is released and handled, and a reorder is flushed before its gate opens. Nothing waits then.
pub proof fn law_missing_timers_hold_nothing_back(
    view: RuntimeView,
    now: u64,
    after: RuntimeView,
    actions: Seq<RuntimeAction>,
)
    requires
        view.misses_location_timer(now, after, actions),
    ensures
        !after.location.timer_armed,
        after.location.dirty == Set::<WindowIdentity>::empty(),
        after.registry == view.registry,
        after.borders == view.borders,
        after.animated == view.animated,
        after.reorder == view.reorder,
        after.active_window == view.active_window,
        actions.len() == 2 * view.location.dirty.len(),
        forall|w: WindowIdentity| #[trigger]
            view.location.dirty.contains(w) ==> exists|i: int|
                0 <= i < actions.len() - 1 && #[trigger] actions[i]
                    == RuntimeAction::ReleaseLocation(w) && actions[i + 1] == (
                RuntimeAction::HandleWindowEvent {
                    identity: w,
                    event: BorderWindowEvent::LocationChange,
                }),
        ({
            let (settled, flushed) = view.without_reorder_timer();
            &&& settled == RuntimeView { reorder: settled.reorder, ..view }
            &&& !settled.reorder.pending && !settled.reorder.timer_armed
            &&& flushed.len() == 2
            &&& flushed[0] is FlushReorder
            &&& flushed[1] is ClearReorderPending
        }),
{
    let moved = choose|moved: Seq<WindowIdentity>|
        crate::coalescing::lists_identities(moved, view.location.dirty) && actions
            == #[trigger] crate::runtime_model::location_flushes(moved);
    lemma_flushes_in_order(moved);
    crate::coalescing::law_ascending_lists_name_nothing_twice(moved);
    moved.unique_seq_to_set();
    assert forall|w: WindowIdentity| #[trigger] view.location.dirty.contains(w) implies exists|i: int|
        0 <= i < actions.len() - 1 && #[trigger] actions[i] == RuntimeAction::ReleaseLocation(w)
            && actions[i + 1] == (RuntimeAction::HandleWindowEvent {
            identity: w,
            event: BorderWindowEvent::LocationChange,
        }) by {
        assert(moved.to_set().contains(w));
        let at = choose|at: int| 0 <= at < moved.len() && moved[at] == w;
        assert(actions[2 * at] == RuntimeAction::ReleaseLocation(moved[at]));
        assert(actions[2 * at + 1] == (RuntimeAction::HandleWindowEvent {
            identity: w,
            event: BorderWindowEvent::LocationChange,
        }));
    }
}

/// A reload takes every window that is there for one that was open from the start, and asks for a
/// border exactly for those that call for one, as the windows that they are; once for each.
pub proof fn law_reload_starts_from_the_desktop(
    present: Map<isize, WindowIdentity>,
    creatable: Set<isize>,
    initial_windows: Seq<isize>,
    actions: Seq<RuntimeAction>,
    hwnd: isize,
    w: WindowIdentity,
)
    requires
        crate::runtime_model::reloads_with(present, creatable, initial_windows, actions),
    ensures
        initial_windows.contains(hwnd) <==> present.contains_key(hwnd),
        initial_windows.no_duplicates(),
        actions.contains(RuntimeAction::CreateBorder { identity: w }) <==> present.contains_key(
            w.hwnd,
        ) && present[w.hwnd] == w && creatable.contains(w.hwnd),
        actions.no_duplicates(),
        forall|i: int| 0 <= i < actions.len() ==> #[trigger] actions[i] is CreateBorder,
{
    let create = choose|create: Seq<WindowIdentity>|
        {
            &&& crate::sorted::ascending_identities(create)
            &&& forall|w: WindowIdentity| #[trigger]
                create.contains(w) <==> crate::window_snapshot::is_present(present, w)
                    && creatable.contains(w.hwnd)
            &&& actions == #[trigger] crate::runtime_model::creations(create)
        };
    crate::coalescing::law_ascending_lists_name_nothing_twice(create);
    let asked = RuntimeAction::CreateBorder { identity: w };
    if create.contains(w) {
        let i = choose|i: int| 0 <= i < create.len() && create[i] == w;
        assert(actions[i] == asked);
    }
    if actions.contains(asked) {
        let i = choose|i: int| 0 <= i < actions.len() && actions[i] == asked;
        assert(create[i] == w);
    }
}

/// Without a window that timers belong to, a run-out of the location timer opens the gates and lets
/// nothing wait, and one of the reorder timer does nothing.
pub proof fn law_timers_without_a_window_hold_nothing_back(
    view: RuntimeView,
    now: u64,
    after: RuntimeView,
    actions: Seq<RuntimeAction>,
)
    requires
        view.dispatcher_hwnd == 0,
    ensures
        view.runs_timer(LOCATION_TIMER_ID, now, after, actions) ==> {
            &&& actions.len() == 1
            &&& actions[0] is ClearLocationGate
            &&& after == RuntimeView { location: after.location, ..view }
            &&& !after.location.timer_armed
            &&& after.location.dirty == Set::<WindowIdentity>::empty()
        },
        view.runs_timer(REORDER_TIMER_ID, now, after, actions) ==> after == view && actions.len()
            == 0,
{
}

} // verus!
