//! How the focus state follows what a notification shows.

use vstd::prelude::*;

use crate::json::JsonTree;
use crate::komorebi::{FocusMap, NotificationField, SchemaError, WindowKind};

verus! {

/// Whether a value names the window `hwnd`.
pub open spec fn names(value: JsonTree, hwnd: isize) -> bool {
    value.member("hwnd"@).signed() == Some(hwnd as i64) && hwnd as i64 == hwnd
}

/// Whether `monitor` is the place of the focused monitor.
pub open spec fn monitor_in_focus(notification: JsonTree, monitor: int) -> bool {
    notification.member("state"@).member("monitors"@).member("focused"@).unsigned() matches Some(
        focused,
    ) && focused == monitor
}

/// Whether the monitor at this place shows the workspace `workspace`.
pub open spec fn monitor_shows(monitor: JsonTree, workspace: JsonTree) -> bool {
    let workspaces = monitor.member("workspaces"@);
    &&& workspaces.member("elements"@).elements() matches Some(elements)
    &&& workspaces.member("focused"@).unsigned() matches Some(focused)
    &&& focused < elements.len()
    &&& workspace == elements[focused as int]
}

/// Whether the notification has a monitor at this place that shows `workspace`.
pub open spec fn shown(notification: JsonTree, monitor: int, workspace: JsonTree) -> bool {
    notification.member("state"@).member("monitors"@).member("elements"@).elements() matches Some(
        monitors,
    ) && 0 <= monitor < monitors.len() && monitor_shows(monitors[monitor], workspace)
}

/// Whether a workspace has a monocle container with this window in front.
pub open spec fn monocle_names(workspace: JsonTree, hwnd: isize) -> bool {
    let monocle = workspace.member("monocle_container"@);
    &&& monocle !is Null
    &&& monocle.member("windows"@).member("elements"@).elements() matches Some(windows)
    &&& windows.len() > 0
    &&& names(windows[0], hwnd)
}

/// Whether a container of `count` windows shows this one.
pub open spec fn container_shows(container: JsonTree, count: nat, hwnd: isize) -> bool {
    let windows = container.member("windows"@);
    &&& windows.member("elements"@).elements() matches Some(elements)
    &&& elements.len() == count
    &&& windows.member("focused"@).unsigned() matches Some(focused)
    &&& focused < count
    &&& names(elements[focused as int], hwnd)
}

/// Whether the container at this place in a workspace, one of `count` windows, shows this one.
pub open spec fn container_at_shows(
    workspace: JsonTree,
    place: int,
    count: nat,
    hwnd: isize,
) -> bool {
    workspace.member("containers"@).member("elements"@).elements() matches Some(containers) && 0
        <= place < containers.len() && container_shows(containers[place], count, hwnd)
}

/// Whether `place` is the place of the focused container of a workspace.
pub open spec fn container_in_focus(workspace: JsonTree, place: int) -> bool {
    workspace.member("containers"@).member("focused"@).unsigned() matches Some(focused) && focused
        == place
}

/// Whether a window floats on a workspace.
pub open spec fn floats(workspace: JsonTree, hwnd: isize) -> bool {
    workspace.member("floating_windows"@).member("elements"@).elements() matches Some(windows)
        && exists|i: int| 0 <= i < windows.len() && names(#[trigger] windows[i], hwnd)
}

/// Whether a workspace names a window at all.
pub open spec fn workspace_names(workspace: JsonTree, hwnd: isize) -> bool {
    ||| monocle_names(workspace, hwnd)
    ||| exists|place: int, count: nat| container_at_shows(workspace, place, count, hwnd)
    ||| floats(workspace, hwnd)
}

/// Whether what a workspace shows of a window gives it this kind.
pub open spec fn workspace_gives(
    workspace: JsonTree,
    on_focused_monitor: bool,
    foreground: isize,
    hwnd: isize,
    kind: WindowKind,
) -> bool {
    match kind {
        WindowKind::Monocle => on_focused_monitor && monocle_names(workspace, hwnd),
        WindowKind::Stack => on_focused_monitor && hwnd == foreground && exists|
            place: int,
            count: nat,
        | #[trigger]
            container_at_shows(workspace, place, count, hwnd) && container_in_focus(
                workspace,
                place,
            ) && count >= 2,
        WindowKind::Single => on_focused_monitor && hwnd == foreground && exists|place: int|
            #[trigger]
            container_at_shows(workspace, place, 1, hwnd) && container_in_focus(workspace, place),
        WindowKind::Floating => hwnd == foreground && floats(workspace, hwnd),
        WindowKind::Unfocused => {
            ||| !on_focused_monitor && monocle_names(workspace, hwnd)
            ||| hwnd != foreground && floats(workspace, hwnd)
            ||| exists|place: int, count: nat| #[trigger]
                container_at_shows(workspace, place, count, hwnd) && !(on_focused_monitor
                    && container_in_focus(workspace, place) && hwnd == foreground)
        },
    }
}

/// Whether what a notification shows of a window gives it this kind.
pub open spec fn notification_gives(
    notification: JsonTree,
    foreground: isize,
    hwnd: isize,
    kind: WindowKind,
) -> bool {
    exists|monitor: int, workspace: JsonTree| #[trigger]
        shown(notification, monitor, workspace) && workspace_gives(
            workspace,
            monitor_in_focus(notification, monitor),
            foreground,
            hwnd,
            kind,
        )
}

/// Whether a notification names a window at all.
pub open spec fn notification_names(notification: JsonTree, hwnd: isize) -> bool {
    exists|monitor: int, workspace: JsonTree| #[trigger]
        shown(notification, monitor, workspace) && workspace_names(workspace, hwnd)
}

/// Whether a window is in neither of two states, or has the same kind in both.
pub open spec fn kind_kept(before: FocusMap, after: FocusMap, hwnd: isize) -> bool {
    &&& before.contains_key(hwnd) == after.contains_key(hwnd)
    &&& before.contains_key(hwnd) ==> before[hwnd] == after[hwnd]
}

proof fn lemma_read_hwnd(value: JsonTree, field: NotificationField, hwnd: isize)
    ensures
        crate::komorebi::read_hwnd(value.member("hwnd"@), field) == Ok::<isize, SchemaError>(hwnd)
            <==> names(value, hwnd),
        crate::komorebi::read_hwnd(value.member("hwnd"@), field) matches Ok(found) ==> names(
            value,
            found,
        ),
{
}

proof fn lemma_container(
    state: FocusMap,
    container: JsonTree,
    in_focus: bool,
    foreground: isize,
    hwnd: isize,
)
    requires
        crate::komorebi::after_container(state, container, in_focus, foreground) is Ok,
    ensures
        ({
            let next = crate::komorebi::after_container(
                state,
                container,
                in_focus,
                foreground,
            )->Ok_0;
            &&& (forall|count: nat| !container_shows(container, count, hwnd)) ==> kind_kept(
                state,
                next,
                hwnd,
            )
            &&& forall|count: nat| #[trigger]
                container_shows(container, count, hwnd) ==> {
                    &&& next.contains_key(hwnd)
                    &&& next[hwnd] is Stack <==> in_focus && hwnd == foreground && count >= 2
                    &&& next[hwnd] is Single <==> in_focus && hwnd == foreground && count == 1
                    &&& next[hwnd] is Unfocused <==> !(in_focus && hwnd == foreground)
                }
        }),
{
    let windows = container.member("windows"@);
    let elements = windows.member("elements"@).elements()->0;
    let focused = windows.member("focused"@).unsigned()->0;
    let window = elements[focused as int];
    lemma_read_hwnd(window, NotificationField::ContainerHwnd, hwnd);
    if names(window, hwnd) {
        assert(container_shows(container, elements.len(), hwnd));
    }
}

proof fn lemma_containers(
    state: FocusMap,
    containers: Seq<JsonTree>,
    focused: usize,
    on_focused_monitor: bool,
    foreground: isize,
    hwnd: isize,
)
    requires
        crate::komorebi::after_containers(
            state,
            containers,
            focused,
            on_focused_monitor,
            foreground,
        ) is Ok,
    ensures
        ({
            let next = crate::komorebi::after_containers(
                state,
                containers,
                focused,
                on_focused_monitor,
                foreground,
            )->Ok_0;
            ||| kind_kept(state, next, hwnd) && forall|place: int, count: nat|
                0 <= place < containers.len() ==> !(#[trigger] container_shows(
                    containers[place],
                    count,
                    hwnd,
                ))
            ||| next.contains_key(hwnd) && exists|place: int, count: nat|
                {
                    let in_focus = place == focused && on_focused_monitor && hwnd == foreground;
                    &&& 0 <= place < containers.len()
                    &&& #[trigger] container_shows(containers[place], count, hwnd)
                    &&& next[hwnd] is Stack <==> in_focus && count >= 2
                    &&& next[hwnd] is Single <==> in_focus && count == 1
                    &&& next[hwnd] is Unfocused <==> !in_focus
                }
        }),
    decreases containers.len(),
{
    if containers.len() > 0 {
        let shorter = containers.drop_last();
        let last = containers.len() - 1;
        lemma_containers(state, shorter, focused, on_focused_monitor, foreground, hwnd);
        let earlier = crate::komorebi::after_containers(
            state,
            shorter,
            focused,
            on_focused_monitor,
            foreground,
        )->Ok_0;
        let next = crate::komorebi::after_containers(
            state,
            containers,
            focused,
            on_focused_monitor,
            foreground,
        )->Ok_0;
        lemma_container(
            earlier,
            containers.last(),
            last == focused && on_focused_monitor,
            foreground,
            hwnd,
        );
        if exists|count: nat| container_shows(containers.last(), count, hwnd) {
            let count = choose|count: nat| container_shows(containers.last(), count, hwnd);
            assert(container_shows(containers[last], count, hwnd));
        } else {
            assert(kind_kept(earlier, next, hwnd));
            if exists|place: int, count: nat|
                0 <= place < shorter.len() && container_shows(shorter[place], count, hwnd) {
                let (place, count) = choose|place: int, count: nat|
                    {
                        let in_focus = place == focused && on_focused_monitor && hwnd == foreground;
                        &&& 0 <= place < shorter.len()
                        &&& #[trigger] container_shows(shorter[place], count, hwnd)
                        &&& earlier[hwnd] is Stack <==> in_focus && count >= 2
                        &&& earlier[hwnd] is Single <==> in_focus && count == 1
                        &&& earlier[hwnd] is Unfocused <==> !in_focus
                    };
                assert(container_shows(containers[place], count, hwnd));
            } else {
                assert forall|place: int, count: nat| 0 <= place < containers.len() implies !(
                #[trigger] container_shows(containers[place], count, hwnd)) by {
                    if place < last {
                        assert(shorter[place] == containers[place]);
                        assert(!container_shows(shorter[place], count, hwnd));
                    }
                }
            }
        }
    }
}

proof fn lemma_floating(state: FocusMap, windows: Seq<JsonTree>, foreground: isize, hwnd: isize)
    requires
        crate::komorebi::after_floating(state, windows, foreground) is Ok,
    ensures
        ({
            let next = crate::komorebi::after_floating(state, windows, foreground)->Ok_0;
            let named = exists|i: int| 0 <= i < windows.len() && names(#[trigger] windows[i], hwnd);
            &&& !named ==> kind_kept(state, next, hwnd)
            &&& named ==> next.contains_key(hwnd) && next[hwnd] == (if hwnd == foreground {
                WindowKind::Floating
            } else {
                WindowKind::Unfocused
            })
        }),
    decreases windows.len(),
{
    if windows.len() > 0 {
        let shorter = windows.drop_last();
        lemma_floating(state, shorter, foreground, hwnd);
        lemma_read_hwnd(windows.last(), NotificationField::FloatingHwnd, hwnd);
        if names(windows.last(), hwnd) {
            assert(names(windows[windows.len() - 1], hwnd));
        } else {
            if exists|i: int| 0 <= i < windows.len() && names(#[trigger] windows[i], hwnd) {
                let i = choose|i: int| 0 <= i < windows.len() && names(#[trigger] windows[i], hwnd);
                assert(names(shorter[i], hwnd));
            }
            if exists|i: int| 0 <= i < shorter.len() && names(#[trigger] shorter[i], hwnd) {
                let i = choose|i: int| 0 <= i < shorter.len() && names(#[trigger] shorter[i], hwnd);
                assert(names(windows[i], hwnd));
            }
        }
    }
}

proof fn lemma_monocle(
    state: FocusMap,
    workspace: JsonTree,
    on_focused_monitor: bool,
    hwnd: isize,
)
    requires
        crate::komorebi::after_monocle(
            state,
            workspace.member("monocle_container"@),
            on_focused_monitor,
        ) is Ok,
    ensures
        ({
            let next = crate::komorebi::after_monocle(
                state,
                workspace.member("monocle_container"@),
                on_focused_monitor,
            )->Ok_0;
            &&& !monocle_names(workspace, hwnd) ==> kind_kept(state, next, hwnd)
            &&& monocle_names(workspace, hwnd) ==> next.contains_key(hwnd) && next[hwnd] == (
            if on_focused_monitor {
                WindowKind::Monocle
            } else {
                WindowKind::Unfocused
            })
        }),
{
    let monocle = workspace.member("monocle_container"@);
    if monocle !is Null {
        let windows = monocle.member("windows"@).member("elements"@).elements()->0;
        lemma_read_hwnd(windows[0], NotificationField::MonocleHwnd, hwnd);
    }
}

proof fn lemma_workspace(
    state: FocusMap,
    workspace: JsonTree,
    on_focused_monitor: bool,
    foreground: isize,
    hwnd: isize,
)
    requires
        crate::komorebi::after_workspace(state, workspace, on_focused_monitor, foreground) is Ok,
    ensures
        ({
            let next = crate::komorebi::after_workspace(
                state,
                workspace,
                on_focused_monitor,
                foreground,
            )->Ok_0;
            &&& !workspace_names(workspace, hwnd) ==> kind_kept(state, next, hwnd)
            &&& workspace_names(workspace, hwnd) ==> next.contains_key(hwnd) && workspace_gives(
                workspace,
                on_focused_monitor,
                foreground,
                hwnd,
                next[hwnd],
            )
        }),
{
    let next = crate::komorebi::after_workspace(
        state,
        workspace,
        on_focused_monitor,
        foreground,
    )->Ok_0;
    let with_monocle = crate::komorebi::after_monocle(
        state,
        workspace.member("monocle_container"@),
        on_focused_monitor,
    )->Ok_0;
    lemma_monocle(state, workspace, on_focused_monitor, hwnd);
    let containers = workspace.member("containers"@).member("elements"@).elements()->0;
    let focused = if containers.len() == 0 {
        0usize
    } else {
        workspace.member("containers"@).member("focused"@).unsigned()->0 as usize
    };
    let with_containers = crate::komorebi::after_containers(
        with_monocle,
        containers,
        focused,
        on_focused_monitor,
        foreground,
    )->Ok_0;
    lemma_containers(with_monocle, containers, focused, on_focused_monitor, foreground, hwnd);
    let floating = workspace.member("floating_windows"@).member("elements"@).elements()->0;
    lemma_floating(with_containers, floating, foreground, hwnd);
    assert(next == crate::komorebi::after_floating(with_containers, floating, foreground)->Ok_0);
    if !floats(workspace, hwnd) {
        assert(kind_kept(with_containers, next, hwnd));
        if exists|place: int, count: nat|
            0 <= place < containers.len() && #[trigger] container_shows(
                containers[place],
                count,
                hwnd,
            ) {
            let (place, count) = choose|place: int, count: nat|
                {
                    let in_focus = place == focused && on_focused_monitor && hwnd == foreground;
                    &&& 0 <= place < containers.len()
                    &&& #[trigger] container_shows(containers[place], count, hwnd)
                    &&& with_containers[hwnd] is Stack <==> in_focus && count >= 2
                    &&& with_containers[hwnd] is Single <==> in_focus && count == 1
                    &&& with_containers[hwnd] is Unfocused <==> !in_focus
                };
            assert(container_at_shows(workspace, place, count, hwnd));
            assert(container_in_focus(workspace, place) <==> place == focused);
            assert(count >= 1);
        } else {
            assert(kind_kept(with_monocle, with_containers, hwnd));
            assert forall|place: int, count: nat| !container_at_shows(
                workspace,
                place,
                count,
                hwnd,
            ) by {
                if container_at_shows(workspace, place, count, hwnd) {
                    assert(container_shows(containers[place], count, hwnd));
                }
            }
        }
    }
}

proof fn lemma_monitors(
    state: FocusMap,
    monitors: Seq<JsonTree>,
    focused: usize,
    foreground: isize,
    hwnd: isize,
)
    requires
        crate::komorebi::after_monitors(state, monitors, focused, foreground) is Ok,
    ensures
        ({
            let next = crate::komorebi::after_monitors(
                state,
                monitors,
                focused,
                foreground,
            )->Ok_0;
            ||| kind_kept(state, next, hwnd) && forall|monitor: int, workspace: JsonTree|
                0 <= monitor < monitors.len() && #[trigger] monitor_shows(
                    monitors[monitor],
                    workspace,
                ) ==> !workspace_names(workspace, hwnd)
            ||| next.contains_key(hwnd) && exists|monitor: int, workspace: JsonTree|
                {
                    &&& 0 <= monitor < monitors.len()
                    &&& #[trigger] monitor_shows(monitors[monitor], workspace)
                    &&& workspace_names(workspace, hwnd)
                    &&& workspace_gives(
                        workspace,
                        monitor == focused,
                        foreground,
                        hwnd,
                        next[hwnd],
                    )
                }
        }),
    decreases monitors.len(),
{
    if monitors.len() > 0 {
        let shorter = monitors.drop_last();
        let last = monitors.len() - 1;
        lemma_monitors(state, shorter, focused, foreground, hwnd);
        let earlier = crate::komorebi::after_monitors(state, shorter, focused, foreground)->Ok_0;
        let next = crate::komorebi::after_monitors(state, monitors, focused, foreground)->Ok_0;
        let workspaces = monitors.last().member("workspaces"@);
        let elements = workspaces.member("elements"@).elements()->0;
        let named_by_last = if elements.len() > 0 {
            let workspace = elements[workspaces.member("focused"@).unsigned()->0 as int];
            lemma_workspace(earlier, workspace, last == focused, foreground, hwnd);
            assert(monitor_shows(monitors[last], workspace));
            workspace_names(workspace, hwnd)
        } else {
            false
        };
        if !named_by_last {
            assert(kind_kept(earlier, next, hwnd));
            if exists|monitor: int, workspace: JsonTree|
                0 <= monitor < shorter.len() && #[trigger] monitor_shows(
                    shorter[monitor],
                    workspace,
                ) && workspace_names(workspace, hwnd) {
                let (monitor, workspace) = choose|monitor: int, workspace: JsonTree|
                    {
                        &&& 0 <= monitor < shorter.len()
                        &&& #[trigger] monitor_shows(shorter[monitor], workspace)
                        &&& workspace_names(workspace, hwnd)
                        &&& workspace_gives(
                            workspace,
                            monitor == focused,
                            foreground,
                            hwnd,
                            earlier[hwnd],
                        )
                    };
                assert(monitor_shows(monitors[monitor], workspace));
            } else {
                assert forall|monitor: int, workspace: JsonTree|
                    0 <= monitor < monitors.len() && #[trigger] monitor_shows(
                        monitors[monitor],
                        workspace,
                    ) implies !workspace_names(workspace, hwnd) by {
                    if monitor < last {
                        assert(monitor_shows(shorter[monitor], workspace));
                    }
                }
            }
        }
    }
}

/// Every kind in a focus state has a reason in what the notification shows, and every window that
/// the notification shows gets a kind: the front window of a monocle container, the window that a
/// container shows, each floating window, on the workspace that each monitor shows. Windows that it
/// does not show keep what was known of them.
pub proof fn law_kinds_follow_what_is_shown(
    previous: FocusMap,
    notification: JsonTree,
    foreground: isize,
    hwnd: isize,
)
    requires
        crate::komorebi::after_notification(previous, notification, foreground) is Ok,
    ensures
        ({
            let next = crate::komorebi::after_notification(
                previous,
                notification,
                foreground,
            )->Ok_0;
            &&& notification_names(notification, hwnd) ==> next.contains_key(hwnd)
                && notification_gives(notification, foreground, hwnd, next[hwnd])
            &&& !notification_names(notification, hwnd) ==> kind_kept(previous, next, hwnd)
        }),
{
    let monitors = notification.member("state"@).member("monitors"@).member(
        "elements"@,
    ).elements()->0;
    let focused = notification.member("state"@).member("monitors"@).member(
        "focused"@,
    ).unsigned()->0 as usize;
    let next = crate::komorebi::after_notification(previous, notification, foreground)->Ok_0;
    lemma_monitors(previous, monitors, focused, foreground, hwnd);
    if exists|monitor: int, workspace: JsonTree|
        0 <= monitor < monitors.len() && #[trigger] monitor_shows(monitors[monitor], workspace)
            && workspace_names(workspace, hwnd) {
        let (monitor, workspace) = choose|monitor: int, workspace: JsonTree|
            {
                &&& 0 <= monitor < monitors.len()
                &&& #[trigger] monitor_shows(monitors[monitor], workspace)
                &&& workspace_names(workspace, hwnd)
                &&& workspace_gives(
                    workspace,
                    monitor == focused,
                    foreground,
                    hwnd,
                    next[hwnd],
                )
            };
        assert(shown(notification, monitor, workspace));
        assert(monitor_in_focus(notification, monitor) == (monitor == focused));
    } else {
        assert(!notification_names(notification, hwnd)) by {
            if notification_names(notification, hwnd) {
                let (monitor, workspace) = choose|monitor: int, workspace: JsonTree| #[trigger]
                    shown(notification, monitor, workspace) && workspace_names(workspace, hwnd);
                assert(monitor_shows(monitors[monitor], workspace));
            }
        }
    }
}

proof fn lemma_last_container_decides(
    state: FocusMap,
    containers: Seq<JsonTree>,
    focused: usize,
    on_focused_monitor: bool,
    foreground: isize,
    hwnd: isize,
    place: int,
    count: nat,
)
    requires
        crate::komorebi::after_containers(
            state,
            containers,
            focused,
            on_focused_monitor,
            foreground,
        ) is Ok,
        0 <= place < containers.len(),
        container_shows(containers[place], count, hwnd),
        forall|later: int, other: nat|
            place < later < containers.len() ==> !(#[trigger] container_shows(
                containers[later],
                other,
                hwnd,
            )),
    ensures
        ({
            let next = crate::komorebi::after_containers(
                state,
                containers,
                focused,
                on_focused_monitor,
                foreground,
            )->Ok_0;
            let in_focus = place == focused && on_focused_monitor && hwnd == foreground;
            &&& next.contains_key(hwnd)
            &&& next[hwnd] is Stack <==> in_focus && count >= 2
            &&& next[hwnd] is Single <==> in_focus && count == 1
            &&& next[hwnd] is Unfocused <==> !in_focus
        }),
    decreases containers.len(),
{
    let shorter = containers.drop_last();
    let last = containers.len() - 1;
    let earlier = crate::komorebi::after_containers(
        state,
        shorter,
        focused,
        on_focused_monitor,
        foreground,
    )->Ok_0;
    lemma_container(
        earlier,
        containers.last(),
        last == focused && on_focused_monitor,
        foreground,
        hwnd,
    );
    if place == last {
        assert(container_shows(containers.last(), count, hwnd));
    } else {
        assert(shorter[place] == containers[place]);
        assert forall|later: int, other: nat| place < later < shorter.len() implies !(
        #[trigger] container_shows(shorter[later], other, hwnd)) by {
            assert(!container_shows(containers[later], other, hwnd));
        }
        lemma_last_container_decides(
            state,
            shorter,
            focused,
            on_focused_monitor,
            foreground,
            hwnd,
            place,
            count,
        );
        assert forall|other: nat| !container_shows(containers.last(), other, hwnd) by {
            assert(!container_shows(containers[last], other, hwnd));
        }
    }
}

proof fn lemma_workspace_container_decides(
    state: FocusMap,
    workspace: JsonTree,
    on_focused_monitor: bool,
    foreground: isize,
    hwnd: isize,
    place: int,
    count: nat,
)
    requires
        crate::komorebi::after_workspace(state, workspace, on_focused_monitor, foreground) is Ok,
        container_at_shows(workspace, place, count, hwnd),
        forall|later: int, other: nat|
            later > place ==> !(#[trigger] container_at_shows(workspace, later, other, hwnd)),
        !floats(workspace, hwnd),
    ensures
        ({
            let next = crate::komorebi::after_workspace(
                state,
                workspace,
                on_focused_monitor,
                foreground,
            )->Ok_0;
            let in_focus = container_in_focus(workspace, place) && on_focused_monitor && hwnd
                == foreground;
            &&& next.contains_key(hwnd)
            &&& next[hwnd] is Stack <==> in_focus && count >= 2
            &&& next[hwnd] is Single <==> in_focus && count == 1
            &&& next[hwnd] is Unfocused <==> !in_focus
        }),
{
    let with_monocle = crate::komorebi::after_monocle(
        state,
        workspace.member("monocle_container"@),
        on_focused_monitor,
    )->Ok_0;
    let containers = workspace.member("containers"@).member("elements"@).elements()->0;
    let focused = workspace.member("containers"@).member("focused"@).unsigned()->0 as usize;
    let with_containers = crate::komorebi::after_containers(
        with_monocle,
        containers,
        focused,
        on_focused_monitor,
        foreground,
    )->Ok_0;
    assert forall|later: int, other: nat| place < later < containers.len() implies !(
    #[trigger] container_shows(containers[later], other, hwnd)) by {
        assert(!container_at_shows(workspace, later, other, hwnd));
    }
    lemma_last_container_decides(
        with_monocle,
        containers,
        focused,
        on_focused_monitor,
        foreground,
        hwnd,
        place,
        count,
    );
    let floating = workspace.member("floating_windows"@).member("elements"@).elements()->0;
    lemma_floating(with_containers, floating, foreground, hwnd);
    assert(container_in_focus(workspace, place) <==> place == focused);
}

proof fn lemma_later_monitors_keep(
    state: FocusMap,
    monitors: Seq<JsonTree>,
    focused: usize,
    foreground: isize,
    hwnd: isize,
    monitor: int,
)
    requires
        crate::komorebi::after_monitors(state, monitors, focused, foreground) is Ok,
        0 <= monitor < monitors.len(),
        forall|later: int, workspace: JsonTree|
            monitor < later < monitors.len() && #[trigger] monitor_shows(monitors[later], workspace)
                ==> !workspace_names(workspace, hwnd),
    ensures
        crate::komorebi::after_monitors(state, monitors.take(monitor + 1), focused, foreground)
            is Ok,
        kind_kept(
            crate::komorebi::after_monitors(
                state,
                monitors.take(monitor + 1),
                focused,
                foreground,
            )->Ok_0,
            crate::komorebi::after_monitors(state, monitors, focused, foreground)->Ok_0,
            hwnd,
        ),
    decreases monitors.len(),
{
    if monitor == monitors.len() - 1 {
        assert(monitors.take(monitor + 1) =~= monitors);
    } else {
        let shorter = monitors.drop_last();
        let last = monitors.len() - 1;
        assert(shorter.take(monitor + 1) =~= monitors.take(monitor + 1));
        assert forall|later: int, workspace: JsonTree|
            monitor < later < shorter.len() && #[trigger] monitor_shows(
                shorter[later],
                workspace,
            ) implies !workspace_names(workspace, hwnd) by {
            assert(monitor_shows(monitors[later], workspace));
        }
        lemma_later_monitors_keep(state, shorter, focused, foreground, hwnd, monitor);
        let earlier = crate::komorebi::after_monitors(state, shorter, focused, foreground)->Ok_0;
        let workspaces = monitors.last().member("workspaces"@);
        let elements = workspaces.member("elements"@).elements()->0;
        if elements.len() > 0 {
            let workspace = elements[workspaces.member("focused"@).unsigned()->0 as int];
            assert(monitor_shows(monitors[last], workspace));
            lemma_workspace(earlier, workspace, last == focused, foreground, hwnd);
        }
    }
}

/// Where the focused container of the focused monitor shows the foreground window, that window is
/// filed as a stack exactly if the container has two windows or more, and as a single window exactly
/// if it has one, however many windows there are and whatever was known before. Only what the
/// notification shows of the window later on, in the order in which it is read, counts instead: a
/// later container, a floating window, a later monitor.
pub proof fn law_focused_container_is_a_stack_or_single(
    previous: FocusMap,
    notification: JsonTree,
    foreground: isize,
    monitor: int,
    workspace: JsonTree,
    place: int,
    count: nat,
)
    requires
        crate::komorebi::after_notification(previous, notification, foreground) is Ok,
        shown(notification, monitor, workspace),
        monitor_in_focus(notification, monitor),
        container_at_shows(workspace, place, count, foreground),
        container_in_focus(workspace, place),
        forall|later: int, other: nat|
            later > place ==> !(#[trigger] container_at_shows(workspace, later, other, foreground)),
        !floats(workspace, foreground),
        forall|later: int, elsewhere: JsonTree|
            later > monitor && #[trigger] shown(notification, later, elsewhere)
                ==> !workspace_names(elsewhere, foreground),
    ensures
        ({
            let next = crate::komorebi::after_notification(
                previous,
                notification,
                foreground,
            )->Ok_0;
            &&& next.contains_key(foreground)
            &&& next[foreground] is Stack <==> count >= 2
            &&& next[foreground] is Single <==> count == 1
            &&& count >= 1
        }),
{
    let monitors = notification.member("state"@).member("monitors"@).member(
        "elements"@,
    ).elements()->0;
    let focused = notification.member("state"@).member("monitors"@).member(
        "focused"@,
    ).unsigned()->0 as usize;
    assert forall|later: int, elsewhere: JsonTree|
        monitor < later < monitors.len() && #[trigger] monitor_shows(
            monitors[later],
            elsewhere,
        ) implies !workspace_names(elsewhere, foreground) by {
        assert(shown(notification, later, elsewhere));
    }
    lemma_later_monitors_keep(previous, monitors, focused, foreground, foreground, monitor);
    let upto = monitors.take(monitor + 1);
    assert(upto.drop_last() =~= monitors.take(monitor));
    assert(upto.last() == monitors[monitor]);
    let earlier = crate::komorebi::after_monitors(
        previous,
        upto.drop_last(),
        focused,
        foreground,
    )->Ok_0;
    lemma_workspace_container_decides(
        earlier,
        workspace,
        monitor == focused,
        foreground,
        foreground,
        place,
        count,
    );
}

/// Whether a value holds a window handle.
pub open spec fn holds_handle(value: JsonTree) -> bool {
    value.member("hwnd"@).signed() matches Some(hwnd) && isize::MIN <= hwnd <= isize::MAX
}

/// Whether a value is an index that names one of `count` things.
pub open spec fn chooses_among(value: JsonTree, count: nat) -> bool {
    value.unsigned() matches Some(index) && index < count && index <= usize::MAX
}

pub open spec fn container_readable(container: JsonTree) -> bool {
    let windows = container.member("windows"@);
    windows.member("elements"@).elements() matches Some(elements) && chooses_among(
        windows.member("focused"@),
        elements.len(),
    ) && holds_handle(elements[windows.member("focused"@).unsigned()->0 as int])
}

pub open spec fn workspace_readable(workspace: JsonTree) -> bool {
    let monocle = workspace.member("monocle_container"@);
    let containers = workspace.member("containers"@);
    let floating = workspace.member("floating_windows"@).member("elements"@).elements();
    &&& monocle is Null || (monocle.member("windows"@).member("elements"@).elements() matches Some(
        windows,
    ) && windows.len() > 0 && holds_handle(windows[0]))
    &&& containers.member("elements"@).elements() matches Some(elements) && (elements.len() == 0
        || chooses_among(containers.member("focused"@), elements.len())) && forall|i: int|
        0 <= i < elements.len() ==> container_readable(#[trigger] elements[i])
    &&& floating matches Some(windows) && forall|i: int|
        0 <= i < windows.len() ==> holds_handle(#[trigger] windows[i])
}

pub open spec fn monitor_readable(monitor: JsonTree) -> bool {
    let workspaces = monitor.member("workspaces"@);
    workspaces.member("elements"@).elements() matches Some(elements) && (elements.len() == 0 || (
    chooses_among(workspaces.member("focused"@), elements.len()) && workspace_readable(
        elements[workspaces.member("focused"@).unsigned()->0 as int],
    )))
}

proof fn lemma_containers_readable(
    state: FocusMap,
    containers: Seq<JsonTree>,
    focused: usize,
    on_focused_monitor: bool,
    foreground: isize,
)
    ensures
        crate::komorebi::after_containers(
            state,
            containers,
            focused,
            on_focused_monitor,
            foreground,
        ) is Ok <==> forall|i: int|
            0 <= i < containers.len() ==> container_readable(#[trigger] containers[i]),
    decreases containers.len(),
{
    if containers.len() > 0 {
        let shorter = containers.drop_last();
        lemma_containers_readable(state, shorter, focused, on_focused_monitor, foreground);
        if forall|i: int| 0 <= i < containers.len() ==> container_readable(#[trigger] containers[i]) {
            assert forall|i: int| 0 <= i < shorter.len() implies container_readable(
                #[trigger] shorter[i],
            ) by {
                assert(container_readable(containers[i]));
            }
            assert(container_readable(containers[containers.len() - 1]));
        }
        if (forall|i: int| 0 <= i < shorter.len() ==> container_readable(#[trigger] shorter[i]))
            && container_readable(containers.last()) {
            assert forall|i: int| 0 <= i < containers.len() implies container_readable(
                #[trigger] containers[i],
            ) by {
                if i < shorter.len() {
                    assert(container_readable(shorter[i]));
                }
            }
        }
    }
}

proof fn lemma_floating_readable(state: FocusMap, windows: Seq<JsonTree>, foreground: isize)
    ensures
        crate::komorebi::after_floating(state, windows, foreground) is Ok <==> forall|i: int|
            0 <= i < windows.len() ==> holds_handle(#[trigger] windows[i]),
    decreases windows.len(),
{
    if windows.len() > 0 {
        let shorter = windows.drop_last();
        lemma_floating_readable(state, shorter, foreground);
        if forall|i: int| 0 <= i < windows.len() ==> holds_handle(#[trigger] windows[i]) {
            assert forall|i: int| 0 <= i < shorter.len() implies holds_handle(
                #[trigger] shorter[i],
            ) by {
                assert(holds_handle(windows[i]));
            }
            assert(holds_handle(windows[windows.len() - 1]));
        }
        if (forall|i: int| 0 <= i < shorter.len() ==> holds_handle(#[trigger] shorter[i]))
            && holds_handle(windows.last()) {
            assert forall|i: int| 0 <= i < windows.len() implies holds_handle(
                #[trigger] windows[i],
            ) by {
                if i < shorter.len() {
                    assert(holds_handle(shorter[i]));
                }
            }
        }
    }
}

proof fn lemma_workspace_readable(
    state: FocusMap,
    workspace: JsonTree,
    on_focused_monitor: bool,
    foreground: isize,
)
    ensures
        crate::komorebi::after_workspace(state, workspace, on_focused_monitor, foreground) is Ok
            <==> workspace_readable(workspace),
{
    let monocle = crate::komorebi::after_monocle(
        state,
        workspace.member("monocle_container"@),
        on_focused_monitor,
    );
    if monocle is Ok {
        if let Some(containers) = workspace.member("containers"@).member("elements"@).elements() {
            let focused = if containers.len() == 0 {
                0usize
            } else {
                workspace.member("containers"@).member("focused"@).unsigned()->0 as usize
            };
            lemma_containers_readable(
                monocle->Ok_0,
                containers,
                focused,
                on_focused_monitor,
                foreground,
            );
            let after = crate::komorebi::after_containers(
                monocle->Ok_0,
                containers,
                focused,
                on_focused_monitor,
                foreground,
            );
            if after is Ok {
                if let Some(floating) = workspace.member("floating_windows"@).member(
                    "elements"@,
                ).elements() {
                    lemma_floating_readable(after->Ok_0, floating, foreground);
                }
            }
        }
    }
}

proof fn lemma_monitors_readable(
    state: FocusMap,
    monitors: Seq<JsonTree>,
    focused: usize,
    foreground: isize,
)
    ensures
        crate::komorebi::after_monitors(state, monitors, focused, foreground) is Ok <==> forall|
            i: int,
        |
            0 <= i < monitors.len() ==> monitor_readable(#[trigger] monitors[i]),
    decreases monitors.len(),
{
    if monitors.len() > 0 {
        let shorter = monitors.drop_last();
        lemma_monitors_readable(state, shorter, focused, foreground);
        if let Ok(earlier) = crate::komorebi::after_monitors(state, shorter, focused, foreground) {
            let workspaces = monitors.last().member("workspaces"@);
            if let Some(elements) = workspaces.member("elements"@).elements() {
                if chooses_among(workspaces.member("focused"@), elements.len()) {
                    lemma_workspace_readable(
                        earlier,
                        elements[workspaces.member("focused"@).unsigned()->0 as int],
                        monitors.len() - 1 == focused,
                        foreground,
                    );
                }
            }
        }
        if forall|i: int| 0 <= i < monitors.len() ==> monitor_readable(#[trigger] monitors[i]) {
            assert forall|i: int| 0 <= i < shorter.len() implies monitor_readable(
                #[trigger] shorter[i],
            ) by {
                assert(monitor_readable(monitors[i]));
            }
            assert(monitor_readable(monitors[monitors.len() - 1]));
        }
        if (forall|i: int| 0 <= i < shorter.len() ==> monitor_readable(#[trigger] shorter[i]))
            && monitor_readable(monitors.last()) {
            assert forall|i: int| 0 <= i < monitors.len() implies monitor_readable(
                #[trigger] monitors[i],
            ) by {
                if i < shorter.len() {
                    assert(monitor_readable(shorter[i]));
                }
            }
        }
    }
}

/// A notification is taken in exactly if each part of it that is looked at can be read: the monitors
/// and which of them has the focus, and of each monitor the workspace that it shows, with the windows
/// that it names. A monitor without workspaces, a workspace without containers and one without a
/// monocle container are fine.
pub proof fn law_readable_notifications_are_taken_in(
    previous: FocusMap,
    notification: JsonTree,
    foreground: isize,
)
    ensures
        ({
            let monitors = notification.member("state"@).member("monitors"@);
            crate::komorebi::after_notification(previous, notification, foreground) is Ok <==> {
                &&& monitors.member("elements"@).elements() matches Some(elements)
                    && chooses_among(monitors.member("focused"@), elements.len()) && forall|i: int|
                    0 <= i < elements.len() ==> monitor_readable(#[trigger] elements[i])
            }
        }),
{
    let monitors = notification.member("state"@).member("monitors"@);
    if let Some(elements) = monitors.member("elements"@).elements() {
        if chooses_among(monitors.member("focused"@), elements.len()) {
            lemma_monitors_readable(
                previous,
                elements,
                monitors.member("focused"@).unsigned()->0 as usize,
                foreground,
            );
        }
    }
}

/// What cannot be read is reported with its place and with what is wrong: no array, no unsigned
/// number, an index too far, a handle that is no signed number.
pub proof fn law_unreadable_parts_are_reported(
    value: JsonTree,
    field: NotificationField,
    count: nat,
)
    requires
        count <= usize::MAX,
    ensures
        value !is Array ==> crate::komorebi::read_array(value, field) == Err::<
            Seq<JsonTree>,
            SchemaError,
        >(SchemaError::NotAnArray(field)),
        value.unsigned() is None ==> crate::komorebi::read_choice(value, field, count) == Err::<
            usize,
            SchemaError,
        >(SchemaError::NotUnsigned(field)),
        value.unsigned() matches Some(index) ==> (count <= index <= usize::MAX
            ==> crate::komorebi::read_choice(value, field, count) == Err::<usize, SchemaError>(
            SchemaError::OutOfBounds { field, index: index as usize, count: count as usize },
        )),
        value.unsigned() matches Some(index) ==> (index < count ==> crate::komorebi::read_choice(
            value,
            field,
            count,
        ) == Ok::<usize, SchemaError>(index as usize)),
        value.signed() is None ==> crate::komorebi::read_hwnd(value, field) == Err::<
            isize,
            SchemaError,
        >(SchemaError::NotSigned(field)),
        value.signed() matches Some(hwnd) ==> (isize::MIN <= hwnd <= isize::MAX
            ==> crate::komorebi::read_hwnd(value, field) == Ok::<isize, SchemaError>(
            hwnd as isize,
        )),
{
}

/// A border is recolored exactly where its window's kind has changed and that change is not the one
/// between a single and an unfocused window, which the active and inactive colors show already. The
/// list names each such window once, in ascending order.
pub proof fn law_recoloring_follows_changes_of_kind(
    hwnds: Seq<isize>,
    before: FocusMap,
    after: FocusMap,
    hwnd: isize,
)
    requires
        crate::komorebi::lists_recolored(hwnds, before, after),
    ensures
        ({
            let changed = before.contains_key(hwnd) != after.contains_key(hwnd) || (
            before.contains_key(hwnd) && before[hwnd] != after[hwnd]);
            let plain = |state: FocusMap|
                state.contains_key(hwnd) && (state[hwnd] is Single || state[hwnd] is Unfocused);
            hwnds.contains(hwnd) <==> changed && !(plain(before) && plain(after))
        }),
        hwnds.no_duplicates(),
{
}

/// A recolored window is named in both directions alike: going from one state to another asks for
/// the same borders as going back.
pub proof fn law_recoloring_is_symmetric(there: Option<WindowKind>, back: Option<WindowKind>)
    ensures
        crate::komorebi::needs_recolor(there, back) == crate::komorebi::needs_recolor(back, there),
        !crate::komorebi::needs_recolor(there, there),
{
}

/// The first part that cannot be read decides which error is reported, and the error names it.
pub proof fn law_errors_name_their_place(
    state: FocusMap,
    value: JsonTree,
    in_focus: bool,
    foreground: isize,
)
    ensures
        ({
            let windows = value.member("windows"@);
            let elements = windows.member("elements"@).elements();
            let focused = windows.member("focused"@).unsigned();
            let monocle = crate::komorebi::after_monocle(state, value, in_focus);
            let container = crate::komorebi::after_container(state, value, in_focus, foreground);
            &&& value is Null ==> monocle == Ok::<FocusMap, SchemaError>(state)
            &&& value !is Null && elements is None ==> monocle == Err::<FocusMap, SchemaError>(
                SchemaError::NotAnArray(NotificationField::MonocleWindows),
            )
            &&& elements matches Some(listed) ==> (listed.len() == 0 ==> monocle == Err::<
                FocusMap,
                SchemaError,
            >(SchemaError::EmptyMonocle))
            &&& elements matches Some(listed) ==> (listed.len() > 0 && listed[0].member(
                "hwnd"@,
            ).signed() is None ==> monocle == Err::<FocusMap, SchemaError>(
                SchemaError::NotSigned(NotificationField::MonocleHwnd),
            ))
            &&& elements is None ==> container == Err::<FocusMap, SchemaError>(
                SchemaError::NotAnArray(NotificationField::ContainerWindows),
            )
            &&& elements is Some && focused is None ==> container == Err::<FocusMap, SchemaError>(
                SchemaError::NotUnsigned(NotificationField::FocusedWindow),
            )
            &&& elements matches Some(listed) ==> (focused matches Some(index) ==> (listed.len()
                <= index <= usize::MAX ==> container == Err::<FocusMap, SchemaError>(
                SchemaError::OutOfBounds {
                    field: NotificationField::FocusedWindow,
                    index: index as usize,
                    count: listed.len() as usize,
                },
            )))
            &&& elements matches Some(listed) ==> (focused matches Some(index) ==> (index
                < listed.len() && index <= usize::MAX && listed[index as int].member(
                "hwnd"@,
            ).signed() is None ==> container == Err::<FocusMap, SchemaError>(
                SchemaError::NotSigned(NotificationField::ContainerHwnd),
            )))
        }),
        ({
            let workspaces = value.member("workspaces"@);
            let elements = workspaces.member("elements"@).elements();
            let focused = workspaces.member("focused"@).unsigned();
            let monitor = crate::komorebi::after_monitor(state, value, in_focus, foreground);
            &&& elements is None ==> monitor == Err::<FocusMap, SchemaError>(
                SchemaError::NotAnArray(NotificationField::Workspaces),
            )
            &&& elements matches Some(listed) ==> (listed.len() == 0 ==> monitor == Ok::<
                FocusMap,
                SchemaError,
            >(state))
            &&& elements matches Some(listed) ==> (listed.len() > 0 && focused is None ==> monitor
                == Err::<FocusMap, SchemaError>(
                SchemaError::NotUnsigned(NotificationField::FocusedWorkspace),
            ))
            &&& elements matches Some(listed) ==> (focused matches Some(index) ==> (listed.len() > 0
                && listed.len() <= index <= usize::MAX ==> monitor == Err::<FocusMap, SchemaError>(
                SchemaError::OutOfBounds {
                    field: NotificationField::FocusedWorkspace,
                    index: index as usize,
                    count: listed.len() as usize,
                },
            )))
        }),
        ({
            let monitors = value.member("state"@).member("monitors"@);
            let elements = monitors.member("elements"@).elements();
            let focused = monitors.member("focused"@).unsigned();
            let whole = crate::komorebi::after_notification(state, value, foreground);
            &&& elements is None ==> whole == Err::<FocusMap, SchemaError>(
                SchemaError::NotAnArray(NotificationField::Monitors),
            )
            &&& elements is Some && focused is None ==> whole == Err::<FocusMap, SchemaError>(
                SchemaError::NotUnsigned(NotificationField::FocusedMonitor),
            )
            &&& elements matches Some(listed) ==> (focused matches Some(index) ==> (listed.len()
                <= index <= usize::MAX ==> whole == Err::<FocusMap, SchemaError>(
                SchemaError::OutOfBounds {
                    field: NotificationField::FocusedMonitor,
                    index: index as usize,
                    count: listed.len() as usize,
                },
            )))
        }),
{
}

/// The same for a workspace without a monocle container: its containers, which of them has the
/// focus, and its floating windows.
pub proof fn law_workspace_errors_name_their_place(
    state: FocusMap,
    workspace: JsonTree,
    in_focus: bool,
    foreground: isize,
)
    requires
        workspace.member("monocle_container"@) is Null,
    ensures
        ({
            let containers = workspace.member("containers"@);
            let elements = containers.member("elements"@).elements();
            let focused = containers.member("focused"@).unsigned();
            let floating = workspace.member("floating_windows"@).member("elements"@).elements();
            let after = crate::komorebi::after_workspace(state, workspace, in_focus, foreground);
            &&& elements is None ==> after == Err::<FocusMap, SchemaError>(
                SchemaError::NotAnArray(NotificationField::Containers),
            )
            &&& elements matches Some(listed) ==> (listed.len() > 0 && focused is None ==> after
                == Err::<FocusMap, SchemaError>(
                SchemaError::NotUnsigned(NotificationField::FocusedContainer),
            ))
            &&& elements matches Some(listed) ==> (focused matches Some(index) ==> (listed.len() > 0
                && listed.len() <= index <= usize::MAX ==> after == Err::<FocusMap, SchemaError>(
                SchemaError::OutOfBounds {
                    field: NotificationField::FocusedContainer,
                    index: index as usize,
                    count: listed.len() as usize,
                },
            )))
            &&& elements matches Some(listed) ==> (listed.len() == 0 && floating is None ==> after
                == Err::<FocusMap, SchemaError>(
                SchemaError::NotAnArray(NotificationField::FloatingWindows),
            ))
            &&& elements matches Some(listed) ==> (floating matches Some(windows) ==> (listed.len()
                == 0 && windows.len() == 1 && windows[0].member("hwnd"@).signed() is None ==> after
                == Err::<FocusMap, SchemaError>(
                SchemaError::NotSigned(NotificationField::FloatingHwnd),
            )))
        }),
{
    if let Some(windows) = workspace.member("floating_windows"@).member("elements"@).elements() {
        if windows.len() == 1 {
            reveal_with_fuel(crate::komorebi::after_floating, 2);
        }
    }
}

/// Only the bytes that were received count: what else is in the buffer changes nothing. A count that
/// the buffer cannot hold is refused whatever it holds.
pub proof fn law_only_received_bytes_count(
    previous: FocusMap,
    buffer: Seq<u8>,
    other: Seq<u8>,
    bytes_received: u32,
    foreground: isize,
)
    ensures
        bytes_received <= buffer.len() && bytes_received <= other.len() && (forall|i: int|
            0 <= i < bytes_received ==> buffer[i] == other[i]) ==> crate::komorebi::notification_effect(
            previous,
            buffer,
            bytes_received,
            foreground,
        ) == crate::komorebi::notification_effect(previous, other, bytes_received, foreground),
        bytes_received > buffer.len() <==> crate::komorebi::notification_effect(
            previous,
            buffer,
            bytes_received,
            foreground,
        ) == Err::<FocusMap, crate::komorebi::NotificationError>(
            crate::komorebi::NotificationError::ExceedsBuffer,
        ),
        bytes_received == buffer.len() && crate::json::parsed_slice(buffer) is None
            ==> crate::komorebi::notification_effect(previous, buffer, bytes_received, foreground)
            == Err::<FocusMap, crate::komorebi::NotificationError>(
            crate::komorebi::NotificationError::NotJson,
        ),
        bytes_received == buffer.len() ==> (crate::json::parsed_slice(buffer) matches Some(
            notification,
        ) ==> (crate::komorebi::after_notification(previous, notification, foreground) matches Ok(
            next,
        ) ==> crate::komorebi::notification_effect(previous, buffer, bytes_received, foreground)
            == Ok::<FocusMap, crate::komorebi::NotificationError>(next))),
        bytes_received == buffer.len() ==> (crate::json::parsed_slice(buffer) matches Some(
            notification,
        ) ==> (crate::komorebi::after_notification(previous, notification, foreground) matches Err(
            error,
        ) ==> crate::komorebi::notification_effect(previous, buffer, bytes_received, foreground)
            == Err::<FocusMap, crate::komorebi::NotificationError>(
            crate::komorebi::NotificationError::Schema(error),
        ))),
{
    if bytes_received <= buffer.len() && bytes_received <= other.len() && (forall|i: int|
        0 <= i < bytes_received ==> buffer[i] == other[i]) {
        assert(buffer.take(bytes_received as int) =~= other.take(bytes_received as int));
    }
    if bytes_received == buffer.len() {
        assert(buffer.take(bytes_received as int) =~= buffer);
    }
}

} // verus!
