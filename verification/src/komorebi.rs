//! Window kinds reported by the komorebi tiling manager.

use std::collections::HashMap;
use vstd::prelude::*;

use crate::colors::ColorBrushConfig;
use crate::json::{parse_slice, Json, JsonTree};
use crate::keys::keys_of;
use crate::sorted::{has_handle, insert_handle};

verus! {

broadcast use vstd::std_specs::hash::group_hash_axioms;

#[derive(Debug, Clone, PartialEq, Eq)]
pub struct KomorebiColorsConfig {
    pub stack_color: Option<ColorBrushConfig>,
    pub monocle_color: Option<ColorBrushConfig>,
    pub floating_color: Option<ColorBrushConfig>,
    pub enabled: bool,
}

impl Default for KomorebiColorsConfig {
    /// No colors, and switched off.
    fn default() -> (colors: Self)
        ensures
            colors == (KomorebiColorsConfig {
                stack_color: None,
                monocle_color: None,
                floating_color: None,
                enabled: false,
            }),
    {
        KomorebiColorsConfig {
            stack_color: None,
            monocle_color: None,
            floating_color: None,
            enabled: false,
        }
    }
}

#[derive(Debug, Clone, Copy, PartialEq, Eq, Structural)]
pub enum WindowKind {
    Single,
    Stack,
    Monocle,
    Unfocused,
    Floating,
}

/// A place in a notification that its reading depends on.
#[derive(Debug, Clone, Copy, PartialEq, Eq, Structural)]
pub enum NotificationField {
    Monitors,
    FocusedMonitor,
    Workspaces,
    FocusedWorkspace,
    MonocleWindows,
    MonocleHwnd,
    Containers,
    FocusedContainer,
    ContainerWindows,
    FocusedWindow,
    ContainerHwnd,
    FloatingWindows,
    FloatingHwnd,
}

/// Why a notification does not follow the schema.
#[derive(Debug, Clone, Copy, PartialEq, Eq, Structural)]
pub enum SchemaError {
    NotAnArray(NotificationField),
    NotUnsigned(NotificationField),
    NotSigned(NotificationField),
    OutOfRange(NotificationField),
    OutOfBounds { field: NotificationField, index: usize, count: usize },
    EmptyMonocle,
}

/// Why a notification left the focus state as it was.
#[derive(Debug, Clone, Copy, PartialEq, Eq, Structural)]
pub enum NotificationError {
    ExceedsBuffer,
    NotJson,
    Schema(SchemaError),
}

/// What is known of each tracked window.
pub type FocusMap = Map<isize, WindowKind>;

pub open spec fn read_array(value: JsonTree, field: NotificationField) -> Result<
    Seq<JsonTree>,
    SchemaError,
> {
    match value.elements() {
        Some(items) => Ok(items),
        None => Err(SchemaError::NotAnArray(field)),
    }
}

pub open spec fn read_index(value: JsonTree, field: NotificationField) -> Result<
    usize,
    SchemaError,
> {
    match value.unsigned() {
        None => Err(SchemaError::NotUnsigned(field)),
        Some(index) => if index <= usize::MAX {
            Ok(index as usize)
        } else {
            Err(SchemaError::OutOfRange(field))
        },
    }
}

pub open spec fn read_hwnd(value: JsonTree, field: NotificationField) -> Result<
    isize,
    SchemaError,
> {
    match value.signed() {
        None => Err(SchemaError::NotSigned(field)),
        Some(hwnd) => if isize::MIN <= hwnd <= isize::MAX {
            Ok(hwnd as isize)
        } else {
            Err(SchemaError::OutOfRange(field))
        },
    }
}

/// An index that has to name one of `count` things.
pub open spec fn read_choice(
    value: JsonTree,
    field: NotificationField,
    count: nat,
) -> Result<usize, SchemaError> {
    match read_index(value, field) {
        Err(error) => Err(error),
        Ok(index) => if index < count {
            Ok(index)
        } else {
            Err(SchemaError::OutOfBounds { field, index, count: count as usize })
        },
    }
}

/// A monocle container takes the whole workspace: its first window is what the user sees there.
pub open spec fn after_monocle(
    state: FocusMap,
    monocle: JsonTree,
    on_focused_monitor: bool,
) -> Result<FocusMap, SchemaError> {
    if monocle == JsonTree::Null {
        Ok(state)
    } else {
        match read_array(
            monocle.member("windows"@).member("elements"@),
            NotificationField::MonocleWindows,
        ) {
            Err(error) => Err(error),
            Ok(windows) => if windows.len() == 0 {
                Err(SchemaError::EmptyMonocle)
            } else {
                match read_hwnd(windows[0].member("hwnd"@), NotificationField::MonocleHwnd) {
                    Err(error) => Err(error),
                    Ok(hwnd) => Ok(
                        state.insert(
                            hwnd,
                            if on_focused_monitor {
                                WindowKind::Monocle
                            } else {
                                WindowKind::Unfocused
                            },
                        ),
                    ),
                }
            },
        }
    }
}

/// A container shows its focused window. That window counts as focused only where container,
/// monitor and foreground window all agree.
pub open spec fn after_container(
    state: FocusMap,
    container: JsonTree,
    in_focus: bool,
    foreground: isize,
) -> Result<FocusMap, SchemaError> {
    let windows = container.member("windows"@);
    match read_array(windows.member("elements"@), NotificationField::ContainerWindows) {
        Err(error) => Err(error),
        Ok(elements) => match read_choice(
            windows.member("focused"@),
            NotificationField::FocusedWindow,
            elements.len(),
        ) {
            Err(error) => Err(error),
            Ok(focused) => match read_hwnd(
                elements[focused as int].member("hwnd"@),
                NotificationField::ContainerHwnd,
            ) {
                Err(error) => Err(error),
                Ok(hwnd) => Ok(
                    state.insert(
                        hwnd,
                        if !in_focus || hwnd != foreground {
                            WindowKind::Unfocused
                        } else if elements.len() > 1 {
                            WindowKind::Stack
                        } else {
                            WindowKind::Single
                        },
                    ),
                ),
            },
        },
    }
}

pub open spec fn after_containers(
    state: FocusMap,
    containers: Seq<JsonTree>,
    focused: usize,
    on_focused_monitor: bool,
    foreground: isize,
) -> Result<FocusMap, SchemaError>
    decreases containers.len(),
{
    if containers.len() == 0 {
        Ok(state)
    } else {
        match after_containers(
            state,
            containers.drop_last(),
            focused,
            on_focused_monitor,
            foreground,
        ) {
            Err(error) => Err(error),
            Ok(earlier) => after_container(
                earlier,
                containers.last(),
                containers.len() - 1 == focused && on_focused_monitor,
                foreground,
            ),
        }
    }
}

pub open spec fn after_floating(
    state: FocusMap,
    windows: Seq<JsonTree>,
    foreground: isize,
) -> Result<FocusMap, SchemaError>
    decreases windows.len(),
{
    if windows.len() == 0 {
        Ok(state)
    } else {
        match after_floating(state, windows.drop_last(), foreground) {
            Err(error) => Err(error),
            Ok(earlier) => match read_hwnd(
                windows.last().member("hwnd"@),
                NotificationField::FloatingHwnd,
            ) {
                Err(error) => Err(error),
                Ok(hwnd) => Ok(
                    earlier.insert(
                        hwnd,
                        if hwnd == foreground {
                            WindowKind::Floating
                        } else {
                            WindowKind::Unfocused
                        },
                    ),
                ),
            },
        }
    }
}

pub open spec fn after_workspace(
    state: FocusMap,
    workspace: JsonTree,
    on_focused_monitor: bool,
    foreground: isize,
) -> Result<FocusMap, SchemaError> {
    match after_monocle(state, workspace.member("monocle_container"@), on_focused_monitor) {
        Err(error) => Err(error),
        Ok(with_monocle) => match read_array(
            workspace.member("containers"@).member("elements"@),
            NotificationField::Containers,
        ) {
            Err(error) => Err(error),
            Ok(containers) => match if containers.len() == 0 {
                Ok(0usize)
            } else {
                read_choice(
                    workspace.member("containers"@).member("focused"@),
                    NotificationField::FocusedContainer,
                    containers.len(),
                )
            } {
                Err(error) => Err(error),
                Ok(focused) => match after_containers(
                    with_monocle,
                    containers,
                    focused,
                    on_focused_monitor,
                    foreground,
                ) {
                    Err(error) => Err(error),
                    Ok(with_containers) => match read_array(
                        workspace.member("floating_windows"@).member("elements"@),
                        NotificationField::FloatingWindows,
                    ) {
                        Err(error) => Err(error),
                        Ok(floating) => after_floating(with_containers, floating, foreground),
                    },
                },
            },
        },
    }
}

/// A monitor shows its focused workspace, if it has any workspace at all.
pub open spec fn after_monitor(
    state: FocusMap,
    monitor: JsonTree,
    is_focused: bool,
    foreground: isize,
) -> Result<FocusMap, SchemaError> {
    let workspaces = monitor.member("workspaces"@);
    match read_array(workspaces.member("elements"@), NotificationField::Workspaces) {
        Err(error) => Err(error),
        Ok(elements) => if elements.len() == 0 {
            Ok(state)
        } else {
            match read_choice(
                workspaces.member("focused"@),
                NotificationField::FocusedWorkspace,
                elements.len(),
            ) {
                Err(error) => Err(error),
                Ok(focused) => after_workspace(
                    state,
                    elements[focused as int],
                    is_focused,
                    foreground,
                ),
            }
        },
    }
}

pub open spec fn after_monitors(
    state: FocusMap,
    monitors: Seq<JsonTree>,
    focused: usize,
    foreground: isize,
) -> Result<FocusMap, SchemaError>
    decreases monitors.len(),
{
    if monitors.len() == 0 {
        Ok(state)
    } else {
        match after_monitors(state, monitors.drop_last(), focused, foreground) {
            Err(error) => Err(error),
            Ok(earlier) => after_monitor(
                earlier,
                monitors.last(),
                monitors.len() - 1 == focused,
                foreground,
            ),
        }
    }
}

/// The focus state once a notification has been taken in. Windows that it does not name keep the
/// kind they had.
pub open spec fn after_notification(
    previous: FocusMap,
    notification: JsonTree,
    foreground: isize,
) -> Result<FocusMap, SchemaError> {
    let monitors = notification.member("state"@).member("monitors"@);
    match read_array(monitors.member("elements"@), NotificationField::Monitors) {
        Err(error) => Err(error),
        Ok(elements) => match read_choice(
            monitors.member("focused"@),
            NotificationField::FocusedMonitor,
            elements.len(),
        ) {
            Err(error) => Err(error),
            Ok(focused) => after_monitors(previous, elements, focused, foreground),
        },
    }
}

/// What becomes of the focus state when `bytes_received` bytes of `buffer` arrive: the next state,
/// or why there is none.
pub open spec fn notification_effect(
    previous: FocusMap,
    buffer: Seq<u8>,
    bytes_received: u32,
    foreground: isize,
) -> Result<FocusMap, NotificationError> {
    if bytes_received > buffer.len() {
        Err(NotificationError::ExceedsBuffer)
    } else {
        match crate::json::parsed_slice(buffer.take(bytes_received as int)) {
            None => Err(NotificationError::NotJson),
            Some(notification) => match after_notification(previous, notification, foreground) {
                Ok(next) => Ok(next),
                Err(error) => Err(NotificationError::Schema(error)),
            },
        }
    }
}

/// Whether a window's border looks different now. Moving between a lone window and an unfocused one
/// is already told apart by the active and inactive colors.
pub open spec fn needs_recolor(before: Option<WindowKind>, after: Option<WindowKind>) -> bool {
    let plain = |kind: Option<WindowKind>|
        kind == Some(WindowKind::Single) || kind == Some(WindowKind::Unfocused);
    before != after && !(plain(before) && plain(after))
}

pub open spec fn kind_in(state: FocusMap, hwnd: isize) -> Option<WindowKind> {
    if state.contains_key(hwnd) {
        Some(state[hwnd])
    } else {
        None
    }
}

/// The windows whose border has to change with the focus state, in ascending order.
pub open spec fn lists_recolored(hwnds: Seq<isize>, before: FocusMap, after: FocusMap) -> bool {
    &&& crate::sorted::ascending(hwnds)
    &&& forall|hwnd: isize| #[trigger]
        hwnds.contains(hwnd) <==> needs_recolor(kind_in(before, hwnd), kind_in(after, hwnd))
}

/// The member of a member, absent where either is.
fn nested<'a>(value: &'a Json, outer: &str, inner: &str) -> (member: Option<&'a Json>)
    ensures
        match member {
            Some(found) => found.tree() == value.tree().member(outer@).member(inner@),
            None => value.tree().member(outer@).member(inner@) == JsonTree::Null,
        },
{
    match value.get(outer) {
        Some(found) => found.get(inner),
        None => None,
    }
}

fn array_at<'a>(value: Option<&'a Json>, field: NotificationField) -> (items: Result<
    &'a Vec<Json>,
    SchemaError,
>)
    ensures
        match (items, read_array(optional_tree(value), field)) {
            (Ok(found), Ok(expected)) => crate::json::trees(found@) == expected,
            (Err(error), Err(expected)) => error == expected,
            _ => false,
        },
{
    match value {
        Some(found) => match found.as_array() {
            Some(items) => Ok(items),
            None => Err(SchemaError::NotAnArray(field)),
        },
        None => Err(SchemaError::NotAnArray(field)),
    }
}

/// A member as read: an absent one is null.
pub open spec fn optional_tree(value: Option<&Json>) -> JsonTree {
    match value {
        Some(found) => found.tree(),
        None => JsonTree::Null,
    }
}

fn recolor_needed(before: Option<&WindowKind>, after: Option<&WindowKind>) -> (needed: bool)
    ensures
        needed == needs_recolor(
            match before {
                Some(kind) => Some(*kind),
                None => None,
            },
            match after {
                Some(kind) => Some(*kind),
                None => None,
            },
        ),
{
    match (before, after) {
        (Some(before), Some(after)) => {
            let was_plain = *before == WindowKind::Single || *before == WindowKind::Unfocused;
            let is_plain = *after == WindowKind::Single || *after == WindowKind::Unfocused;
            *before != *after && !(was_plain && is_plain)
        },
        (None, None) => false,
        _ => true,
    }
}

/// The handles among `handles` whose kind changed visibly, added to `changed`.
fn add_recolored(
    changed: &mut Vec<isize>,
    handles: &Vec<isize>,
    before: &HashMap<isize, WindowKind>,
    after: &HashMap<isize, WindowKind>,
)
    requires
        crate::sorted::ascending(old(changed)@),
    ensures
        crate::sorted::ascending(final(changed)@),
        forall|hwnd: isize| #[trigger]
            final(changed)@.contains(hwnd) <==> old(changed)@.contains(hwnd) || (handles@.contains(
                hwnd,
            ) && needs_recolor(kind_in(before@, hwnd), kind_in(after@, hwnd))),
{
    for i in 0..handles.len()
        invariant
            crate::sorted::ascending(changed@),
            forall|hwnd: isize| #[trigger]
                changed@.contains(hwnd) <==> old(changed)@.contains(hwnd) || (handles@.take(
                    i as int,
                ).contains(hwnd) && needs_recolor(kind_in(before@, hwnd), kind_in(after@, hwnd))),
    {
        let hwnd: isize = handles[i];
        if recolor_needed(before.get(&hwnd), after.get(&hwnd)) {
            insert_handle(changed, hwnd);
        }
        proof {
            let shorter = handles@.take(i as int);
            let longer = handles@.take(i + 1);
            assert(longer =~= shorter.push(hwnd));
            assert forall|other: isize| longer.contains(other) == (shorter.contains(other) || other
                == hwnd) by {
                if shorter.contains(other) {
                    let k = choose|k: int| 0 <= k < shorter.len() && shorter[k] == other;
                    assert(longer[k] == other);
                }
                assert(longer[i as int] == hwnd);
            }
        }
    }
    assert(handles@.take(handles@.len() as int) =~= handles@);
}

/// How long focus state lives before windows that are gone are dropped from it, in nanoseconds.
pub const FOCUS_STATE_PRUNE_INTERVAL_NS: u64 = 600_000_000_000;

/// How long to wait before asking komorebi once more for notifications, in nanoseconds.
pub const SUBSCRIBE_RETRY_INTERVAL_NS: u64 = 15_000_000_000;

#[derive(Debug, Clone, Copy, PartialEq, Eq, Structural)]
pub enum SubscribeEvent {
    /// The subscriber is about to try, for the first time or after a pause.
    Ready { stopped: bool },
    Sent,
    SendFailed,
}

#[derive(Debug, Clone, Copy, PartialEq, Eq, Structural)]
pub enum SubscribeAction {
    Send,
    Pause { for_ns: u64 },
    Finish,
}

/// What the subscriber does next. Komorebi may not be running yet, so a failed request is repeated
/// until it succeeds or the integration stops.
pub fn next_subscribe_action(event: SubscribeEvent) -> (action: SubscribeAction)
    ensures
        action == subscribe_action_for(event),
        action == (match event {
            SubscribeEvent::Ready { stopped } => if stopped {
                SubscribeAction::Finish
            } else {
                SubscribeAction::Send
            },
            SubscribeEvent::Sent => SubscribeAction::Finish,
            SubscribeEvent::SendFailed => SubscribeAction::Pause {
                for_ns: SUBSCRIBE_RETRY_INTERVAL_NS,
            },
        }),
{
    match event {
        SubscribeEvent::Ready { stopped } => if stopped {
            SubscribeAction::Finish
        } else {
            SubscribeAction::Send
        },
        SubscribeEvent::Sent => SubscribeAction::Finish,
        SubscribeEvent::SendFailed => SubscribeAction::Pause {
            for_ns: SUBSCRIBE_RETRY_INTERVAL_NS,
        },
    }
}

/// The windows that komorebi manages, and the kind that it last gave each of them.
#[derive(Debug)]
pub struct KomorebiIntegration {
    pub focus_state: HashMap<isize, WindowKind>,
    pub last_prune_ns: u64,
}

impl KomorebiIntegration {
    pub fn new(now_ns: u64) -> (integration: Self)
        ensures
            integration.focus_state@ == Map::<isize, WindowKind>::empty(),
            integration.last_prune_ns == now_ns,
    {
        KomorebiIntegration { focus_state: HashMap::new(), last_prune_ns: now_ns }
    }

    /// Whether it is time to ask the system which of the tracked windows still exist.
    pub fn prune_due(&self, now_ns: u64) -> (due: bool)
        ensures
            due == pruning_due(self.last_prune_ns, now_ns),
            due == (now_ns - self.last_prune_ns > FOCUS_STATE_PRUNE_INTERVAL_NS),
    {
        now_ns > self.last_prune_ns && now_ns - self.last_prune_ns > FOCUS_STATE_PRUNE_INTERVAL_NS
    }

    /// Every tracked window, each once, in no particular order.
    pub fn known_windows(&self) -> (handles: Vec<isize>)
        ensures
            crate::keys::lists_keys(handles@, self.focus_state@.dom()),
    {
        keys_of(&self.focus_state)
    }

    /// Forgets every tracked window that is not among `existing`.
    pub fn prune(&mut self, existing: &Vec<isize>, now_ns: u64)
        ensures
            final(self).last_prune_ns == now_ns,
            final(self).focus_state@ == pruned(old(self).focus_state@, existing@),
            final(self).focus_state@ == old(self).focus_state@.restrict(existing@.to_set()),
    {
        let handles = keys_of(&self.focus_state);
        let ghost before = self.focus_state@;
        for i in 0..handles.len()
            invariant
                before == old(self).focus_state@,
                self.focus_state@.dom().subset_of(before.dom()),
                forall|hwnd: isize| #[trigger]
                    self.focus_state@.contains_key(hwnd) ==> self.focus_state@[hwnd]
                        == before[hwnd],
                forall|hwnd: isize| existing@.contains(hwnd) && before.contains_key(hwnd)
                    ==> #[trigger] self.focus_state@.contains_key(hwnd),
                forall|j: int| 0 <= j < i && !existing@.contains(#[trigger] handles@[j])
                    ==> !self.focus_state@.contains_key(handles@[j]),
        {
            if !has_handle(existing, handles[i]) {
                self.focus_state.remove(&handles[i]);
            }
        }
        self.last_prune_ns = now_ns;
        assert forall|hwnd: isize| self.focus_state@.contains_key(hwnd) implies existing@.contains(
            hwnd,
        ) by {
            assert(before.dom().contains(hwnd));
            assert(handles@.to_set().contains(hwnd));
            let j = choose|j: int| 0 <= j < handles@.len() && handles@[j] == hwnd;
            assert(handles@[j] == hwnd);
        }
        assert(self.focus_state@ =~= before.restrict(existing@.to_set()));
    }

    /// Takes in one notification of `bytes_received` bytes and gives the windows whose border has
    /// to be redrawn for it. A notification that does not fit the buffer, is no JSON or breaks the
    /// schema leaves the focus state as it was.
    pub fn process_komorebi_notification(
        &mut self,
        buffer: &[u8],
        bytes_received: u32,
        foreground_window: isize,
    ) -> (changed: Result<Vec<isize>, NotificationError>)
        ensures
            final(self).last_prune_ns == old(self).last_prune_ns,
            match notification_effect(
                old(self).focus_state@,
                buffer@,
                bytes_received,
                foreground_window,
            ) {
                Ok(next) => {
                    &&& final(self).focus_state@ == next
                    &&& changed matches Ok(hwnds)
                    &&& lists_recolored(hwnds@, old(self).focus_state@, next)
                },
                Err(expected) => {
                    &&& final(self).focus_state@ == old(self).focus_state@
                    &&& changed matches Err(error)
                    &&& error == expected
                },
            },
    {
        if bytes_received as usize > buffer.len() {
            return Err(NotificationError::ExceedsBuffer);
        }
        let notification = match parse_slice(
            vstd::slice::slice_subrange(buffer, 0, bytes_received as usize),
        ) {
            Some(notification) => notification,
            None => return Err(NotificationError::NotJson),
        };
        let next = match Self::build_focus_state_from_notification(
            &notification,
            &self.focus_state,
            foreground_window,
        ) {
            Ok(next) => next,
            Err(error) => return Err(NotificationError::Schema(error)),
        };
        let mut changed: Vec<isize> = Vec::new();
        let before_handles = keys_of(&self.focus_state);
        let after_handles = keys_of(&next);
        assert forall|hwnd: isize| self.focus_state@.contains_key(hwnd) == before_handles@.contains(
            hwnd,
        ) by {
            assert(before_handles@.to_set().contains(hwnd) == self.focus_state@.dom().contains(hwnd));
        }
        assert forall|hwnd: isize| next@.contains_key(hwnd) == after_handles@.contains(hwnd) by {
            assert(after_handles@.to_set().contains(hwnd) == next@.dom().contains(hwnd));
        }
        add_recolored(&mut changed, &before_handles, &self.focus_state, &next);
        add_recolored(&mut changed, &after_handles, &self.focus_state, &next);
        self.focus_state = next;
        Ok(changed)
    }

    pub fn komorebi_index(value: Option<&Json>, field: NotificationField) -> (index: Result<
        usize,
        SchemaError,
    >)
        ensures
            index == read_index(optional_tree(value), field),
    {
        match value {
            Some(found) => match found.as_u64() {
                Some(index) => if index <= usize::MAX as u64 {
                    Ok(index as usize)
                } else {
                    Err(SchemaError::OutOfRange(field))
                },
                None => Err(SchemaError::NotUnsigned(field)),
            },
            None => Err(SchemaError::NotUnsigned(field)),
        }
    }

    pub fn komorebi_hwnd(value: Option<&Json>, field: NotificationField) -> (hwnd: Result<
        isize,
        SchemaError,
    >)
        ensures
            hwnd == read_hwnd(optional_tree(value), field),
    {
        match value {
            Some(found) => match found.as_i64() {
                Some(hwnd) => if isize::MIN as i64 <= hwnd && hwnd <= isize::MAX as i64 {
                    Ok(hwnd as isize)
                } else {
                    Err(SchemaError::OutOfRange(field))
                },
                None => Err(SchemaError::NotSigned(field)),
            },
            None => Err(SchemaError::NotSigned(field)),
        }
    }

    fn choice(value: Option<&Json>, field: NotificationField, count: usize) -> (index: Result<
        usize,
        SchemaError,
    >)
        ensures
            index == read_choice(optional_tree(value), field, count as nat),
    {
        match Self::komorebi_index(value, field) {
            Err(error) => Err(error),
            Ok(index) => if index < count {
                Ok(index)
            } else {
                Err(SchemaError::OutOfBounds { field, index, count })
            },
        }
    }

    fn read_monocle(
        state: &mut HashMap<isize, WindowKind>,
        workspace: &Json,
        on_focused_monitor: bool,
    ) -> (read: Result<(), SchemaError>)
        ensures
            match after_monocle(
                old(state)@,
                workspace.tree().member("monocle_container"@),
                on_focused_monitor,
            ) {
                Ok(expected) => read is Ok && final(state)@ == expected,
                Err(expected) => read == Err::<(), SchemaError>(expected),
            },
    {
        let monocle = match workspace.get("monocle_container") {
            Some(monocle) => monocle,
            None => return Ok(()),
        };
        if monocle.is_null() {
            return Ok(());
        }
        let windows = match array_at(
            nested(monocle, "windows", "elements"),
            NotificationField::MonocleWindows,
        ) {
            Ok(windows) => windows,
            Err(error) => return Err(error),
        };
        if windows.len() == 0 {
            return Err(SchemaError::EmptyMonocle);
        }
        match Self::komorebi_hwnd(windows[0].get("hwnd"), NotificationField::MonocleHwnd) {
            Ok(hwnd) => {
                let kind = if on_focused_monitor {
                    WindowKind::Monocle
                } else {
                    WindowKind::Unfocused
                };
                state.insert(hwnd, kind);
                Ok(())
            },
            Err(error) => Err(error),
        }
    }

    fn read_container(
        state: &mut HashMap<isize, WindowKind>,
        container: &Json,
        in_focus: bool,
        foreground: isize,
    ) -> (read: Result<(), SchemaError>)
        ensures
            match after_container(old(state)@, container.tree(), in_focus, foreground) {
                Ok(expected) => read is Ok && final(state)@ == expected,
                Err(expected) => read == Err::<(), SchemaError>(expected),
            },
    {
        let elements = match array_at(
            nested(container, "windows", "elements"),
            NotificationField::ContainerWindows,
        ) {
            Ok(elements) => elements,
            Err(error) => return Err(error),
        };
        let focused: usize = match Self::choice(
            nested(container, "windows", "focused"),
            NotificationField::FocusedWindow,
            elements.len(),
        ) {
            Ok(focused) => focused,
            Err(error) => return Err(error),
        };
        match Self::komorebi_hwnd(elements[focused].get("hwnd"), NotificationField::ContainerHwnd) {
            Ok(hwnd) => {
                let kind = if !in_focus || hwnd != foreground {
                    WindowKind::Unfocused
                } else if elements.len() > 1 {
                    WindowKind::Stack
                } else {
                    WindowKind::Single
                };
                state.insert(hwnd, kind);
                Ok(())
            },
            Err(error) => Err(error),
        }
    }

    fn read_containers(
        state: &mut HashMap<isize, WindowKind>,
        containers: &Vec<Json>,
        focused: usize,
        on_focused_monitor: bool,
        foreground: isize,
    ) -> (read: Result<(), SchemaError>)
        ensures
            match after_containers(
                old(state)@,
                crate::json::trees(containers@),
                focused,
                on_focused_monitor,
                foreground,
            ) {
                Ok(expected) => read is Ok && final(state)@ == expected,
                Err(expected) => read == Err::<(), SchemaError>(expected),
            },
    {
        let ghost all = crate::json::trees(containers@);
        for i in 0..containers.len()
            invariant
                all == crate::json::trees(containers@),
                after_containers(
                    old(state)@,
                    all.take(i as int),
                    focused,
                    on_focused_monitor,
                    foreground,
                ) == Ok::<FocusMap, SchemaError>(state@),
        {
            let read = Self::read_container(
                state,
                &containers[i],
                i == focused && on_focused_monitor,
                foreground,
            );
            assert(all.take(i + 1).drop_last() =~= all.take(i as int));
            if let Err(error) = read {
                proof {
                    lemma_containers_fail_early(
                        old(state)@,
                        all,
                        i + 1,
                        focused,
                        on_focused_monitor,
                        foreground,
                    );
                }
                return Err(error);
            }
        }
        assert(all.take(all.len() as int) =~= all);
        Ok(())
    }

    fn read_floating(
        state: &mut HashMap<isize, WindowKind>,
        windows: &Vec<Json>,
        foreground: isize,
    ) -> (read: Result<(), SchemaError>)
        ensures
            match after_floating(old(state)@, crate::json::trees(windows@), foreground) {
                Ok(expected) => read is Ok && final(state)@ == expected,
                Err(expected) => read == Err::<(), SchemaError>(expected),
            },
    {
        let ghost all = crate::json::trees(windows@);
        for i in 0..windows.len()
            invariant
                all == crate::json::trees(windows@),
                after_floating(old(state)@, all.take(i as int), foreground) == Ok::<
                    FocusMap,
                    SchemaError,
                >(state@),
        {
            assert(all.take(i + 1).drop_last() =~= all.take(i as int));
            match Self::komorebi_hwnd(windows[i].get("hwnd"), NotificationField::FloatingHwnd) {
                Ok(hwnd) => {
                    let kind = if hwnd == foreground {
                        WindowKind::Floating
                    } else {
                        WindowKind::Unfocused
                    };
                    state.insert(hwnd, kind);
                },
                Err(error) => {
                    proof {
                        lemma_floating_fails_early(old(state)@, all, i + 1, foreground);
                    }
                    return Err(error);
                },
            }
        }
        assert(all.take(all.len() as int) =~= all);
        Ok(())
    }

    fn read_workspace(
        state: &mut HashMap<isize, WindowKind>,
        workspace: &Json,
        on_focused_monitor: bool,
        foreground: isize,
    ) -> (read: Result<(), SchemaError>)
        ensures
            match after_workspace(old(state)@, workspace.tree(), on_focused_monitor, foreground) {
                Ok(expected) => read is Ok && final(state)@ == expected,
                Err(expected) => read == Err::<(), SchemaError>(expected),
            },
    {
        if let Err(error) = Self::read_monocle(state, workspace, on_focused_monitor) {
            return Err(error);
        }
        let containers = match array_at(
            nested(workspace, "containers", "elements"),
            NotificationField::Containers,
        ) {
            Ok(containers) => containers,
            Err(error) => return Err(error),
        };
        let focused: usize = if containers.len() == 0 {
            0
        } else {
            match Self::choice(
                nested(workspace, "containers", "focused"),
                NotificationField::FocusedContainer,
                containers.len(),
            ) {
                Ok(focused) => focused,
                Err(error) => return Err(error),
            }
        };
        if let Err(error) = Self::read_containers(
            state,
            containers,
            focused,
            on_focused_monitor,
            foreground,
        ) {
            return Err(error);
        }
        match array_at(
            nested(workspace, "floating_windows", "elements"),
            NotificationField::FloatingWindows,
        ) {
            Ok(floating) => Self::read_floating(state, floating, foreground),
            Err(error) => Err(error),
        }
    }

    fn read_monitor(
        state: &mut HashMap<isize, WindowKind>,
        monitor: &Json,
        is_focused: bool,
        foreground: isize,
    ) -> (read: Result<(), SchemaError>)
        ensures
            match after_monitor(old(state)@, monitor.tree(), is_focused, foreground) {
                Ok(expected) => read is Ok && final(state)@ == expected,
                Err(expected) => read == Err::<(), SchemaError>(expected),
            },
    {
        let workspaces = match array_at(
            nested(monitor, "workspaces", "elements"),
            NotificationField::Workspaces,
        ) {
            Ok(workspaces) => workspaces,
            Err(error) => return Err(error),
        };
        if workspaces.len() == 0 {
            return Ok(());
        }
        match Self::choice(
            nested(monitor, "workspaces", "focused"),
            NotificationField::FocusedWorkspace,
            workspaces.len(),
        ) {
            Ok(focused) => Self::read_workspace(
                state,
                &workspaces[focused],
                is_focused,
                foreground,
            ),
            Err(error) => Err(error),
        }
    }

    /// The focus state that follows from a notification. One that breaks the schema anywhere gives
    /// no state at all, only the first breach.
    pub fn build_focus_state_from_notification(
        notification: &Json,
        previous_focus_state: &HashMap<isize, WindowKind>,
        foreground_window: isize,
    ) -> (next: Result<HashMap<isize, WindowKind>, SchemaError>)
        ensures
            match after_notification(
                previous_focus_state@,
                notification.tree(),
                foreground_window,
            ) {
                Ok(expected) => next matches Ok(state) && state@ == expected,
                Err(expected) => next matches Err(error) && error == expected,
            },
    {
        let monitors = match notification.get("state") {
            Some(state) => state.get("monitors"),
            None => None,
        };
        let elements = match monitors {
            Some(monitors) => monitors.get("elements"),
            None => None,
        };
        let focused = match monitors {
            Some(monitors) => monitors.get("focused"),
            None => None,
        };
        let elements = match array_at(elements, NotificationField::Monitors) {
            Ok(elements) => elements,
            Err(error) => return Err(error),
        };
        let focused: usize = match Self::choice(
            focused,
            NotificationField::FocusedMonitor,
            elements.len(),
        ) {
            Ok(focused) => focused,
            Err(error) => return Err(error),
        };

        let mut state: HashMap<isize, WindowKind> = previous_focus_state.clone();
        let ghost all = crate::json::trees(elements@);
        for i in 0..elements.len()
            invariant
                all == crate::json::trees(elements@),
                after_monitors(
                    previous_focus_state@,
                    all.take(i as int),
                    focused,
                    foreground_window,
                ) == Ok::<FocusMap, SchemaError>(state@),
                after_notification(previous_focus_state@, notification.tree(), foreground_window)
                    == after_monitors(previous_focus_state@, all, focused, foreground_window),
        {
            let read = Self::read_monitor(
                &mut state,
                &elements[i],
                i == focused,
                foreground_window,
            );
            assert(all.take(i + 1).drop_last() =~= all.take(i as int));
            if let Err(error) = read {
                proof {
                    lemma_monitors_fail_early(
                        previous_focus_state@,
                        all,
                        i + 1,
                        focused,
                        foreground_window,
                    );
                }
                return Err(error);
            }
        }
        assert(all.take(all.len() as int) =~= all);
        Ok(state)
    }
}

proof fn lemma_containers_fail_early(
    state: FocusMap,
    containers: Seq<JsonTree>,
    upto: int,
    focused: usize,
    on_focused_monitor: bool,
    foreground: isize,
)
    requires
        0 <= upto <= containers.len(),
        after_containers(
            state,
            containers.take(upto),
            focused,
            on_focused_monitor,
            foreground,
        ) is Err,
    ensures
        after_containers(state, containers, focused, on_focused_monitor, foreground)
            == after_containers(
            state,
            containers.take(upto),
            focused,
            on_focused_monitor,
            foreground,
        ),
    decreases containers.len(),
{
    if upto == containers.len() {
        assert(containers.take(upto) =~= containers);
    } else {
        assert(containers.drop_last().take(upto) =~= containers.take(upto));
        lemma_containers_fail_early(
            state,
            containers.drop_last(),
            upto,
            focused,
            on_focused_monitor,
            foreground,
        );
    }
}

proof fn lemma_floating_fails_early(
    state: FocusMap,
    windows: Seq<JsonTree>,
    upto: int,
    foreground: isize,
)
    requires
        0 <= upto <= windows.len(),
        after_floating(state, windows.take(upto), foreground) is Err,
    ensures
        after_floating(state, windows, foreground) == after_floating(
            state,
            windows.take(upto),
            foreground,
        ),
    decreases windows.len(),
{
    if upto == windows.len() {
        assert(windows.take(upto) =~= windows);
    } else {
        assert(windows.drop_last().take(upto) =~= windows.take(upto));
        lemma_floating_fails_early(state, windows.drop_last(), upto, foreground);
    }
}

proof fn lemma_monitors_fail_early(
    state: FocusMap,
    monitors: Seq<JsonTree>,
    upto: int,
    focused: usize,
    foreground: isize,
)
    requires
        0 <= upto <= monitors.len(),
        after_monitors(state, monitors.take(upto), focused, foreground) is Err,
    ensures
        after_monitors(state, monitors, focused, foreground) == after_monitors(
            state,
            monitors.take(upto),
            focused,
            foreground,
        ),
    decreases monitors.len(),
{
    if upto == monitors.len() {
        assert(monitors.take(upto) =~= monitors);
    } else {
        assert(monitors.drop_last().take(upto) =~= monitors.take(upto));
        lemma_monitors_fail_early(state, monitors.drop_last(), upto, focused, foreground);
    }
}

/// What a notification, or a part of one, does to a focus state when all it does is overlay it:
/// `alone` is its effect on a state that knows no window.
pub open spec fn overlaid(
    state: FocusMap,
    alone: Result<FocusMap, SchemaError>,
) -> Result<FocusMap, SchemaError> {
    match alone {
        Ok(named) => Ok(state.union_prefer_right(named)),
        Err(error) => Err(error),
    }
}

proof fn lemma_insert_overlays(state: FocusMap, named: FocusMap, hwnd: isize, kind: WindowKind)
    ensures
        state.union_prefer_right(named).insert(hwnd, kind) == state.union_prefer_right(
            named.insert(hwnd, kind),
        ),
{
    assert(state.union_prefer_right(named).insert(hwnd, kind) =~= state.union_prefer_right(
        named.insert(hwnd, kind),
    ));
}

proof fn lemma_monocle_overlays(
    state: FocusMap,
    named: FocusMap,
    monocle: JsonTree,
    on_focused_monitor: bool,
)
    ensures
        after_monocle(state.union_prefer_right(named), monocle, on_focused_monitor) == overlaid(
            state,
            after_monocle(named, monocle, on_focused_monitor),
        ),
{
    if let Ok(windows) = read_array(
        monocle.member("windows"@).member("elements"@),
        NotificationField::MonocleWindows,
    ) {
        if let Ok(hwnd) = read_hwnd(windows[0].member("hwnd"@), NotificationField::MonocleHwnd) {
            lemma_insert_overlays(state, named, hwnd, WindowKind::Monocle);
            lemma_insert_overlays(state, named, hwnd, WindowKind::Unfocused);
        }
    }
}

proof fn lemma_container_overlays(
    state: FocusMap,
    named: FocusMap,
    container: JsonTree,
    in_focus: bool,
    foreground: isize,
)
    ensures
        after_container(state.union_prefer_right(named), container, in_focus, foreground)
            == overlaid(state, after_container(named, container, in_focus, foreground)),
{
    if let Ok(elements) = read_array(
        container.member("windows"@).member("elements"@),
        NotificationField::ContainerWindows,
    ) {
        if let Ok(focused) = read_choice(
            container.member("windows"@).member("focused"@),
            NotificationField::FocusedWindow,
            elements.len(),
        ) {
            if let Ok(hwnd) = read_hwnd(
                elements[focused as int].member("hwnd"@),
                NotificationField::ContainerHwnd,
            ) {
                lemma_insert_overlays(state, named, hwnd, WindowKind::Unfocused);
                lemma_insert_overlays(state, named, hwnd, WindowKind::Stack);
                lemma_insert_overlays(state, named, hwnd, WindowKind::Single);
            }
        }
    }
}

proof fn lemma_containers_overlay(
    state: FocusMap,
    named: FocusMap,
    containers: Seq<JsonTree>,
    focused: usize,
    on_focused_monitor: bool,
    foreground: isize,
)
    ensures
        after_containers(
            state.union_prefer_right(named),
            containers,
            focused,
            on_focused_monitor,
            foreground,
        ) == overlaid(
            state,
            after_containers(named, containers, focused, on_focused_monitor, foreground),
        ),
    decreases containers.len(),
{
    if containers.len() > 0 {
        lemma_containers_overlay(
            state,
            named,
            containers.drop_last(),
            focused,
            on_focused_monitor,
            foreground,
        );
        if let Ok(earlier) = after_containers(
            named,
            containers.drop_last(),
            focused,
            on_focused_monitor,
            foreground,
        ) {
            lemma_container_overlays(
                state,
                earlier,
                containers.last(),
                containers.len() - 1 == focused && on_focused_monitor,
                foreground,
            );
        }
    }
}

proof fn lemma_floating_overlays(
    state: FocusMap,
    named: FocusMap,
    windows: Seq<JsonTree>,
    foreground: isize,
)
    ensures
        after_floating(state.union_prefer_right(named), windows, foreground) == overlaid(
            state,
            after_floating(named, windows, foreground),
        ),
    decreases windows.len(),
{
    if windows.len() > 0 {
        lemma_floating_overlays(state, named, windows.drop_last(), foreground);
        if let Ok(earlier) = after_floating(named, windows.drop_last(), foreground) {
            if let Ok(hwnd) = read_hwnd(
                windows.last().member("hwnd"@),
                NotificationField::FloatingHwnd,
            ) {
                lemma_insert_overlays(state, earlier, hwnd, WindowKind::Floating);
                lemma_insert_overlays(state, earlier, hwnd, WindowKind::Unfocused);
            }
        }
    }
}

proof fn lemma_workspace_overlays(
    state: FocusMap,
    named: FocusMap,
    workspace: JsonTree,
    on_focused_monitor: bool,
    foreground: isize,
)
    ensures
        after_workspace(
            state.union_prefer_right(named),
            workspace,
            on_focused_monitor,
            foreground,
        ) == overlaid(state, after_workspace(named, workspace, on_focused_monitor, foreground)),
{
    let monocle = workspace.member("monocle_container"@);
    lemma_monocle_overlays(state, named, monocle, on_focused_monitor);
    if let Ok(with_monocle) = after_monocle(named, monocle, on_focused_monitor) {
        if let Ok(containers) = read_array(
            workspace.member("containers"@).member("elements"@),
            NotificationField::Containers,
        ) {
            let focused = if containers.len() == 0 {
                Ok(0usize)
            } else {
                read_choice(
                    workspace.member("containers"@).member("focused"@),
                    NotificationField::FocusedContainer,
                    containers.len(),
                )
            };
            if let Ok(focused) = focused {
                lemma_containers_overlay(
                    state,
                    with_monocle,
                    containers,
                    focused,
                    on_focused_monitor,
                    foreground,
                );
                if let Ok(with_containers) = after_containers(
                    with_monocle,
                    containers,
                    focused,
                    on_focused_monitor,
                    foreground,
                ) {
                    if let Ok(floating) = read_array(
                        workspace.member("floating_windows"@).member("elements"@),
                        NotificationField::FloatingWindows,
                    ) {
                        lemma_floating_overlays(state, with_containers, floating, foreground);
                    }
                }
            }
        }
    }
}

proof fn lemma_monitors_overlay(
    state: FocusMap,
    named: FocusMap,
    monitors: Seq<JsonTree>,
    focused: usize,
    foreground: isize,
)
    ensures
        after_monitors(state.union_prefer_right(named), monitors, focused, foreground)
            == overlaid(state, after_monitors(named, monitors, focused, foreground)),
    decreases monitors.len(),
{
    if monitors.len() > 0 {
        lemma_monitors_overlay(state, named, monitors.drop_last(), focused, foreground);
        if let Ok(earlier) = after_monitors(named, monitors.drop_last(), focused, foreground) {
            let workspaces = monitors.last().member("workspaces"@);
            if let Ok(elements) = read_array(
                workspaces.member("elements"@),
                NotificationField::Workspaces,
            ) {
                if let Ok(shown) = read_choice(
                    workspaces.member("focused"@),
                    NotificationField::FocusedWorkspace,
                    elements.len(),
                ) {
                    lemma_workspace_overlays(
                        state,
                        earlier,
                        elements[shown as int],
                        monitors.len() - 1 == focused,
                        foreground,
                    );
                }
            }
        }
    }
}

/// A notification is accepted or refused whatever is known already, and all it does is overlay:
/// the windows it names get the kind it gives them, every other window keeps the kind it had.
pub proof fn law_notification_overlays_previous_state(
    previous: FocusMap,
    notification: JsonTree,
    foreground: isize,
)
    ensures
        after_notification(previous, notification, foreground) == overlaid(
            previous,
            after_notification(Map::empty(), notification, foreground),
        ),
{
    assert(previous.union_prefer_right(Map::empty()) =~= previous);
    let monitors = notification.member("state"@).member("monitors"@);
    if let Ok(elements) = read_array(monitors.member("elements"@), NotificationField::Monitors) {
        if let Ok(focused) = read_choice(
            monitors.member("focused"@),
            NotificationField::FocusedMonitor,
            elements.len(),
        ) {
            lemma_monitors_overlay(previous, Map::empty(), elements, focused, foreground);
        }
    }
}

/// Taking in the same notification again, with the same window in front, changes nothing and
/// recolors nothing.
pub proof fn law_repeated_notification_changes_nothing(
    previous: FocusMap,
    notification: JsonTree,
    foreground: isize,
    recolored: Seq<isize>,
)
    requires
        after_notification(previous, notification, foreground) is Ok,
    ensures
        ({
            let next = after_notification(previous, notification, foreground)->Ok_0;
            &&& after_notification(next, notification, foreground) == Ok::<FocusMap, SchemaError>(
                next,
            )
            &&& lists_recolored(recolored, next, next) ==> recolored.len() == 0
        }),
{
    let next = after_notification(previous, notification, foreground)->Ok_0;
    law_notification_overlays_previous_state(previous, notification, foreground);
    law_notification_overlays_previous_state(next, notification, foreground);
    let named = after_notification(Map::empty(), notification, foreground)->Ok_0;
    assert(next.union_prefer_right(named) =~= next);
    if lists_recolored(recolored, next, next) && recolored.len() > 0 {
        assert(recolored.contains(recolored[0]));
        assert(!needs_recolor(kind_in(next, recolored[0]), kind_in(next, recolored[0])));
    }
}

/// Whether every window of a state that counts as focused within a layout is the foreground window.
pub open spec fn focus_only_in_front(state: FocusMap, foreground: isize) -> bool {
    forall|hwnd: isize| #[trigger]
        state.contains_key(hwnd) && hwnd != foreground ==> state[hwnd] == WindowKind::Unfocused
            || state[hwnd] == WindowKind::Monocle
}

proof fn lemma_containers_focus_in_front(
    state: FocusMap,
    containers: Seq<JsonTree>,
    focused: usize,
    on_focused_monitor: bool,
    foreground: isize,
)
    requires
        focus_only_in_front(state, foreground),
    ensures
        after_containers(state, containers, focused, on_focused_monitor, foreground) matches Ok(next)
            ==> focus_only_in_front(next, foreground),
    decreases containers.len(),
{
    if containers.len() > 0 {
        lemma_containers_focus_in_front(
            state,
            containers.drop_last(),
            focused,
            on_focused_monitor,
            foreground,
        );
    }
}

proof fn lemma_floating_focus_in_front(state: FocusMap, windows: Seq<JsonTree>, foreground: isize)
    requires
        focus_only_in_front(state, foreground),
    ensures
        after_floating(state, windows, foreground) matches Ok(next) ==> focus_only_in_front(
            next,
            foreground,
        ),
    decreases windows.len(),
{
    if windows.len() > 0 {
        lemma_floating_focus_in_front(state, windows.drop_last(), foreground);
    }
}

proof fn lemma_monitors_focus_in_front(
    state: FocusMap,
    monitors: Seq<JsonTree>,
    focused: usize,
    foreground: isize,
)
    requires
        focus_only_in_front(state, foreground),
    ensures
        after_monitors(state, monitors, focused, foreground) matches Ok(next)
            ==> focus_only_in_front(next, foreground),
    decreases monitors.len(),
{
    if monitors.len() > 0 {
        lemma_monitors_focus_in_front(state, monitors.drop_last(), focused, foreground);
        if let Ok(earlier) = after_monitors(state, monitors.drop_last(), focused, foreground) {
            let workspaces = monitors.last().member("workspaces"@);
            if let Ok(elements) = read_array(
                workspaces.member("elements"@),
                NotificationField::Workspaces,
            ) {
                if let Ok(shown) = read_choice(
                    workspaces.member("focused"@),
                    NotificationField::FocusedWorkspace,
                    elements.len(),
                ) {
                    lemma_workspace_focus_in_front(
                        earlier,
                        elements[shown as int],
                        monitors.len() - 1 == focused,
                        foreground,
                    );
                }
            }
        }
    }
}

proof fn lemma_workspace_focus_in_front(
    state: FocusMap,
    workspace: JsonTree,
    on_focused_monitor: bool,
    foreground: isize,
)
    requires
        focus_only_in_front(state, foreground),
    ensures
        after_workspace(state, workspace, on_focused_monitor, foreground) matches Ok(next)
            ==> focus_only_in_front(next, foreground),
{
    let monocle = workspace.member("monocle_container"@);
    if let Ok(with_monocle) = after_monocle(state, monocle, on_focused_monitor) {
        if let Ok(containers) = read_array(
            workspace.member("containers"@).member("elements"@),
            NotificationField::Containers,
        ) {
            let focused = if containers.len() == 0 {
                Ok(0usize)
            } else {
                read_choice(
                    workspace.member("containers"@).member("focused"@),
                    NotificationField::FocusedContainer,
                    containers.len(),
                )
            };
            if let Ok(focused) = focused {
                lemma_containers_focus_in_front(
                    with_monocle,
                    containers,
                    focused,
                    on_focused_monitor,
                    foreground,
                );
                if let Ok(with_containers) = after_containers(
                    with_monocle,
                    containers,
                    focused,
                    on_focused_monitor,
                    foreground,
                ) {
                    if let Ok(floating) = read_array(
                        workspace.member("floating_windows"@).member("elements"@),
                        NotificationField::FloatingWindows,
                    ) {
                        lemma_floating_focus_in_front(with_containers, floating, foreground);
                    }
                }
            }
        }
    }
}

/// Of the windows that a notification names, only the foreground window is ever made a focused
/// single window, a focused stack or a focused floating window.
pub proof fn law_only_the_foreground_window_gains_focus(
    notification: JsonTree,
    foreground: isize,
)
    ensures
        after_notification(Map::empty(), notification, foreground) matches Ok(named)
            ==> focus_only_in_front(named, foreground),
{
    let monitors = notification.member("state"@).member("monitors"@);
    if let Ok(elements) = read_array(monitors.member("elements"@), NotificationField::Monitors) {
        if let Ok(focused) = read_choice(
            monitors.member("focused"@),
            NotificationField::FocusedMonitor,
            elements.len(),
        ) {
            lemma_monitors_focus_in_front(Map::empty(), elements, focused, foreground);
        }
    }
}

/// What is done next so that komorebi sends notifications.
pub open spec fn subscribe_action_for(event: SubscribeEvent) -> SubscribeAction {
    match event {
        SubscribeEvent::Ready { stopped } => if stopped {
            SubscribeAction::Finish
        } else {
            SubscribeAction::Send
        },
        SubscribeEvent::Sent => SubscribeAction::Finish,
        SubscribeEvent::SendFailed => SubscribeAction::Pause {
            for_ns: SUBSCRIBE_RETRY_INTERVAL_NS,
        },
    }
}

/// Whether windows that are gone are to be dropped from the focus state.
pub open spec fn pruning_due(last_prune_ns: u64, now_ns: u64) -> bool {
    now_ns - last_prune_ns > FOCUS_STATE_PRUNE_INTERVAL_NS
}

/// A request is sent exactly as long as nothing has stopped it and it has not been sent. One that
/// failed is tried again, fifteen seconds later.
pub proof fn law_subscription_is_tried_until_sent(event: SubscribeEvent)
    ensures
        subscribe_action_for(event) is Send <==> event == (SubscribeEvent::Ready { stopped: false }),
        subscribe_action_for(event) is Finish <==> event is Sent || event == (
        SubscribeEvent::Ready { stopped: true }),
        subscribe_action_for(event) is Pause <==> event is SendFailed,
        event is SendFailed ==> subscribe_action_for(event) == (SubscribeAction::Pause {
            for_ns: 15_000_000_000,
        }),
{
}

/// Pruning is due once more than ten minutes have passed since the last time, and stays due until it
/// is done. A clock that stands still or goes back makes nothing due.
pub proof fn law_pruning_comes_due_and_stays_due(last_prune_ns: u64, now_ns: u64, later_ns: u64)
    requires
        now_ns <= later_ns,
    ensures
        pruning_due(last_prune_ns, now_ns) ==> pruning_due(last_prune_ns, later_ns),
        pruning_due(last_prune_ns, now_ns) <==> now_ns > last_prune_ns + 600_000_000_000,
        !pruning_due(later_ns, now_ns),
{
}

/// What is left of a focus state once windows that are gone have been dropped.
pub open spec fn pruned(state: FocusMap, existing: Seq<isize>) -> FocusMap {
    state.restrict(existing.to_set())
}

/// Pruning drops exactly the windows that no longer exist. The others keep their kind, and pruning
/// again changes nothing.
pub proof fn law_pruning_drops_what_is_gone(state: FocusMap, existing: Seq<isize>, hwnd: isize)
    ensures
        pruned(state, existing).contains_key(hwnd) <==> state.contains_key(hwnd)
            && existing.contains(hwnd),
        pruned(state, existing).contains_key(hwnd) ==> pruned(state, existing)[hwnd] == state[hwnd],
        pruned(pruned(state, existing), existing) == pruned(state, existing),
{
    assert(existing.to_set().contains(hwnd) <==> existing.contains(hwnd));
    assert(pruned(pruned(state, existing), existing) =~= pruned(state, existing));
}

} // verus!
