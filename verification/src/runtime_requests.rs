//! How other threads reach the border runtime: requests, and the gates that keep repeated events
//! from piling up in its queue.

use vstd::prelude::*;
use vstd::string::StringExecFns;

use crate::border_registry::WindowIdentity;
use crate::border_runtime::BorderRuntime;
use crate::coalescing::IdentityCommandGate;
use crate::graphics::{
    begin_graphics_refresh, finish_graphics_refresh, mark_graphics_refresh_requested,
    GRAPHICS_REFRESH_DIRTY, GRAPHICS_REFRESH_IDLE, GRAPHICS_REFRESH_PENDING,
};
use crate::runtime_model::{
    BorderRuntimeCommand, BorderRuntimeSnapshot, BorderRuntimeUpdate, BorderWindowEvent,
    RuntimeAction, RuntimeView,
};
use crate::sorted::sorted_handles;

verus! {

/// Where commands for the runtime are sent.
#[derive(Debug, Clone, Copy, PartialEq, Eq, Structural)]
pub struct BorderRuntimeHandle {
    pub dispatcher_hwnd: isize,
}

/// A command on its way to the window that dispatches it.
#[derive(Debug, PartialEq)]
pub struct Posting {
    pub dispatcher_hwnd: isize,
    pub command: BorderRuntimeCommand,
}

impl BorderRuntimeHandle {
    pub fn post(self, command: BorderRuntimeCommand) -> (posting: Posting)
        ensures
            posting == (Posting { dispatcher_hwnd: self.dispatcher_hwnd, command }),
    {
        Posting { dispatcher_hwnd: self.dispatcher_hwnd, command }
    }
}

/// What is sent for a command. Without a runtime nothing is.
pub open spec fn posted(handle: Option<BorderRuntimeHandle>, command: BorderRuntimeCommand) -> Option<
    Posting,
> {
    match handle {
        Some(handle) => Some(Posting { dispatcher_hwnd: handle.dispatcher_hwnd, command }),
        None => None,
    }
}

/// What other threads ask of the runtime.
pub enum RuntimeRequest {
    /// A border for a window, if it is there.
    Create { captured: Option<WindowIdentity> },
    DestroyObserved { hwnd: isize },
    Destroy { identity: WindowIdentity },
    DestroyAll,
    MarkActive { identity: WindowIdentity },
    SetAnimation { identity: WindowIdentity, fps: Option<u32> },
    ReloadBorders,
    ForceRecreateDrawers { exclude: Option<WindowIdentity> },
    ApplyUpdate { update: BorderRuntimeUpdate, focused_only: bool },
}

/// What is sent for a request.
pub open spec fn requested(handle: Option<BorderRuntimeHandle>, request: RuntimeRequest) -> Option<
    Posting,
> {
    match request {
        RuntimeRequest::Create { captured } => match captured {
            Some(identity) => posted(handle, BorderRuntimeCommand::Create { identity }),
            None => None,
        },
        RuntimeRequest::DestroyObserved { hwnd } => posted(
            handle,
            BorderRuntimeCommand::DestroyObserved { hwnd },
        ),
        RuntimeRequest::Destroy { identity } => posted(
            handle,
            BorderRuntimeCommand::Destroy { identity },
        ),
        RuntimeRequest::DestroyAll => posted(handle, BorderRuntimeCommand::DestroyAll),
        RuntimeRequest::MarkActive { identity } => posted(
            handle,
            BorderRuntimeCommand::MarkActive { identity },
        ),
        RuntimeRequest::SetAnimation { identity, fps } => posted(
            handle,
            BorderRuntimeCommand::SetAnimation { identity, fps },
        ),
        RuntimeRequest::ReloadBorders => posted(handle, BorderRuntimeCommand::ReloadBorders),
        RuntimeRequest::ForceRecreateDrawers { exclude } => posted(
            handle,
            BorderRuntimeCommand::ForceRecreateDrawers { exclude },
        ),
        RuntimeRequest::ApplyUpdate { update, focused_only } => posted(
            handle,
            BorderRuntimeCommand::ApplyUpdate { update, focused_only },
        ),
    }
}

/// Each request reaches the runtime as the command of the same kind, about the very window and with
/// the very values that it was made with. Without a runtime, and for a window that is not there,
/// nothing is sent.
pub proof fn law_requests_arrive_as_they_were_made(
    handle: Option<BorderRuntimeHandle>,
    request: RuntimeRequest,
)
    ensures
        ({
            let sent = requested(handle, request);
            &&& sent is None <==> handle is None || request == (RuntimeRequest::Create {
                captured: None,
            })
            &&& sent matches Some(posting) ==> {
                &&& posting.dispatcher_hwnd == handle->0.dispatcher_hwnd
                &&& request is DestroyAll <==> posting.command is DestroyAll
                &&& request is ReloadBorders <==> posting.command is ReloadBorders
                &&& request matches RuntimeRequest::Create { captured } ==> (
                posting.command matches BorderRuntimeCommand::Create { identity } && captured
                    == Some(identity))
                &&& request matches RuntimeRequest::DestroyObserved { hwnd } ==> (
                posting.command matches BorderRuntimeCommand::DestroyObserved { hwnd: told } && told
                    == hwnd)
                &&& request matches RuntimeRequest::Destroy { identity } ==> (
                posting.command matches BorderRuntimeCommand::Destroy { identity: told } && told
                    == identity)
                &&& request matches RuntimeRequest::MarkActive { identity } ==> (
                posting.command matches BorderRuntimeCommand::MarkActive { identity: told } && told
                    == identity)
                &&& request matches RuntimeRequest::SetAnimation { identity, fps } ==> (
                posting.command matches BorderRuntimeCommand::SetAnimation {
                    identity: told,
                    fps: rate,
                } && told == identity && rate == fps)
                &&& request matches RuntimeRequest::ForceRecreateDrawers { exclude } ==> (
                posting.command matches BorderRuntimeCommand::ForceRecreateDrawers { exclude: told }
                    && told == exclude)
                &&& request matches RuntimeRequest::ApplyUpdate { update, focused_only } ==> (
                posting.command matches BorderRuntimeCommand::ApplyUpdate {
                    update: told,
                    focused_only: only,
                } && told == update && only == focused_only)
            }
        }),
{
}

pub fn post_runtime_command(
    handle: Option<BorderRuntimeHandle>,
    command: BorderRuntimeCommand,
) -> (posting: Option<Posting>)
    ensures
        posting == posted(handle, command),
{
    match handle {
        Some(handle) => Some(handle.post(command)),
        None => None,
    }
}

/// A border is wanted for a window. `captured` is the window as it is now, if it is there.
pub fn request_create_border(
    handle: Option<BorderRuntimeHandle>,
    captured: Option<WindowIdentity>,
) -> (posting: Option<Posting>)
    ensures
        posting == requested(handle, RuntimeRequest::Create { captured }),
        posting == (match captured {
            Some(identity) => posted(handle, BorderRuntimeCommand::Create { identity }),
            None => None,
        }),
{
    match captured {
        Some(identity) => post_runtime_command(handle, BorderRuntimeCommand::Create { identity }),
        None => None,
    }
}

/// A window with this handle was reported gone.
pub fn request_destroy_observed_window(handle: Option<BorderRuntimeHandle>, hwnd: isize) -> (posting:
    Option<Posting>)
    ensures
        posting == requested(handle, RuntimeRequest::DestroyObserved { hwnd }),
        posting == posted(handle, BorderRuntimeCommand::DestroyObserved { hwnd }),
{
    post_runtime_command(handle, BorderRuntimeCommand::DestroyObserved { hwnd })
}

pub fn request_destroy_border_identity(
    handle: Option<BorderRuntimeHandle>,
    identity: WindowIdentity,
) -> (posting: Option<Posting>)
    ensures
        posting == requested(handle, RuntimeRequest::Destroy { identity }),
        posting == posted(handle, BorderRuntimeCommand::Destroy { identity }),
{
    post_runtime_command(handle, BorderRuntimeCommand::Destroy { identity })
}

pub fn request_destroy_all_borders(handle: Option<BorderRuntimeHandle>) -> (posting: Option<
    Posting,
>)
    ensures
        posting == requested(handle, RuntimeRequest::DestroyAll),
        posting == posted(handle, BorderRuntimeCommand::DestroyAll),
{
    post_runtime_command(handle, BorderRuntimeCommand::DestroyAll)
}

pub fn request_mark_border_active(
    handle: Option<BorderRuntimeHandle>,
    identity: WindowIdentity,
) -> (posting: Option<Posting>)
    ensures
        posting == requested(handle, RuntimeRequest::MarkActive { identity }),
        posting == posted(handle, BorderRuntimeCommand::MarkActive { identity }),
{
    post_runtime_command(handle, BorderRuntimeCommand::MarkActive { identity })
}

pub fn request_set_border_animation(
    handle: Option<BorderRuntimeHandle>,
    identity: WindowIdentity,
    fps: Option<u32>,
) -> (posting: Option<Posting>)
    ensures
        posting == requested(handle, RuntimeRequest::SetAnimation { identity, fps }),
        posting == posted(handle, BorderRuntimeCommand::SetAnimation { identity, fps }),
{
    post_runtime_command(handle, BorderRuntimeCommand::SetAnimation { identity, fps })
}

pub fn request_reload_borders(handle: Option<BorderRuntimeHandle>) -> (posting: Option<Posting>)
    ensures
        posting == requested(handle, RuntimeRequest::ReloadBorders),
        posting == posted(handle, BorderRuntimeCommand::ReloadBorders),
{
    post_runtime_command(handle, BorderRuntimeCommand::ReloadBorders)
}

pub fn request_force_recreate_drawers(
    handle: Option<BorderRuntimeHandle>,
    exclude: Option<WindowIdentity>,
) -> (posting: Option<Posting>)
    ensures
        posting == requested(handle, RuntimeRequest::ForceRecreateDrawers { exclude }),
        posting == posted(handle, BorderRuntimeCommand::ForceRecreateDrawers { exclude }),
{
    post_runtime_command(handle, BorderRuntimeCommand::ForceRecreateDrawers { exclude })
}

pub fn request_apply_border_update(
    handle: Option<BorderRuntimeHandle>,
    update: BorderRuntimeUpdate,
    focused_only: bool,
) -> (posting: Option<Posting>)
    ensures
        posting == requested(handle, RuntimeRequest::ApplyUpdate { update, focused_only }),
        posting == posted(handle, BorderRuntimeCommand::ApplyUpdate { update, focused_only }),
{
    post_runtime_command(handle, BorderRuntimeCommand::ApplyUpdate { update, focused_only })
}

/// The window that is taken to be in the foreground, if any is.
pub open spec fn foreground_guess(best_hwnd_guess: isize, other_hwnd_guess: isize) -> Option<isize> {
    if best_hwnd_guess != 0 {
        Some(best_hwnd_guess)
    } else if other_hwnd_guess != 0 {
        Some(other_hwnd_guess)
    } else {
        None
    }
}

/// The better guess decides wherever there is one, and the other one only where there is none. No
/// window is taken to be in the foreground exactly where there is neither.
pub proof fn law_better_guess_decides(best_hwnd_guess: isize, other_hwnd_guess: isize, third: isize)
    ensures
        foreground_guess(best_hwnd_guess, other_hwnd_guess) is None <==> best_hwnd_guess == 0
            && other_hwnd_guess == 0,
        foreground_guess(best_hwnd_guess, other_hwnd_guess) != Some(0isize),
        best_hwnd_guess != 0 ==> foreground_guess(best_hwnd_guess, other_hwnd_guess)
            == foreground_guess(best_hwnd_guess, third),
        best_hwnd_guess != 0 ==> foreground_guess(best_hwnd_guess, other_hwnd_guess) == Some(
            best_hwnd_guess,
        ),
        other_hwnd_guess != 0 ==> foreground_guess(0, other_hwnd_guess) == Some(other_hwnd_guess),
{
}

/// Another window came to the foreground: the system's own answer where it has one, else the window
/// that the event named.
pub fn request_foreground_change(
    handle: Option<BorderRuntimeHandle>,
    best_hwnd_guess: isize,
    other_hwnd_guess: isize,
) -> (posting: Option<Posting>)
    ensures
        posting == (match foreground_guess(best_hwnd_guess, other_hwnd_guess) {
            Some(hwnd) => posted(handle, BorderRuntimeCommand::Foreground { hwnd }),
            None => None,
        }),
        posting == (if best_hwnd_guess != 0 {
            posted(handle, BorderRuntimeCommand::Foreground { hwnd: best_hwnd_guess })
        } else if other_hwnd_guess != 0 {
            posted(handle, BorderRuntimeCommand::Foreground { hwnd: other_hwnd_guess })
        } else {
            None
        }),
{
    let hwnd: isize = if best_hwnd_guess != 0 {
        best_hwnd_guess
    } else {
        other_hwnd_guess
    };
    if hwnd == 0 {
        return None;
    }
    post_runtime_command(handle, BorderRuntimeCommand::Foreground { hwnd })
}

/// Komorebi gave these windows another kind. Each is named once, in ascending order.
pub fn request_komorebi_refresh(handle: Option<BorderRuntimeHandle>, hwnds: Vec<isize>) -> (posting:
    Option<Posting>)
    ensures
        hwnds@.len() == 0 || handle is None ==> posting is None,
        hwnds@.len() > 0 && handle is Some ==> {
            &&& posting matches Some(posting)
            &&& posting.dispatcher_hwnd == handle->0.dispatcher_hwnd
            &&& posting.command matches BorderRuntimeCommand::KomorebiRefresh { hwnds: sorted }
            &&& crate::sorted::ascending(sorted@)
            &&& forall|h: isize| #[trigger] sorted@.contains(h) <==> hwnds@.contains(h)
        },
{
    if hwnds.len() == 0 {
        return None;
    }
    let sorted = sorted_handles(&hwnds);
    post_runtime_command(handle, BorderRuntimeCommand::KomorebiRefresh { hwnds: sorted })
}

/// How long the runtime may take to answer, in milliseconds.
pub const SNAPSHOT_TIMEOUT_MS: u64 = 2000;

/// Why no snapshot came. Where the system said why, that is kept.
#[derive(Debug, PartialEq, Eq)]
pub enum SnapshotError {
    NotInitialized,
    NotPosted(String),
    TimedOut(String),
}

impl SnapshotError {
    pub open spec fn reason(self) -> Seq<char> {
        match self {
            SnapshotError::NotInitialized => "border runtime is not initialized"@,
            SnapshotError::NotPosted(cause) => "could not post command to border runtime: "@
                + cause@,
            SnapshotError::TimedOut(cause) => "timed out waiting for border runtime snapshot: "@
                + cause@,
        }
    }

    /// The reason in words.
    pub fn message(&self) -> (message: String)
        ensures
            message@ == self.reason(),
    {
        match self {
            SnapshotError::NotInitialized => "border runtime is not initialized".to_owned(),
            SnapshotError::NotPosted(cause) => "could not post command to border runtime: ".to_owned().concat(
                cause.as_str(),
            ),
            SnapshotError::TimedOut(cause) => "timed out waiting for border runtime snapshot: ".to_owned().concat(
                cause.as_str(),
            ),
        }
    }
}

pub fn request_runtime_snapshot(handle: Option<BorderRuntimeHandle>) -> (posting: Result<
    Posting,
    SnapshotError,
>)
    ensures
        match handle {
            Some(handle) => posting == Ok::<Posting, SnapshotError>(
                Posting {
                    dispatcher_hwnd: handle.dispatcher_hwnd,
                    command: BorderRuntimeCommand::Snapshot,
                },
            ),
            None => posting == Err::<Posting, SnapshotError>(SnapshotError::NotInitialized),
        },
{
    match post_runtime_command(handle, BorderRuntimeCommand::Snapshot) {
        Some(posting) => Ok(posting),
        None => Err(SnapshotError::NotInitialized),
    }
}

/// What comes of a snapshot request that was posted, or was not, and answered, or was not.
pub open spec fn snapshot_from(
    posted: Result<(), String>,
    reply: Result<BorderRuntimeSnapshot, String>,
) -> Result<BorderRuntimeSnapshot, SnapshotError> {
    match posted {
        Err(cause) => Err(SnapshotError::NotPosted(cause)),
        Ok(_) => match reply {
            Err(cause) => Err(SnapshotError::TimedOut(cause)),
            Ok(reply) => Ok(reply),
        },
    }
}

/// A snapshot comes exactly where the request was posted and answered, and it is the answer. Where
/// it was not posted the answer does not matter; the reason that is given is that of what failed.
pub proof fn law_snapshots_come_from_answers(
    posted: Result<(), String>,
    reply: Result<BorderRuntimeSnapshot, String>,
)
    ensures
        snapshot_from(posted, reply) is Ok <==> posted is Ok && reply is Ok,
        posted is Ok ==> (reply matches Ok(answer) ==> snapshot_from(posted, reply) == Ok::<
            BorderRuntimeSnapshot,
            SnapshotError,
        >(answer)),
        posted is Ok ==> (reply matches Err(cause) ==> snapshot_from(posted, reply) == Err::<
            BorderRuntimeSnapshot,
            SnapshotError,
        >(SnapshotError::TimedOut(cause))),
        posted matches Err(cause) ==> snapshot_from(posted, reply) == Err::<
            BorderRuntimeSnapshot,
            SnapshotError,
        >(SnapshotError::NotPosted(cause)),
{
}

/// The answer to a snapshot request: whether it could be posted, and what came back in time.
pub fn runtime_snapshot(
    posted: Result<(), String>,
    reply: Result<BorderRuntimeSnapshot, String>,
) -> (snapshot: Result<BorderRuntimeSnapshot, SnapshotError>)
    ensures
        snapshot == snapshot_from(posted, reply),
        snapshot == (match (posted, reply) {
            (Err(cause), _) => Err(SnapshotError::NotPosted(cause)),
            (Ok(_), Err(cause)) => Err(SnapshotError::TimedOut(cause)),
            (Ok(_), Ok(reply)) => Ok(reply),
        }),
{
    match posted {
        Err(cause) => Err(SnapshotError::NotPosted(cause)),
        Ok(_) => match reply {
            Err(cause) => Err(SnapshotError::TimedOut(cause)),
            Ok(reply) => Ok(reply),
        },
    }
}

/// What keeps repeated events out of the runtime's queue.
#[derive(Debug)]
pub struct RuntimeGates {
    /// Whether a reorder is on its way.
    pub reorder_pending: bool,
    pub location: IdentityCommandGate,
    pub graphics_refresh: u8,
}

/// What `RuntimeGates` hold.
#[verifier::ext_equal]
pub struct GatesView {
    pub reorder_pending: bool,
    pub location: Set<WindowIdentity>,
    pub graphics_refresh: u8,
}

impl View for RuntimeGates {
    type V = GatesView;

    open spec fn view(&self) -> GatesView {
        GatesView {
            reorder_pending: self.reorder_pending,
            location: self.location@,
            graphics_refresh: self.graphics_refresh,
        }
    }
}

/// What a gate action asks of whoever performs it.
#[derive(Debug, Clone, Copy, PartialEq, Eq, Structural)]
pub enum GateEffect {
    /// The action is not about gates.
    NotAGate,
    Done,
    /// A graphics refresh was asked for while one ran: ask for it again.
    RefreshAgain,
}

impl GatesView {
    pub open spec fn open() -> Self {
        GatesView {
            reorder_pending: false,
            location: Set::empty(),
            graphics_refresh: GRAPHICS_REFRESH_IDLE,
        }
    }

    /// The gates after an action of the runtime.
    pub open spec fn after_action(self, action: RuntimeAction) -> (Self, GateEffect) {
        match action {
            RuntimeAction::ReleaseLocation(identity) => (
                GatesView { location: self.location.remove(identity), ..self },
                GateEffect::Done,
            ),
            RuntimeAction::ClearLocationGate => (
                GatesView { location: Set::empty(), ..self },
                GateEffect::Done,
            ),
            RuntimeAction::ClearReorderPending => (
                GatesView { reorder_pending: false, ..self },
                GateEffect::Done,
            ),
            RuntimeAction::BeginGraphicsRefresh => (
                GatesView { graphics_refresh: GRAPHICS_REFRESH_PENDING, ..self },
                GateEffect::Done,
            ),
            RuntimeAction::FinishGraphicsRefresh => (
                GatesView { graphics_refresh: GRAPHICS_REFRESH_IDLE, ..self },
                if self.graphics_refresh == GRAPHICS_REFRESH_DIRTY {
                    GateEffect::RefreshAgain
                } else {
                    GateEffect::Done
                },
            ),
            RuntimeAction::ResetGraphicsRefresh => (
                GatesView { graphics_refresh: GRAPHICS_REFRESH_IDLE, ..self },
                GateEffect::Done,
            ),
            _ => (self, GateEffect::NotAGate),
        }
    }

    /// A reorder was seen.
    pub open spec fn after_reorder(self, handle: Option<BorderRuntimeHandle>) -> (
        Self,
        Option<Posting>,
    ) {
        if self.reorder_pending {
            (self, None)
        } else {
            (
                GatesView { reorder_pending: handle is Some, ..self },
                posted(handle, BorderRuntimeCommand::Reorder),
            )
        }
    }

    /// Something happened to a window.
    pub open spec fn after_window_event(
        self,
        handle: Option<BorderRuntimeHandle>,
        captured: Option<WindowIdentity>,
        event: BorderWindowEvent,
    ) -> (Self, Option<Posting>) {
        match captured {
            None => (self, None),
            Some(identity) => if event != BorderWindowEvent::LocationChange {
                (self, posted(handle, BorderRuntimeCommand::WindowEvent { identity, event }))
            } else if self.location.contains(identity) || handle is None {
                (self, None)
            } else {
                (
                    GatesView { location: self.location.insert(identity), ..self },
                    posted(handle, BorderRuntimeCommand::WindowEvent { identity, event }),
                )
            },
        }
    }

    /// A graphics refresh is wanted.
    pub open spec fn after_refresh_request(self, handle: Option<BorderRuntimeHandle>) -> (
        Self,
        Option<Posting>,
    ) {
        if self.graphics_refresh != GRAPHICS_REFRESH_IDLE {
            (GatesView { graphics_refresh: GRAPHICS_REFRESH_DIRTY, ..self }, None)
        } else if handle is None {
            (self, None)
        } else {
            (
                GatesView { graphics_refresh: GRAPHICS_REFRESH_PENDING, ..self },
                posted(handle, BorderRuntimeCommand::RefreshGraphics),
            )
        }
    }
}

impl Default for RuntimeGates {
    fn default() -> (gates: Self)
        ensures
            gates.wf(),
            gates@ == GatesView::open(),
    {
        RuntimeGates {
            reorder_pending: false,
            location: IdentityCommandGate::default(),
            graphics_refresh: GRAPHICS_REFRESH_IDLE,
        }
    }
}

impl RuntimeGates {
    pub open spec fn wf(&self) -> bool {
        self.location.wf() && crate::graphics::valid_refresh_state(self.graphics_refresh)
    }

    /// Performs an action of the runtime that is about gates.
    pub fn perform(&mut self, action: &RuntimeAction) -> (effect: GateEffect)
        requires
            old(self).wf(),
        ensures
            final(self).wf(),
            final(self)@ == old(self)@.after_action(*action).0,
            effect == old(self)@.after_action(*action).1,
    {
        match action {
            RuntimeAction::ReleaseLocation(identity) => self.location.release(*identity),
            RuntimeAction::ClearLocationGate => self.location.clear(),
            RuntimeAction::ClearReorderPending => self.reorder_pending = false,
            RuntimeAction::BeginGraphicsRefresh => begin_graphics_refresh(
                &mut self.graphics_refresh,
            ),
            RuntimeAction::FinishGraphicsRefresh => {
                if finish_graphics_refresh(&mut self.graphics_refresh) {
                    return GateEffect::RefreshAgain;
                }
            },
            RuntimeAction::ResetGraphicsRefresh => self.graphics_refresh = GRAPHICS_REFRESH_IDLE,
            _ => return GateEffect::NotAGate,
        }
        GateEffect::Done
    }

    /// A reorder command could not be posted: the next one may try.
    pub fn reorder_post_failed(&mut self)
        requires
            old(self).wf(),
        ensures
            final(self).wf(),
            final(self)@ == (GatesView { reorder_pending: false, ..old(self)@ }),
    {
        self.reorder_pending = false;
    }

    /// A location change could not be posted: the next one of this window may try.
    pub fn location_post_failed(&mut self, identity: WindowIdentity)
        requires
            old(self).wf(),
        ensures
            final(self).wf(),
            final(self)@ == (GatesView {
                location: old(self)@.location.remove(identity),
                ..old(self)@
            }),
    {
        self.location.release(identity);
    }

    /// A graphics refresh could not be posted: the next one may try.
    pub fn refresh_post_failed(&mut self)
        requires
            old(self).wf(),
        ensures
            final(self).wf(),
            final(self)@ == (GatesView {
                graphics_refresh: GRAPHICS_REFRESH_IDLE,
                ..old(self)@
            }),
    {
        self.graphics_refresh = GRAPHICS_REFRESH_IDLE;
    }
}

/// A reorder was seen. At most one is on its way to the runtime.
pub fn request_reorder_borders(
    gates: &mut RuntimeGates,
    handle: Option<BorderRuntimeHandle>,
) -> (posting: Option<Posting>)
    requires
        old(gates).wf(),
    ensures
        final(gates).wf(),
        final(gates)@ == old(gates)@.after_reorder(handle).0,
        posting == old(gates)@.after_reorder(handle).1,
{
    if gates.reorder_pending {
        return None;
    }
    gates.reorder_pending = true;
    let posting = post_runtime_command(handle, BorderRuntimeCommand::Reorder);
    if posting.is_none() {
        gates.reorder_post_failed();
    }
    posting
}

/// Something happened to a window. `captured` is the window as it is now, if it is there. Of each
/// window at most one location change is on its way to the runtime.
pub fn request_window_event(
    gates: &mut RuntimeGates,
    handle: Option<BorderRuntimeHandle>,
    captured: Option<WindowIdentity>,
    event: BorderWindowEvent,
) -> (posting: Option<Posting>)
    requires
        old(gates).wf(),
    ensures
        final(gates).wf(),
        final(gates)@ == old(gates)@.after_window_event(handle, captured, event).0,
        posting == old(gates)@.after_window_event(handle, captured, event).1,
{
    let identity = match captured {
        Some(identity) => identity,
        None => return None,
    };
    if event == BorderWindowEvent::LocationChange {
        if !gates.location.acquire(identity) {
            assert(gates@.location =~= old(gates)@.location);
            return None;
        }
        let posting = post_runtime_command(
            handle,
            BorderRuntimeCommand::WindowEvent { identity, event },
        );
        if posting.is_none() {
            gates.location_post_failed(identity);
            assert(gates@.location =~= old(gates)@.location);
        }
        return posting;
    }
    post_runtime_command(handle, BorderRuntimeCommand::WindowEvent { identity, event })
}

/// A graphics refresh is wanted.
pub fn request_graphics_refresh(
    gates: &mut RuntimeGates,
    handle: Option<BorderRuntimeHandle>,
) -> (posting: Option<Posting>)
    requires
        old(gates).wf(),
    ensures
        final(gates).wf(),
        final(gates)@ == old(gates)@.after_refresh_request(handle).0,
        posting == old(gates)@.after_refresh_request(handle).1,
{
    if !mark_graphics_refresh_requested(&mut gates.graphics_refresh) {
        return None;
    }
    let posting = post_runtime_command(handle, BorderRuntimeCommand::RefreshGraphics);
    if posting.is_none() {
        gates.refresh_post_failed();
    }
    posting
}

/// The runtime while it is up.
#[derive(Debug)]
pub struct BorderRuntimeHost {
    pub runtime: BorderRuntime,
}

impl BorderRuntimeHost {
    /// Starts the runtime: `dispatcher_hwnd` is the window that commands and timers go to. Opens
    /// the gates and makes the runtime known, and gives the actions to start with.
    pub fn new(
        current_process_elevated: bool,
        foreground_window: isize,
        dispatcher_hwnd: isize,
        gates: &mut RuntimeGates,
        slot: &mut Option<BorderRuntimeHandle>,
    ) -> (started: (Self, Vec<RuntimeAction>))
        ensures
            started.0.runtime.wf(),
            started.0.runtime@ == (RuntimeView {
                active_window: foreground_window,
                current_process_elevated,
                dispatcher_hwnd,
                ..BorderRuntime::empty_view()
            }),
            started.1@ == BorderRuntime::maintenance_timers(),
            final(gates).wf(),
            final(gates)@ == GatesView::open(),
            *final(slot) == Some(BorderRuntimeHandle { dispatcher_hwnd }),
    {
        *gates = RuntimeGates::default();
        let mut runtime = BorderRuntime::default();
        runtime.active_window = foreground_window;
        runtime.current_process_elevated = current_process_elevated;
        runtime.dispatcher_hwnd = dispatcher_hwnd;
        let actions = runtime.start_maintenance_timers();
        *slot = Some(BorderRuntimeHandle { dispatcher_hwnd });
        (BorderRuntimeHost { runtime }, actions)
    }

    /// Stops the runtime. From here on nothing is posted to it.
    pub fn stop(&mut self, slot: &mut Option<BorderRuntimeHandle>) -> (actions: Vec<RuntimeAction>)
        requires
            old(self).runtime.wf(),
        ensures
            final(self).runtime.wf(),
            final(self).runtime@ == old(self).runtime@.stopped().0,
            actions@ == old(self).runtime@.stopped().1,
            *final(slot) is None,
    {
        *slot = None;
        self.runtime.stop_all_timers()
    }
}

/// While one location change of a window is on its way, no further one of it is posted; once the
/// runtime has released the window, the next one is. Other windows, also one that has taken over
/// the handle, are not held up.
pub proof fn law_one_location_change_in_flight(
    gates: GatesView,
    handle: BorderRuntimeHandle,
    identity: WindowIdentity,
    other: WindowIdentity,
)
    requires
        other != identity,
    ensures
        ({
            let event = BorderWindowEvent::LocationChange;
            let (held, first) = gates.after_window_event(Some(handle), Some(identity), event);
            let released = held.after_action(RuntimeAction::ReleaseLocation(identity)).0;
            &&& (first is Some <==> !gates.location.contains(identity))
            &&& held.after_window_event(Some(handle), Some(identity), event).1 is None
            &&& released.after_window_event(Some(handle), Some(identity), event).1 is Some
            &&& held.after_window_event(Some(handle), Some(other), event).1
                == gates.after_window_event(Some(handle), Some(other), event).1
        }),
{
}

/// While a reorder is on its way, no further one is posted; once the runtime is through with it,
/// the next one is.
pub proof fn law_one_reorder_in_flight(gates: GatesView, handle: BorderRuntimeHandle)
    ensures
        ({
            let (held, _first) = gates.after_reorder(Some(handle));
            let released = held.after_action(RuntimeAction::ClearReorderPending).0;
            &&& held.after_reorder(Some(handle)).1 is None
            &&& released.after_reorder(Some(handle)).1 is Some
        }),
{
}

/// A graphics refresh that is wanted while another one runs is asked for again when that one ends.
pub proof fn law_refresh_during_refresh_is_repeated(
    gates: GatesView,
    handle: Option<BorderRuntimeHandle>,
)
    ensures
        ({
            let running = gates.after_action(RuntimeAction::BeginGraphicsRefresh).0;
            let asked = running.after_refresh_request(handle).0;
            let finish = RuntimeAction::FinishGraphicsRefresh;
            &&& running.after_action(finish).1 == GateEffect::Done
            &&& asked.after_action(finish).1 == GateEffect::RefreshAgain
        }),
{
}

} // verus!
