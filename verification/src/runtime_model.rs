//! What the border runtime is told, what it asks to be done, and what each command does to it.
//!
//! The runtime decides; whoever owns the windows performs. A command therefore gives a list of
//! actions, to be performed in order. An action that ends in more runtime work (such as
//! `CreateBorder`) is performed to its end before the next one is taken up.

use vstd::prelude::*;

use crate::border_registry::{BorderLifecycleState, BorderRecord, WindowIdentity};
use crate::coalescing::{LocationAction, LocationView, ReorderAction, ReorderCoalescer};
use crate::colors::ColorBrushConfig;
use crate::config::{OffsetConfig, RadiusConfig, WidthConfig};
use crate::window_snapshot::WindowFacts;

verus! {

pub const ANIMATION_TIMER_ID: usize = 1;

pub const FOREGROUND_POLL_TIMER_ID: usize = 2;

pub const RECONCILE_TIMER_ID: usize = 3;

pub const REORDER_TIMER_ID: usize = 4;

pub const LOCATION_TIMER_ID: usize = 5;

pub const FOREGROUND_POLL_INTERVAL_MS: u32 = 100;

pub const RECONCILE_INTERVAL_MS: u32 = 1000;

pub const MIN_ANIMATION_TIMER_INTERVAL_MS: u32 = 10;

#[derive(Debug, Clone, Copy, PartialEq, Eq, Structural)]
pub enum BorderWindowEvent {
    LocationChange,
    ShowUncloaked,
    HideCloaked,
    MinimizeStart,
    MinimizeEnd,
}

/// A change of appearance for borders that are there already.
#[derive(Debug, PartialEq)]
pub enum BorderRuntimeUpdate {
    Colors { active: Option<ColorBrushConfig>, inactive: Option<ColorBrushConfig> },
    Width(WidthConfig),
    Offset(OffsetConfig),
    Radius(RadiusConfig),
}

#[derive(Debug, Clone, Copy, PartialEq, Eq, Structural)]
pub struct BorderRuntimeSnapshot {
    pub active_window: isize,
    pub border_count: usize,
}

#[derive(Debug, PartialEq)]
pub enum BorderRuntimeCommand {
    Create { identity: WindowIdentity },
    Destroy { identity: WindowIdentity },
    /// The system reported that a window with this handle went away.
    DestroyObserved { hwnd: isize },
    DestroyAll,
    MarkActive { identity: WindowIdentity },
    SetAnimation { identity: WindowIdentity, fps: Option<u32> },
    WindowEvent { identity: WindowIdentity, event: BorderWindowEvent },
    Reorder,
    Foreground { hwnd: isize },
    RefreshGraphics,
    ForceRecreateDrawers { exclude: Option<WindowIdentity> },
    ReloadBorders,
    KomorebiRefresh { hwnds: Vec<isize> },
    ApplyUpdate { update: BorderRuntimeUpdate, focused_only: bool },
    Snapshot,
}

/// The border window that belongs to a window, and the window it was made for.
#[derive(Debug, Clone, Copy, PartialEq, Eq, Structural)]
pub struct WindowBorder {
    pub tracked_identity: Option<WindowIdentity>,
    pub border_window: isize,
}

#[derive(Debug, Clone, Copy, PartialEq, Eq, Structural)]
pub struct AnimationRegistration {
    pub identity: WindowIdentity,
    pub fps: u32,
}

/// What a border window is asked to do.
#[derive(Debug, PartialEq)]
pub enum BorderCall {
    LocationChange,
    ShowUncloaked,
    HideCloaked,
    MinimizeStart,
    MinimizeEnd,
    Reorder,
    ForegroundChange { is_active: bool },
    RecreateDrawer,
    ForceRecreateDrawer,
    KomorebiRefresh,
    AnimationTick,
    ApplyColors { active: Option<ColorBrushConfig>, inactive: Option<ColorBrushConfig> },
    ApplyWidth(WidthConfig),
    ApplyOffset(OffsetConfig),
    ApplyRadius(RadiusConfig),
}

/// Why the shared graphics devices are brought in line with the configuration.
#[derive(Debug, Clone, Copy, PartialEq, Eq, Structural)]
pub enum SyncPurpose {
    Refresh,
    Reload,
}

/// Why the windows of the desktop are gone through.
#[derive(Debug, Clone, Copy, PartialEq, Eq, Structural)]
pub enum CollectPurpose {
    Reconcile,
    Reload,
}

#[derive(Debug, PartialEq)]
pub enum RuntimeAction {
    KillTimer { timer_id: usize },
    /// Set a repeating timer.
    SetTimer { timer_id: usize, interval_ms: u32 },
    /// Set a timer on which waiting work depends. Failure is reported to the runtime.
    ArmTimer { timer_id: usize, delay_ms: u32 },
    /// Let the next location change of this window through the command gate.
    ReleaseLocation(WindowIdentity),
    ClearLocationGate,
    /// Let the next reorder through the command gate.
    ClearReorderPending,
    BeginGraphicsRefresh,
    FinishGraphicsRefresh,
    ResetGraphicsRefresh,
    Call { border: isize, call: BorderCall },
    /// Prepare a border window for its end and end it.
    DropBorder { border: isize },
    /// Capture the window's identity and hand the event to the runtime.
    HandleWindowEvent { identity: WindowIdentity, event: BorderWindowEvent },
    /// Capture the window's identity and start creating its border.
    CreateBorder { identity: WindowIdentity },
    /// Find out what decides whether the window gets a border.
    AssessBorder { identity: WindowIdentity },
    /// Look up the window's rule, then capture the window's identity once more.
    AdmitBorder { identity: WindowIdentity },
    /// Make the border window.
    ConstructBorder { identity: WindowIdentity },
    InitBorder { identity: WindowIdentity, border: isize, is_active: bool },
    /// Find out which border windows can be seen and flush the reorder to them.
    FlushReorder,
    /// Ask the system for the foreground window.
    PollForeground,
    SyncDevices(SyncPurpose),
    /// Forget which windows were open from the start.
    ClearInitialWindows,
    CollectWindows(CollectPurpose),
    Reply(BorderRuntimeSnapshot),
}

/// The timer interval for a frame rate.
pub open spec fn interval_for(fps: u32) -> u32 {
    let frame = if fps == 0 {
        1000u32
    } else {
        (1000u32 / fps) as u32
    };
    if frame < MIN_ANIMATION_TIMER_INTERVAL_MS {
        MIN_ANIMATION_TIMER_INTERVAL_MS
    } else {
        frame
    }
}

/// Whether `interval` is that of the fastest animation.
pub open spec fn is_fastest(animated: Map<isize, AnimationRegistration>, interval: u32) -> bool {
    &&& exists|key: isize| #[trigger]
        animated.contains_key(key) && interval_for(animated[key].fps) == interval
    &&& forall|key: isize| #[trigger]
        animated.contains_key(key) ==> interval <= interval_for(animated[key].fps)
}

/// How often the animation timer has to run, if at all.
pub open spec fn desired_interval(animated: Map<isize, AnimationRegistration>) -> Option<u32> {
    if animated == Map::<isize, AnimationRegistration>::empty() {
        None
    } else {
        Some(choose|interval: u32| is_fastest(animated, interval))
    }
}

pub open spec fn event_call(event: BorderWindowEvent) -> BorderCall {
    match event {
        BorderWindowEvent::LocationChange => BorderCall::LocationChange,
        BorderWindowEvent::ShowUncloaked => BorderCall::ShowUncloaked,
        BorderWindowEvent::HideCloaked => BorderCall::HideCloaked,
        BorderWindowEvent::MinimizeStart => BorderCall::MinimizeStart,
        BorderWindowEvent::MinimizeEnd => BorderCall::MinimizeEnd,
    }
}

pub open spec fn update_call(update: BorderRuntimeUpdate) -> BorderCall {
    match update {
        BorderRuntimeUpdate::Colors { active, inactive } => BorderCall::ApplyColors {
            active,
            inactive,
        },
        BorderRuntimeUpdate::Width(width) => BorderCall::ApplyWidth(width),
        BorderRuntimeUpdate::Offset(offset) => BorderCall::ApplyOffset(offset),
        BorderRuntimeUpdate::Radius(radius) => BorderCall::ApplyRadius(radius),
    }
}

/// Something that goes to many borders at once.
pub enum Broadcast {
    /// Only to border windows that can be seen.
    Reorder { visible: Set<isize> },
    RecreateDrawer,
    ForceRecreateDrawer { exclude: Option<WindowIdentity> },
    KomorebiRefresh,
    AnimationTick,
    Update(BorderRuntimeUpdate),
}

/// The state of the runtime.
#[verifier::ext_equal]
pub struct RuntimeView {
    pub registry: Map<isize, BorderRecord>,
    pub borders: Map<isize, WindowBorder>,
    pub animated: Map<isize, AnimationRegistration>,
    pub active_window: isize,
    pub current_process_elevated: bool,
    pub reorder: ReorderCoalescer,
    pub location: LocationView,
    pub dispatcher_hwnd: isize,
    pub animation_timer_interval_ms: Option<u32>,
}

/// A state, and the actions that led to it.
pub type Outcome = (RuntimeView, Seq<RuntimeAction>);

/// The end of the border filed under `key`, if there is one.
pub open spec fn dropped(borders: Map<isize, WindowBorder>, key: isize) -> Seq<RuntimeAction> {
    if borders.contains_key(key) {
        seq![RuntimeAction::DropBorder { border: borders[key].border_window }]
    } else {
        Seq::empty()
    }
}

/// The end of each of these borders, in this order.
pub open spec fn dropped_each(borders: Map<isize, WindowBorder>, keys: Seq<isize>) -> Seq<
    RuntimeAction,
>
    decreases keys.len(),
{
    if keys.len() == 0 {
        Seq::empty()
    } else {
        dropped_each(borders, keys.drop_last()) + dropped(borders, keys.last())
    }
}

/// What brings windows that moved to their borders, each released before it is handled so that a
/// move that comes in meanwhile is not lost.
pub open spec fn location_flushes(moved: Seq<WindowIdentity>) -> Seq<RuntimeAction>
    decreases moved.len(),
{
    if moved.len() == 0 {
        Seq::empty()
    } else {
        location_flushes(moved.drop_last()) + seq![
            RuntimeAction::ReleaseLocation(moved.last()),
            RuntimeAction::HandleWindowEvent {
                identity: moved.last(),
                event: BorderWindowEvent::LocationChange,
            },
        ]
    }
}

/// Whether a reload goes on with these windows as those open from the start and with these actions.
pub open spec fn reloads_with(
    present: Map<isize, WindowIdentity>,
    creatable: Set<isize>,
    initial_windows: Seq<isize>,
    actions: Seq<RuntimeAction>,
) -> bool {
    &&& crate::sorted::ascending(initial_windows)
    &&& forall|h: isize| #[trigger] initial_windows.contains(h) <==> present.contains_key(h)
    &&& exists|create: Seq<WindowIdentity>|
        {
            &&& crate::sorted::ascending_identities(create)
            &&& forall|w: WindowIdentity| #[trigger]
                create.contains(w) <==> crate::window_snapshot::is_present(present, w)
                    && creatable.contains(w.hwnd)
            &&& actions == #[trigger] creations(create)
        }
}

pub open spec fn creations(identities: Seq<WindowIdentity>) -> Seq<RuntimeAction> {
    Seq::new(
        identities.len(),
        |i: int| RuntimeAction::CreateBorder { identity: identities[i] },
    )
}

impl RuntimeView {
    /// Everything is filed under the handle of the window that it is about.
    pub open spec fn wf(self) -> bool {
        &&& crate::border_registry::keyed_by_handle(self.registry)
        &&& self.borders.dom().finite()
        &&& self.animated.dom().finite()
        &&& forall|key: isize| #[trigger]
            self.animated.contains_key(key) ==> self.animated[key].identity.hwnd == key
        &&& self.reorder.wf()
    }

    /// Whether the registry holds exactly this window.
    pub open spec fn registered(self, identity: WindowIdentity) -> bool {
        self.registry.contains_key(identity.hwnd) && self.registry[identity.hwnd].tracking
            == identity
    }

    /// The animation timer after the animated windows have changed.
    pub open spec fn retimed(self) -> Outcome {
        let desired = desired_interval(self.animated);
        if self.dispatcher_hwnd == 0 || desired == self.animation_timer_interval_ms {
            (self, Seq::empty())
        } else {
            (
                RuntimeView { animation_timer_interval_ms: desired, ..self },
                (if self.animation_timer_interval_ms is Some {
                    seq![RuntimeAction::KillTimer { timer_id: ANIMATION_TIMER_ID }]
                } else {
                    Seq::empty()
                }) + (match desired {
                    Some(interval_ms) => seq![
                        RuntimeAction::SetTimer { timer_id: ANIMATION_TIMER_ID, interval_ms },
                    ],
                    None => Seq::empty(),
                }),
            )
        }
    }

    pub open spec fn without_animation(self, identity: WindowIdentity) -> Self {
        if self.animated.contains_key(identity.hwnd) && self.animated[identity.hwnd].identity
            == identity {
            RuntimeView { animated: self.animated.remove(identity.hwnd), ..self }
        } else {
            self
        }
    }

    pub open spec fn with_animation(self, identity: WindowIdentity, fps: Option<u32>) -> Outcome {
        match fps {
            Some(fps) => if self.registered(identity) && self.borders.contains_key(identity.hwnd) {
                RuntimeView {
                    animated: self.animated.insert(
                        identity.hwnd,
                        AnimationRegistration {
                            identity,
                            fps: if fps == 0 {
                                1
                            } else {
                                fps
                            },
                        },
                    ),
                    ..self
                }.retimed()
            } else {
                (self, Seq::empty())
            },
            None => self.without_animation(identity).retimed(),
        }
    }

    /// The border of exactly this window goes. Dispatch to it ends before its window does.
    pub open spec fn destroyed(self, identity: WindowIdentity) -> Outcome {
        if self.registered(identity) {
            let (timed, timer) = self.without_animation(identity).retimed();
            (
                RuntimeView {
                    registry: timed.registry.remove(identity.hwnd),
                    borders: timed.borders.remove(identity.hwnd),
                    ..timed
                },
                timer + dropped(timed.borders, identity.hwnd),
            )
        } else {
            (self, Seq::empty())
        }
    }

    pub open spec fn destroyed_each(self, identities: Seq<WindowIdentity>) -> Outcome
        decreases identities.len(),
    {
        if identities.len() == 0 {
            (self, Seq::empty())
        } else {
            let (earlier, actions) = self.destroyed_each(identities.drop_last());
            let (after, last) = earlier.destroyed(identities.last());
            (after, actions + last)
        }
    }

    /// A window with this handle was reported gone. `live` is what the handle names now.
    pub open spec fn after_observed_destroy(
        self,
        hwnd: isize,
        live: Option<WindowIdentity>,
    ) -> Outcome {
        if self.registry.contains_key(hwnd) && live != Some(self.registry[hwnd].tracking) {
            self.destroyed(self.registry[hwnd].tracking)
        } else {
            (self, Seq::empty())
        }
    }

    /// Something happened to the window `identity`. `live` is what its handle names now.
    pub open spec fn after_window_event(
        self,
        identity: WindowIdentity,
        event: BorderWindowEvent,
        live: Option<WindowIdentity>,
    ) -> Outcome {
        let create = if event == BorderWindowEvent::ShowUncloaked {
            seq![RuntimeAction::CreateBorder { identity }]
        } else {
            Seq::empty()
        };
        if live != Some(identity) {
            (self, Seq::empty())
        } else if self.registered(identity) && self.borders.contains_key(identity.hwnd) {
            (
                self,
                seq![
                    RuntimeAction::Call {
                        border: self.borders[identity.hwnd].border_window,
                        call: event_call(event),
                    },
                ],
            )
        } else if self.registry.contains_key(identity.hwnd) {
            let (after, actions) = self.destroyed(self.registry[identity.hwnd].tracking);
            (after, actions + create)
        } else {
            (self, create)
        }
    }

    /// A border is wanted for the window `identity`. `live` is what its handle names now.
    pub open spec fn after_create(
        self,
        identity: WindowIdentity,
        live: Option<WindowIdentity>,
    ) -> Outcome {
        let assess = seq![RuntimeAction::AssessBorder { identity }];
        if live != Some(identity) {
            (self, Seq::empty())
        } else if self.registered(identity) {
            if self.borders.contains_key(identity.hwnd) {
                (self, Seq::empty())
            } else {
                (RuntimeView { registry: self.registry.remove(identity.hwnd), ..self }, assess)
            }
        } else if self.registry.contains_key(identity.hwnd) {
            let (after, actions) = self.destroyed(self.registry[identity.hwnd].tracking);
            (after, actions + assess)
        } else {
            (self, assess)
        }
    }

    /// The border window has been made. It is registered before it is initialized, so that a
    /// failing initialization finds what to clean up.
    pub open spec fn after_register(self, identity: WindowIdentity, border_window: isize) -> Outcome {
        (
            RuntimeView {
                registry: self.registry.insert(
                    identity.hwnd,
                    BorderRecord {
                        tracking: identity,
                        border_hwnd: border_window,
                        state: BorderLifecycleState::Initializing,
                    },
                ),
                borders: self.borders.insert(
                    identity.hwnd,
                    WindowBorder { tracked_identity: Some(identity), border_window },
                ),
                ..self
            },
            dropped(self.borders, identity.hwnd) + seq![
                RuntimeAction::InitBorder {
                    identity,
                    border: border_window,
                    is_active: identity.hwnd == self.active_window,
                },
            ],
        )
    }

    /// It is known what decides whether the window gets a border.
    pub open spec fn after_assessment(self, identity: WindowIdentity, facts: WindowFacts) -> Seq<
        RuntimeAction,
    > {
        if facts.calls_for_border(self.current_process_elevated) {
            seq![RuntimeAction::AdmitBorder { identity }]
        } else {
            Seq::empty()
        }
    }

    /// The window's rule has been looked up. `live` is what its handle names now.
    pub open spec fn after_admission(
        self,
        identity: WindowIdentity,
        live: Option<WindowIdentity>,
    ) -> Seq<RuntimeAction> {
        if live == Some(identity) {
            seq![RuntimeAction::ConstructBorder { identity }]
        } else {
            Seq::empty()
        }
    }

    /// The border has been initialized, or could not be.
    pub open spec fn after_initialization(
        self,
        identity: WindowIdentity,
        initialized: bool,
    ) -> Outcome {
        if initialized {
            (self, Seq::empty())
        } else {
            self.destroyed(identity)
        }
    }

    /// Whether these actions follow once the shared devices have been synced, or could not be.
    pub open spec fn follows_sync(
        self,
        purpose: SyncPurpose,
        succeeded: bool,
        actions: Seq<RuntimeAction>,
    ) -> bool {
        match purpose {
            SyncPurpose::Refresh => if succeeded {
                exists|keys: Seq<isize>|
                    crate::keys::lists_keys(keys, self.registry.dom()) && actions
                        == #[trigger] self.broadcast_calls(Broadcast::RecreateDrawer, keys) + seq![
                        RuntimeAction::FinishGraphicsRefresh,
                    ]
            } else {
                actions == seq![RuntimeAction::FinishGraphicsRefresh]
            },
            SyncPurpose::Reload => actions == (if succeeded {
                seq![RuntimeAction::CollectWindows(CollectPurpose::Reload)]
            } else {
                Seq::empty()
            }),
        }
    }

    /// Whether these are the windows whose border an update concerns.
    pub open spec fn concerns(self, focused_only: bool, targets: Seq<isize>) -> bool {
        if focused_only {
            targets == (if self.registry.contains_key(self.active_window) {
                seq![self.active_window]
            } else {
                Seq::empty()
            })
        } else {
            crate::keys::lists_keys(targets, self.registry.dom())
        }
    }

    /// Whether `after` and `actions` are what follows where the location timer could not be set.
    pub open spec fn misses_location_timer(
        self,
        now: u64,
        after: RuntimeView,
        actions: Seq<RuntimeAction>,
    ) -> bool {
        &&& after == RuntimeView { location: self.location.after_timer(now), ..self }
        &&& exists|moved: Seq<WindowIdentity>|
            crate::coalescing::lists_identities(moved, self.location.dirty) && actions
                == #[trigger] location_flushes(moved)
    }

    /// What follows where the reorder timer could not be set.
    pub open spec fn without_reorder_timer(self) -> Outcome {
        (
            RuntimeView { reorder: ReorderCoalescer::idle(), ..self },
            seq![RuntimeAction::FlushReorder, RuntimeAction::ClearReorderPending],
        )
    }

    pub open spec fn marked_active(self, identity: WindowIdentity) -> Self {
        if self.registered(identity) {
            RuntimeView {
                registry: self.registry.insert(
                    identity.hwnd,
                    BorderRecord {
                        state: BorderLifecycleState::Active,
                        ..self.registry[identity.hwnd]
                    },
                ),
                ..self
            }
        } else {
            self
        }
    }

    pub open spec fn after_foreground(self, hwnd: isize) -> Outcome {
        if hwnd == 0 || hwnd == self.active_window {
            (self, Seq::empty())
        } else {
            (
                RuntimeView { active_window: hwnd, ..self },
                self.foreground_call(self.active_window, false) + self.foreground_call(hwnd, true),
            )
        }
    }

    pub open spec fn foreground_call(self, hwnd: isize, is_active: bool) -> Seq<RuntimeAction> {
        if hwnd != 0 && self.borders.contains_key(hwnd) {
            seq![
                RuntimeAction::Call {
                    border: self.borders[hwnd].border_window,
                    call: BorderCall::ForegroundChange { is_active },
                },
            ]
        } else {
            Seq::empty()
        }
    }

    /// Whether an animation still belongs to a window with a border.
    pub open spec fn animates(self, key: isize) -> bool {
        &&& self.animated.contains_key(key)
        &&& self.registered(self.animated[key].identity)
        &&& self.borders.contains_key(self.animated[key].identity.hwnd)
    }

    /// What a broadcast asks of the border filed under `key`, if it is meant.
    pub open spec fn broadcast_call(self, broadcast: Broadcast, key: isize) -> Seq<RuntimeAction> {
        let same_window = self.registry.contains_key(key) && self.borders.contains_key(key)
            && self.borders[key].tracked_identity == Some(self.registry[key].tracking);
        let (meant, call) = match broadcast {
            Broadcast::Reorder { visible } => (
                same_window && visible.contains(self.borders[key].border_window),
                BorderCall::Reorder,
            ),
            Broadcast::RecreateDrawer => (self.borders.contains_key(key), BorderCall::RecreateDrawer),
            Broadcast::ForceRecreateDrawer { exclude } => (
                self.registry.contains_key(key) && self.registry[key].state
                    == BorderLifecycleState::Active && Some(self.registry[key].tracking) != exclude
                    && self.borders.contains_key(key),
                BorderCall::ForceRecreateDrawer,
            ),
            Broadcast::KomorebiRefresh => (same_window, BorderCall::KomorebiRefresh),
            Broadcast::AnimationTick => (self.animates(key), BorderCall::AnimationTick),
            Broadcast::Update(update) => (self.borders.contains_key(key), update_call(update)),
        };
        if meant {
            seq![RuntimeAction::Call { border: self.borders[key].border_window, call }]
        } else {
            Seq::empty()
        }
    }

    pub open spec fn broadcast_calls(self, broadcast: Broadcast, keys: Seq<isize>) -> Seq<
        RuntimeAction,
    >
        decreases keys.len(),
    {
        if keys.len() == 0 {
            Seq::empty()
        } else {
            self.broadcast_calls(broadcast, keys.drop_last()) + self.broadcast_call(
                broadcast,
                keys.last(),
            )
        }
    }

    /// The animations that still belong to a window with a border.
    pub open spec fn live_animations(self) -> Map<isize, AnimationRegistration> {
        self.animated.restrict(Set::new(|key: isize| self.animates(key)))
    }

    /// An animation tick has gone out. Stale animations end with it.
    pub open spec fn after_tick(self) -> Outcome {
        if self.live_animations() == self.animated {
            (self, Seq::empty())
        } else {
            RuntimeView { animated: self.live_animations(), ..self }.retimed()
        }
    }

    pub open spec fn with_location_timer(self, delay_ns: u64) -> Outcome {
        if self.dispatcher_hwnd == 0 {
            (
                RuntimeView { location: LocationView::idle(), ..self },
                seq![RuntimeAction::ClearLocationGate],
            )
        } else {
            (
                self,
                seq![
                    RuntimeAction::ArmTimer {
                        timer_id: LOCATION_TIMER_ID,
                        delay_ms: crate::coalescing::delay_ms(delay_ns),
                    },
                ],
            )
        }
    }

    pub open spec fn after_location_request(self, identity: WindowIdentity, now: u64) -> Outcome {
        let (location, action) = self.location.after_event(identity, now);
        let after = RuntimeView { location, ..self };
        match action {
            LocationAction::FlushNow => (after, location_flushes(seq![identity])),
            LocationAction::ArmTimer(delay_ns) => after.with_location_timer(delay_ns),
            LocationAction::Coalesced => (after, Seq::empty()),
        }
    }

    pub open spec fn with_reorder_timer(self, delay_ns: u64) -> Outcome {
        if self.dispatcher_hwnd == 0 {
            (
                RuntimeView { reorder: ReorderCoalescer::idle(), ..self },
                seq![RuntimeAction::ClearReorderPending],
            )
        } else {
            (
                self,
                seq![
                    RuntimeAction::ArmTimer {
                        timer_id: REORDER_TIMER_ID,
                        delay_ms: crate::coalescing::delay_ms(delay_ns),
                    },
                ],
            )
        }
    }

    pub open spec fn after_reorder_request(self, now: u64) -> Outcome {
        let (reorder, action) = self.reorder.after_event(now);
        let after = RuntimeView { reorder, ..self };
        match action {
            ReorderAction::FlushNow => (
                after,
                seq![RuntimeAction::FlushReorder, RuntimeAction::ClearReorderPending],
            ),
            ReorderAction::ArmTimer(delay_ns) => after.with_reorder_timer(delay_ns),
            ReorderAction::Coalesced => (after, Seq::empty()),
        }
    }

    pub open spec fn after_reorder_timer(self, now: u64) -> Outcome {
        if self.dispatcher_hwnd == 0 {
            (self, Seq::empty())
        } else {
            let (reorder, flush) = self.reorder.after_timer(now);
            (
                RuntimeView { reorder, ..self },
                seq![RuntimeAction::KillTimer { timer_id: REORDER_TIMER_ID }] + (if flush {
                    seq![RuntimeAction::FlushReorder]
                } else {
                    Seq::empty()
                }) + seq![RuntimeAction::ClearReorderPending],
            )
        }
    }

    /// Kills a timer, where there is a window that timers belong to.
    pub open spec fn killed(self, timer_id: usize) -> Seq<RuntimeAction> {
        if self.dispatcher_hwnd != 0 {
            seq![RuntimeAction::KillTimer { timer_id }]
        } else {
            Seq::empty()
        }
    }

    pub open spec fn trackings(self, keys: Seq<isize>) -> Seq<WindowIdentity> {
        Seq::new(keys.len(), |i: int| self.registry[keys[i]].tracking)
    }

    /// Every border goes: those of the registry in the order `keys`, then those that only the
    /// runtime itself still had in the order `strays`.
    pub open spec fn destroys_all(
        self,
        keys: Seq<isize>,
        strays: Seq<isize>,
        after: RuntimeView,
        actions: Seq<RuntimeAction>,
    ) -> bool {
        let start = RuntimeView {
            location: LocationView::idle(),
            reorder: ReorderCoalescer::idle(),
            ..self
        };
        let (emptied, destroy) = start.destroyed_each(self.trackings(keys));
        let (timed, timer) = RuntimeView { animated: Map::empty(), ..emptied }.retimed();
        &&& crate::keys::lists_keys(keys, self.registry.dom())
        &&& crate::keys::lists_keys(strays, timed.borders.dom())
        &&& after == RuntimeView { borders: Map::empty(), ..timed }
        &&& actions == self.killed(LOCATION_TIMER_ID) + seq![RuntimeAction::ClearLocationGate]
            + self.killed(REORDER_TIMER_ID) + seq![RuntimeAction::ClearReorderPending] + destroy
            + timer + dropped_each(timed.borders, strays)
    }

    /// Whether registry and borders disagree on the window behind a handle.
    pub open spec fn diverged(self, key: isize) -> bool {
        !(self.borders.contains_key(key) && self.borders[key].tracked_identity == Some(
            self.registry[key].tracking,
        ))
    }

    /// The registered windows that have no border of their own, in the order `keys`.
    pub open spec fn diverged_trackings(self, keys: Seq<isize>) -> Seq<WindowIdentity>
        decreases keys.len(),
    {
        if keys.len() == 0 {
            Seq::empty()
        } else if self.diverged(keys.last()) {
            self.diverged_trackings(keys.drop_last()).push(self.registry[keys.last()].tracking)
        } else {
            self.diverged_trackings(keys.drop_last())
        }
    }

    /// Registry and borders are brought to agree: registered windows without a border of their own
    /// go, in the order `keys`, then borders without a registered window, in the order `orphans`.
    pub open spec fn reconciles(
        self,
        keys: Seq<isize>,
        orphans: Seq<isize>,
        after: RuntimeView,
        actions: Seq<RuntimeAction>,
    ) -> bool {
        let (agreed, destroy) = self.destroyed_each(self.diverged_trackings(keys));
        let stray = agreed.borders.dom().difference(agreed.registry.dom());
        let (timed, timer) = RuntimeView {
            animated: agreed.animated.remove_keys(stray),
            borders: agreed.borders.remove_keys(stray),
            ..agreed
        }.retimed();
        &&& crate::keys::lists_keys(keys, self.registry.dom())
        &&& crate::keys::lists_keys(orphans, stray)
        &&& after == timed
        &&& actions == destroy + dropped_each(agreed.borders, orphans) + timer
    }

    /// Timers end, and with them all that waits for one.
    pub open spec fn stopped(self) -> Outcome {
        if self.dispatcher_hwnd == 0 {
            (self, Seq::empty())
        } else {
            (
                RuntimeView {
                    location: LocationView::idle(),
                    reorder: ReorderCoalescer::idle(),
                    animation_timer_interval_ms: None,
                    ..self
                },
                seq![
                    RuntimeAction::KillTimer { timer_id: LOCATION_TIMER_ID },
                    RuntimeAction::KillTimer { timer_id: REORDER_TIMER_ID },
                    RuntimeAction::KillTimer { timer_id: ANIMATION_TIMER_ID },
                    RuntimeAction::KillTimer { timer_id: FOREGROUND_POLL_TIMER_ID },
                    RuntimeAction::KillTimer { timer_id: RECONCILE_TIMER_ID },
                    RuntimeAction::ClearLocationGate,
                    RuntimeAction::ResetGraphicsRefresh,
                    RuntimeAction::ClearReorderPending,
                ],
            )
        }
    }

    /// The windows of a snapshot have been seen: borders of windows that are gone go, borders for
    /// windows that call for one are created, both in ascending order.
    pub open spec fn follows_snapshot(
        self,
        present: Map<isize, WindowIdentity>,
        creatable: Set<isize>,
        destroy: Seq<WindowIdentity>,
        create: Seq<WindowIdentity>,
        after: RuntimeView,
        actions: Seq<RuntimeAction>,
    ) -> bool {
        &&& crate::sorted::ascending_identities(destroy)
        &&& crate::sorted::ascending_identities(create)
        &&& forall|w: WindowIdentity| #[trigger]
            destroy.contains(w) <==> self.registered(w) && !crate::window_snapshot::is_present(
                present,
                w,
            )
        &&& forall|w: WindowIdentity| #[trigger]
            create.contains(w) <==> crate::window_snapshot::is_present(present, w)
                && creatable.contains(w.hwnd) && !self.registered(w)
        &&& after == self.destroyed_each(destroy).0
        &&& actions == self.destroyed_each(destroy).1 + creations(create)
    }

    /// Whether `after` and `actions` are what a command leads to. `live` is the window that the
    /// handle in the command names when it is carried out.
    pub open spec fn carries_out(
        self,
        command: BorderRuntimeCommand,
        live: Option<WindowIdentity>,
        now: u64,
        after: RuntimeView,
        actions: Seq<RuntimeAction>,
    ) -> bool {
        match command {
            BorderRuntimeCommand::Create { identity } => (after, actions) == self.after_create(
                identity,
                live,
            ),
            BorderRuntimeCommand::Destroy { identity } => (after, actions) == self.destroyed(
                identity,
            ),
            BorderRuntimeCommand::DestroyObserved { hwnd } => (after, actions)
                == self.after_observed_destroy(hwnd, live),
            BorderRuntimeCommand::DestroyAll => exists|keys: Seq<isize>, strays: Seq<isize>|
             #[trigger]
                self.destroys_all(keys, strays, after, actions),
            BorderRuntimeCommand::MarkActive { identity } => after == self.marked_active(identity)
                && actions == Seq::<RuntimeAction>::empty(),
            BorderRuntimeCommand::SetAnimation { identity, fps } => (after, actions)
                == self.with_animation(identity, fps),
            BorderRuntimeCommand::WindowEvent { identity, event } => (after, actions) == (if event
                == BorderWindowEvent::LocationChange {
                self.after_location_request(identity, now)
            } else {
                self.after_window_event(identity, event, live)
            }),
            BorderRuntimeCommand::Reorder => (after, actions) == self.after_reorder_request(now),
            BorderRuntimeCommand::Foreground { hwnd } => (after, actions) == self.after_foreground(
                hwnd,
            ),
            BorderRuntimeCommand::RefreshGraphics => after == self && actions == seq![
                RuntimeAction::BeginGraphicsRefresh,
                RuntimeAction::SyncDevices(SyncPurpose::Refresh),
            ],
            BorderRuntimeCommand::ForceRecreateDrawers { exclude } => after == self && exists|
                keys: Seq<isize>,
            |
                crate::keys::lists_keys(keys, self.registry.dom()) && actions
                    == #[trigger] self.broadcast_calls(
                    Broadcast::ForceRecreateDrawer { exclude },
                    keys,
                ),
            BorderRuntimeCommand::ReloadBorders => exists|
                keys: Seq<isize>,
                strays: Seq<isize>,
                destroy: Seq<RuntimeAction>,
            |
                #[trigger] self.destroys_all(keys, strays, after, destroy) && actions == destroy
                    + seq![
                    RuntimeAction::ClearInitialWindows,
                    RuntimeAction::SyncDevices(SyncPurpose::Reload),
                ],
            BorderRuntimeCommand::KomorebiRefresh { hwnds } => after == self && actions
                == self.broadcast_calls(Broadcast::KomorebiRefresh, hwnds@),
            BorderRuntimeCommand::ApplyUpdate { update, focused_only } => after == self && if focused_only {
                actions == (if self.registry.contains_key(self.active_window) {
                    self.broadcast_call(Broadcast::Update(update), self.active_window)
                } else {
                    Seq::empty()
                })
            } else {
                exists|keys: Seq<isize>|
                    crate::keys::lists_keys(keys, self.registry.dom()) && actions
                        == #[trigger] self.broadcast_calls(Broadcast::Update(update), keys)
            },
            BorderRuntimeCommand::Snapshot => after == self && actions == seq![
                RuntimeAction::Reply(self.snapshot()),
            ],
        }
    }

    /// Whether `after` and `actions` are what a timer leads to.
    pub open spec fn runs_timer(
        self,
        timer_id: usize,
        now: u64,
        after: RuntimeView,
        actions: Seq<RuntimeAction>,
    ) -> bool {
        if timer_id == LOCATION_TIMER_ID {
            self.runs_location_timer(now, after, actions)
        } else if timer_id == REORDER_TIMER_ID {
            (after, actions) == self.after_reorder_timer(now)
        } else if timer_id == ANIMATION_TIMER_ID {
            after == self.after_tick().0 && exists|keys: Seq<isize>|
                crate::keys::lists_keys(keys, self.animated.dom()) && actions
                    == #[trigger] self.broadcast_calls(Broadcast::AnimationTick, keys)
                    + self.after_tick().1
        } else if timer_id == FOREGROUND_POLL_TIMER_ID {
            after == self && actions == seq![RuntimeAction::PollForeground]
        } else if timer_id == RECONCILE_TIMER_ID {
            exists|keys: Seq<isize>, orphans: Seq<isize>, agree: Seq<RuntimeAction>|
                #[trigger] self.reconciles(keys, orphans, after, agree) && actions == agree + seq![
                    RuntimeAction::CollectWindows(CollectPurpose::Reconcile),
                ]
        } else {
            after == self && actions == Seq::<RuntimeAction>::empty()
        }
    }

    pub open spec fn runs_location_timer(
        self,
        now: u64,
        after: RuntimeView,
        actions: Seq<RuntimeAction>,
    ) -> bool {
        if self.dispatcher_hwnd == 0 {
            &&& after == RuntimeView { location: LocationView::idle(), ..self }
            &&& actions == seq![RuntimeAction::ClearLocationGate]
        } else {
            &&& after == RuntimeView { location: self.location.after_timer(now), ..self }
            &&& exists|moved: Seq<WindowIdentity>|
                crate::coalescing::lists_identities(moved, self.location.dirty) && actions == seq![
                    RuntimeAction::KillTimer { timer_id: LOCATION_TIMER_ID },
                ] + #[trigger] location_flushes(moved)
        }
    }

    pub open spec fn snapshot(self) -> BorderRuntimeSnapshot {
        BorderRuntimeSnapshot {
            active_window: self.active_window,
            border_count: self.registry.len() as usize,
        }
    }
}

} // verus!
