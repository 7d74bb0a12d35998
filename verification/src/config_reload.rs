//! When the configuration is read again, and by whom.
//!
//! Reading happens on a worker of its own. It is never the thread that asked for it, so that the
//! services that asked can be stopped by what was read.

use vstd::prelude::*;

verus! {

/// Nothing is being read.
pub const CONFIG_RELOAD_IDLE: u8 = 0;

/// A pass is due or running.
pub const CONFIG_RELOAD_PENDING: u8 = 1;

/// A pass is due or running, and another was asked for meanwhile.
pub const CONFIG_RELOAD_DIRTY: u8 = 2;

pub open spec fn valid_reload_state(state: u8) -> bool {
    state == CONFIG_RELOAD_IDLE || state == CONFIG_RELOAD_PENDING || state == CONFIG_RELOAD_DIRTY
}

pub open spec fn reload_requested(state: u8) -> u8 {
    if state == CONFIG_RELOAD_IDLE {
        CONFIG_RELOAD_PENDING
    } else {
        CONFIG_RELOAD_DIRTY
    }
}

/// The state once a pass has ended, and whether another one is due.
pub open spec fn pass_finished(state: u8) -> (u8, bool) {
    if state == CONFIG_RELOAD_DIRTY {
        (CONFIG_RELOAD_PENDING, true)
    } else {
        (CONFIG_RELOAD_IDLE, false)
    }
}

/// Notes that a pass is wanted. Says whether a worker has to be started for it.
pub fn mark_config_reload_requested(state: &mut u8) -> (start: bool)
    requires
        valid_reload_state(*old(state)),
    ensures
        *final(state) == reload_requested(*old(state)),
        valid_reload_state(*final(state)),
        start == (*old(state) == CONFIG_RELOAD_IDLE),
{
    if *state == CONFIG_RELOAD_IDLE {
        *state = CONFIG_RELOAD_PENDING;
        true
    } else {
        *state = CONFIG_RELOAD_DIRTY;
        false
    }
}

/// A pass has ended. Says whether another one was asked for meanwhile and must run.
pub fn finish_config_reload_pass(state: &mut u8) -> (again: bool)
    requires
        valid_reload_state(*old(state)),
    ensures
        (*final(state), again) == pass_finished(*old(state)),
        valid_reload_state(*final(state)),
{
    if *state == CONFIG_RELOAD_DIRTY {
        *state = CONFIG_RELOAD_PENDING;
        true
    } else {
        *state = CONFIG_RELOAD_IDLE;
        false
    }
}

/// What is known about reading the configuration again.
#[derive(Debug, Clone, Copy, PartialEq, Eq, Structural)]
pub struct ReloadControl {
    pub state: u8,
    pub shutting_down: bool,
    /// Whether there is a worker that has not been waited for.
    pub has_worker: bool,
}

/// What a request to read the configuration comes to.
#[derive(Debug, Clone, Copy, PartialEq, Eq, Structural)]
pub enum ReloadAction {
    Nothing,
    /// Wait for the worker of an earlier request.
    JoinWorker,
    SpawnWorker,
}

/// What the worker does next.
#[derive(Debug, Clone, Copy, PartialEq, Eq, Structural)]
pub enum WorkerAction {
    LoadConfig,
    ReloadServices,
    /// Leave the services as they are and ask next whether the borders follow.
    PassOverServices,
    ReloadBorders,
    EndPass,
    Stop,
}

impl Default for ReloadControl {
    fn default() -> (control: Self)
        ensures
            control == (ReloadControl {
                state: CONFIG_RELOAD_IDLE,
                shutting_down: false,
                has_worker: false,
            }),
    {
        ReloadControl { state: CONFIG_RELOAD_IDLE, shutting_down: false, has_worker: false }
    }
}

impl ReloadControl {
    pub open spec fn wf(self) -> bool {
        valid_reload_state(self.state)
    }

    pub open spec fn after_request(self) -> (Self, ReloadAction) {
        if self.shutting_down {
            (self, ReloadAction::Nothing)
        } else {
            let marked = ReloadControl { state: reload_requested(self.state), ..self };
            if self.state != CONFIG_RELOAD_IDLE {
                (marked, ReloadAction::Nothing)
            } else if self.has_worker {
                (ReloadControl { has_worker: false, ..marked }, ReloadAction::JoinWorker)
            } else {
                (marked, ReloadAction::SpawnWorker)
            }
        }
    }

    pub open spec fn idle(self) -> Self {
        ReloadControl { state: CONFIG_RELOAD_IDLE, ..self }
    }

    pub open spec fn after_join(self) -> (Self, ReloadAction) {
        if self.shutting_down {
            (self.idle(), ReloadAction::Nothing)
        } else {
            (self, ReloadAction::SpawnWorker)
        }
    }

    pub open spec fn after_spawn(self, started: bool) -> Self {
        if started {
            ReloadControl { has_worker: true, ..self }
        } else {
            self.idle()
        }
    }

    pub open spec fn after_begin(self) -> (Self, WorkerAction) {
        if self.shutting_down {
            (self.idle(), WorkerAction::Stop)
        } else {
            (self, WorkerAction::LoadConfig)
        }
    }

    pub open spec fn after_signal(self) -> Self {
        ReloadControl {
            state: if self.shutting_down {
                self.state
            } else {
                CONFIG_RELOAD_IDLE
            },
            shutting_down: true,
            ..self
        }
    }

    pub open spec fn after_shutdown(self) -> Self {
        ReloadControl { state: CONFIG_RELOAD_IDLE, shutting_down: true, has_worker: false }
    }

    /// The worker of an earlier request has been waited for. The end may have begun meanwhile.
    pub fn worker_joined(&mut self) -> (action: ReloadAction)
        requires
            old(self).wf(),
        ensures
            final(self).wf(),
            (*final(self), action) == old(self).after_join(),
            (*final(self), action) == (if old(self).shutting_down {
                (old(self).idle(), ReloadAction::Nothing)
            } else {
                (*old(self), ReloadAction::SpawnWorker)
            }),
    {
        if self.shutting_down {
            self.state = CONFIG_RELOAD_IDLE;
            return ReloadAction::Nothing;
        }
        ReloadAction::SpawnWorker
    }

    /// A worker has been started, or could not be.
    pub fn worker_spawned(&mut self, started: bool)
        requires
            old(self).wf(),
        ensures
            final(self).wf(),
            *final(self) == old(self).after_spawn(started),
            *final(self) == (if started {
                ReloadControl { has_worker: true, ..*old(self) }
            } else {
                old(self).idle()
            }),
    {
        if started {
            self.has_worker = true;
        } else {
            self.state = CONFIG_RELOAD_IDLE;
        }
    }

    /// The worker is about to begin a pass.
    pub fn begin_pass(&mut self) -> (action: WorkerAction)
        requires
            old(self).wf(),
        ensures
            final(self).wf(),
            (*final(self), action) == old(self).after_begin(),
            (*final(self), action) == (if old(self).shutting_down {
                (old(self).idle(), WorkerAction::Stop)
            } else {
                (*old(self), WorkerAction::LoadConfig)
            }),
    {
        if self.shutting_down {
            self.state = CONFIG_RELOAD_IDLE;
            return WorkerAction::Stop;
        }
        WorkerAction::LoadConfig
    }

    pub open spec fn after_load(self, parsed_successfully: bool) -> WorkerAction {
        if parsed_successfully && !self.shutting_down {
            WorkerAction::ReloadServices
        } else {
            WorkerAction::PassOverServices
        }
    }

    pub open spec fn after_services(self, config_changed: bool) -> WorkerAction {
        if config_changed && !self.shutting_down {
            WorkerAction::ReloadBorders
        } else {
            WorkerAction::EndPass
        }
    }

    /// The configuration has been read. Services follow it only if it was understood: a broken file
    /// must not stop the watcher that will see it mended. Borders are asked about in either case.
    pub fn config_loaded(&self, parsed_successfully: bool) -> (action: WorkerAction)
        ensures
            action == self.after_load(parsed_successfully),
    {
        if parsed_successfully && !self.shutting_down {
            WorkerAction::ReloadServices
        } else {
            WorkerAction::PassOverServices
        }
    }

    /// Services have followed, or were passed over. Borders follow where the configuration has
    /// changed.
    pub fn services_reloaded(&self, config_changed: bool) -> (action: WorkerAction)
        ensures
            action == self.after_services(config_changed),
    {
        if config_changed && !self.shutting_down {
            WorkerAction::ReloadBorders
        } else {
            WorkerAction::EndPass
        }
    }

    pub open spec fn after_pass(self) -> (Self, WorkerAction) {
        if self.shutting_down {
            (self.idle(), WorkerAction::Stop)
        } else {
            let (state, again) = pass_finished(self.state);
            (
                ReloadControl { state, ..self },
                if again {
                    WorkerAction::LoadConfig
                } else {
                    WorkerAction::Stop
                },
            )
        }
    }

    /// A pass has come to its end.
    pub fn end_pass(&mut self) -> (action: WorkerAction)
        requires
            old(self).wf(),
        ensures
            final(self).wf(),
            (*final(self), action) == old(self).after_pass(),
    {
        if self.shutting_down {
            self.state = CONFIG_RELOAD_IDLE;
            return WorkerAction::Stop;
        }
        if finish_config_reload_pass(&mut self.state) {
            WorkerAction::LoadConfig
        } else {
            WorkerAction::Stop
        }
    }

    /// The worker ended without coming to the end of its pass.
    pub fn worker_failed(&mut self)
        ensures
            *final(self) == old(self).idle(),
    {
        self.state = CONFIG_RELOAD_IDLE;
    }
}

/// Asks for the configuration to be read again.
pub fn request_config_reload(control: &mut ReloadControl) -> (action: ReloadAction)
    requires
        old(control).wf(),
    ensures
        final(control).wf(),
        (*final(control), action) == old(control).after_request(),
{
    if control.shutting_down {
        return ReloadAction::Nothing;
    }
    if !mark_config_reload_requested(&mut control.state) {
        return ReloadAction::Nothing;
    }
    if control.has_worker {
        control.has_worker = false;
        ReloadAction::JoinWorker
    } else {
        ReloadAction::SpawnWorker
    }
}

/// The watcher has seen the file change. It only asks: what is read may end the watcher itself.
pub fn config_watcher_callback(control: &mut ReloadControl) -> (action: ReloadAction)
    requires
        old(control).wf(),
    ensures
        final(control).wf(),
        (*final(control), action) == old(control).after_request(),
{
    request_config_reload(control)
}

/// Begins the end: no further request is taken. Says whether there is a worker to wait for.
pub fn begin_config_shutdown(control: &mut ReloadControl) -> (join_worker: bool)
    ensures
        join_worker == old(control).has_worker,
        *final(control) == old(control).after_shutdown(),
        *final(control) == (ReloadControl {
            state: CONFIG_RELOAD_IDLE,
            shutting_down: true,
            has_worker: false,
        }),
{
    let join_worker = control.has_worker;
    control.shutting_down = true;
    control.state = CONFIG_RELOAD_IDLE;
    control.has_worker = false;
    join_worker
}

/// Stops taking requests without waiting for the worker. Says whether requests were taken until now:
/// the end begins once.
pub fn signal_config_shutdown(control: &mut ReloadControl) -> (first: bool)
    ensures
        first == !old(control).shutting_down,
        *final(control) == old(control).after_signal(),
        *final(control) == (ReloadControl {
            state: if first {
                CONFIG_RELOAD_IDLE
            } else {
                old(control).state
            },
            shutting_down: true,
            ..*old(control)
        }),
{
    if control.shutting_down {
        return false;
    }
    control.shutting_down = true;
    control.state = CONFIG_RELOAD_IDLE;
    true
}

/// Says whether there is a worker to wait for. It is waited for once.
pub fn join_config_reload_worker(control: &mut ReloadControl) -> (join_worker: bool)
    ensures
        join_worker == old(control).has_worker,
        *final(control) == (ReloadControl { has_worker: false, ..*old(control) }),
{
    let join_worker = control.has_worker;
    control.has_worker = false;
    join_worker
}

/// A message about the configuration is to be shown. Says whether it is: one at a time.
pub fn show_config_error_once(dialog_open: &mut bool) -> (show: bool)
    ensures
        show == !*old(dialog_open),
        *final(dialog_open),
{
    let show = !*dialog_open;
    *dialog_open = true;
    show
}

/// The message has been closed, or could not be shown.
pub fn config_error_closed(dialog_open: &mut bool)
    ensures
        !*final(dialog_open),
{
    *dialog_open = false;
}

/// A request that comes in while a pass runs leads to one more pass, however many there are; the
/// pass after that is the last one.
pub proof fn law_requests_during_pass_lead_to_one_more(count: nat)
    ensures
        count > 0 ==> pass_finished(requested_times(CONFIG_RELOAD_PENDING, count)) == (
            CONFIG_RELOAD_PENDING,
            true,
        ),
        pass_finished(requested_times(CONFIG_RELOAD_PENDING, 0)) == (CONFIG_RELOAD_IDLE, false),
        pass_finished(CONFIG_RELOAD_PENDING) == (CONFIG_RELOAD_IDLE, false),
    decreases count,
{
    if count > 1 {
        law_requests_during_pass_lead_to_one_more((count - 1) as nat);
    }
    reveal_with_fuel(requested_times, 2);
}

/// The state after `count` requests.
pub open spec fn requested_times(state: u8, count: nat) -> u8
    decreases count,
{
    if count == 0 {
        state
    } else {
        reload_requested(requested_times(state, (count - 1) as nat))
    }
}

/// No request is lost: at any time before the end, a request starts a worker, waits for the last
/// one in order to start one, or makes the running one go round again.
pub proof fn law_reload_requests_are_not_lost(control: ReloadControl)
    requires
        control.wf(),
        !control.shutting_down,
    ensures
        ({
            let (after, action) = control.after_request();
            action != ReloadAction::Nothing || after.after_pass().1 == WorkerAction::LoadConfig
        }),
{
}

/// A file that was not understood leaves the services alone, but not the borders: they follow
/// whatever configuration is in force now, if it is another one than before.
pub proof fn law_broken_config_concerns_borders_only(control: ReloadControl, config_changed: bool)
    requires
        !control.shutting_down,
    ensures
        control.after_load(false) == WorkerAction::PassOverServices,
        control.after_load(true) == WorkerAction::ReloadServices,
        control.after_services(config_changed) == WorkerAction::ReloadBorders <==> config_changed,
{
}

/// Once the end has begun, no request and no pass starts anything, and a running pass changes
/// neither services nor borders any more.
pub proof fn law_nothing_starts_after_shutdown(
    control: ReloadControl,
    parsed_successfully: bool,
    config_changed: bool,
)
    requires
        control.shutting_down,
    ensures
        control.after_request() == (control, ReloadAction::Nothing),
        control.after_load(parsed_successfully) == WorkerAction::PassOverServices,
        control.after_services(config_changed) == WorkerAction::EndPass,
        control.after_pass().1 == WorkerAction::Stop,
{
}

/// A request is taken at any time before the end. The first one since the last pass starts a worker,
/// or waits for the one before it and starts one then; the others only make the pass run again. The
/// configuration is read by one worker at a time.
pub proof fn law_one_worker_reads_at_a_time(control: ReloadControl)
    requires
        control.wf(),
        !control.shutting_down,
    ensures
        ({
            let (after, action) = control.after_request();
            let (joined, then) = after.after_join();
            &&& action is Nothing <==> control.state != CONFIG_RELOAD_IDLE
            &&& action is JoinWorker <==> control.state == CONFIG_RELOAD_IDLE && control.has_worker
            &&& action is SpawnWorker <==> control.state == CONFIG_RELOAD_IDLE
                && !control.has_worker
            &&& after.state != CONFIG_RELOAD_IDLE
            &&& action is SpawnWorker || action is JoinWorker ==> !after.has_worker
                && after.state == CONFIG_RELOAD_PENDING
            &&& action is JoinWorker ==> then is SpawnWorker && joined == after
            &&& after.after_spawn(true).has_worker
            &&& after.after_spawn(true).state == after.state
            &&& after.after_spawn(false).state == CONFIG_RELOAD_IDLE
            &&& !after.after_spawn(false).shutting_down
            &&& after.after_begin() == (after, WorkerAction::LoadConfig)
        }),
{
}

/// A pass that nothing was asked for during is the last one, and the next request starts a worker
/// again; one that something was asked for during is followed by another.
pub proof fn law_passes_end_when_nothing_is_asked(control: ReloadControl)
    requires
        control.wf(),
        !control.shutting_down,
    ensures
        control.state == CONFIG_RELOAD_DIRTY ==> control.after_pass() == (
            ReloadControl { state: CONFIG_RELOAD_PENDING, ..control },
            WorkerAction::LoadConfig,
        ),
        control.state != CONFIG_RELOAD_DIRTY ==> control.after_pass() == (
            ReloadControl { state: CONFIG_RELOAD_IDLE, ..control },
            WorkerAction::Stop,
        ),
        CONFIG_RELOAD_IDLE != CONFIG_RELOAD_PENDING,
        CONFIG_RELOAD_PENDING != CONFIG_RELOAD_DIRTY,
        CONFIG_RELOAD_IDLE != CONFIG_RELOAD_DIRTY,
{
}

/// However the end is begun, it has begun: no request is taken from then on, a worker that is waited
/// for or about to begin starts nothing, and signaling it again changes nothing. Only the final end
/// forgets the worker; a signal leaves it to be waited for.
pub proof fn law_end_has_begun_for_good(control: ReloadControl)
    ensures
        control.after_signal().shutting_down,
        control.after_shutdown().shutting_down,
        control.after_signal().after_request() == (control.after_signal(), ReloadAction::Nothing),
        control.after_shutdown().after_request() == (
            control.after_shutdown(),
            ReloadAction::Nothing,
        ),
        control.after_signal().after_join().1 is Nothing,
        control.after_signal().after_begin().1 is Stop,
        control.after_signal().after_signal() == control.after_signal(),
        control.after_signal().has_worker == control.has_worker,
        !control.shutting_down ==> control.after_signal().state == CONFIG_RELOAD_IDLE,
        !control.after_shutdown().has_worker,
        control.after_shutdown().state == CONFIG_RELOAD_IDLE,
{
}

/// There are three states, and requests and ended passes lead from each of them to one of them.
pub proof fn law_reload_states_are_three(state: u8)
    ensures
        valid_reload_state(state) <==> state <= 2,
        valid_reload_state(reload_requested(state)),
        reload_requested(state) != CONFIG_RELOAD_IDLE,
        valid_reload_state(pass_finished(state).0),
        pass_finished(state).1 <==> pass_finished(state).0 != CONFIG_RELOAD_IDLE,
{
}

} // verus!
