//! When shared graphics devices are refreshed, replaced or let go.

use vstd::prelude::*;

use crate::render_backend::RenderBackendConfig;

verus! {

/// No refresh is on its way.
pub const GRAPHICS_REFRESH_IDLE: u8 = 0;

/// One refresh is on its way or running.
pub const GRAPHICS_REFRESH_PENDING: u8 = 1;

/// One refresh is on its way or running, and another was asked for meanwhile.
pub const GRAPHICS_REFRESH_DIRTY: u8 = 2;

pub open spec fn valid_refresh_state(state: u8) -> bool {
    state == GRAPHICS_REFRESH_IDLE || state == GRAPHICS_REFRESH_PENDING || state
        == GRAPHICS_REFRESH_DIRTY
}

/// The state after a refresh was asked for.
pub open spec fn refresh_requested(state: u8) -> u8 {
    if state == GRAPHICS_REFRESH_IDLE {
        GRAPHICS_REFRESH_PENDING
    } else {
        GRAPHICS_REFRESH_DIRTY
    }
}

/// Notes that a refresh is wanted. Says whether it has to be sent to the runtime: that is so only
/// where none is on its way.
pub fn mark_graphics_refresh_requested(state: &mut u8) -> (send: bool)
    requires
        valid_refresh_state(*old(state)),
    ensures
        valid_refresh_state(*final(state)),
        *final(state) == refresh_requested(*old(state)),
        send == (*old(state) == GRAPHICS_REFRESH_IDLE),
{
    if *state == GRAPHICS_REFRESH_IDLE {
        *state = GRAPHICS_REFRESH_PENDING;
        true
    } else {
        *state = GRAPHICS_REFRESH_DIRTY;
        false
    }
}

/// A refresh starts. Whatever was asked for up to now is covered by it.
pub fn begin_graphics_refresh(state: &mut u8)
    ensures
        *final(state) == GRAPHICS_REFRESH_PENDING,
{
    *state = GRAPHICS_REFRESH_PENDING;
}

/// A refresh has ended. Says whether another one was asked for while it ran.
pub fn finish_graphics_refresh(state: &mut u8) -> (again: bool)
    ensures
        *final(state) == GRAPHICS_REFRESH_IDLE,
        again == (*old(state) == GRAPHICS_REFRESH_DIRTY),
{
    let again = *state == GRAPHICS_REFRESH_DIRTY;
    *state = GRAPHICS_REFRESH_IDLE;
    again
}

/// The state after `count` requests.
pub open spec fn refresh_requested_times(state: u8, count: nat) -> u8
    decreases count,
{
    if count == 0 {
        state
    } else {
        refresh_requested(refresh_requested_times(state, (count - 1) as nat))
    }
}

/// Requests that come in while a refresh runs, however many, lead to one more refresh; without
/// any there is none.
pub proof fn law_requests_during_refresh_lead_to_one_more(count: nat)
    ensures
        (refresh_requested_times(GRAPHICS_REFRESH_PENDING, count) == GRAPHICS_REFRESH_DIRTY) <==> (
        count > 0),
    decreases count,
{
    if count > 0 {
        law_requests_during_refresh_lead_to_one_more((count - 1) as nat);
    }
}

/// Of the requests that come in between two refreshes only the first one is sent.
pub proof fn law_only_first_request_is_sent(count: nat)
    ensures
        (refresh_requested_times(GRAPHICS_REFRESH_IDLE, count) == GRAPHICS_REFRESH_IDLE) <==> (count
            == 0),
    decreases count,
{
    if count > 0 {
        law_only_first_request_is_sent((count - 1) as nat);
    }
}

/// Why a border cannot draw any more.
#[derive(Debug, Clone, Copy, PartialEq, Eq, Structural)]
pub enum GraphicsRecoveryReason {
    RenderTargetLost,
    DeviceLost,
}

/// The code 0x8899000C.
pub const D2DERR_RECREATE_TARGET: i32 = -2003238900;

/// The code 0x887A0005.
pub const DXGI_ERROR_DEVICE_REMOVED: i32 = -2005270523;

/// The code 0x887A0007.
pub const DXGI_ERROR_DEVICE_RESET: i32 = -2005270521;

/// What has to be created anew because of an error code, if anything.
pub open spec fn recovery_for(code: i32) -> Option<GraphicsRecoveryReason> {
    if code == D2DERR_RECREATE_TARGET {
        Some(GraphicsRecoveryReason::RenderTargetLost)
    } else if code == DXGI_ERROR_DEVICE_REMOVED || code == DXGI_ERROR_DEVICE_RESET {
        Some(GraphicsRecoveryReason::DeviceLost)
    } else {
        None
    }
}

/// Whether an error code means that something has to be created anew, and what.
pub fn classify_graphics_error(code: i32) -> (reason: Option<GraphicsRecoveryReason>)
    ensures
        reason == recovery_for(code),
        reason == (if code == D2DERR_RECREATE_TARGET {
            Some(GraphicsRecoveryReason::RenderTargetLost)
        } else if code == DXGI_ERROR_DEVICE_REMOVED || code == DXGI_ERROR_DEVICE_RESET {
            Some(GraphicsRecoveryReason::DeviceLost)
        } else {
            None
        }),
{
    if code == D2DERR_RECREATE_TARGET {
        Some(GraphicsRecoveryReason::RenderTargetLost)
    } else if code == DXGI_ERROR_DEVICE_REMOVED || code == DXGI_ERROR_DEVICE_RESET {
        Some(GraphicsRecoveryReason::DeviceLost)
    } else {
        None
    }
}

/// What is to be done with the shared devices.
#[derive(Debug, Clone, Copy, PartialEq, Eq, Structural)]
pub enum DeviceAction {
    Keep,
    /// Create them again if the adapter has changed.
    RecreateIfNeeded,
    /// Create them, in place of those there may be.
    Create,
    Discard,
}

/// What is done with the devices so that they match the renderer.
pub open spec fn devices_for(render_backend: RenderBackendConfig, have_devices: bool) -> DeviceAction {
    match render_backend {
        RenderBackendConfig::V2 => if have_devices {
            DeviceAction::RecreateIfNeeded
        } else {
            DeviceAction::Create
        },
        RenderBackendConfig::Legacy => DeviceAction::Discard,
    }
}

/// What is done with the devices where they have to be new.
pub open spec fn new_devices_for(render_backend: RenderBackendConfig) -> DeviceAction {
    match render_backend {
        RenderBackendConfig::V2 => DeviceAction::Create,
        RenderBackendConfig::Legacy => DeviceAction::Discard,
    }
}

/// What is done with the devices because of an error.
pub open spec fn devices_after_error(
    reason: GraphicsRecoveryReason,
    render_backend: RenderBackendConfig,
) -> DeviceAction {
    match reason {
        GraphicsRecoveryReason::RenderTargetLost => DeviceAction::Keep,
        GraphicsRecoveryReason::DeviceLost => new_devices_for(render_backend),
    }
}

/// Devices to match the configured renderer.
pub fn sync_directx_devices_with_config(
    render_backend: RenderBackendConfig,
    have_devices: bool,
) -> (action: DeviceAction)
    ensures
        action == devices_for(render_backend, have_devices),
        action == (match render_backend {
            RenderBackendConfig::V2 => if have_devices {
                DeviceAction::RecreateIfNeeded
            } else {
                DeviceAction::Create
            },
            RenderBackendConfig::Legacy => DeviceAction::Discard,
        }),
{
    match render_backend {
        RenderBackendConfig::V2 => if have_devices {
            DeviceAction::RecreateIfNeeded
        } else {
            DeviceAction::Create
        },
        RenderBackendConfig::Legacy => DeviceAction::Discard,
    }
}

/// New devices even where the adapter is still the same.
pub fn force_recreate_directx_devices_with_config(render_backend: RenderBackendConfig) -> (action:
    DeviceAction)
    ensures
        action == new_devices_for(render_backend),
        action == (match render_backend {
            RenderBackendConfig::V2 => DeviceAction::Create,
            RenderBackendConfig::Legacy => DeviceAction::Discard,
        }),
{
    match render_backend {
        RenderBackendConfig::V2 => DeviceAction::Create,
        RenderBackendConfig::Legacy => DeviceAction::Discard,
    }
}

/// A lost target concerns one border only. A lost device has to be replaced for all of them.
pub fn recover_directx_devices_for_render_error(
    reason: GraphicsRecoveryReason,
    render_backend: RenderBackendConfig,
) -> (action: DeviceAction)
    ensures
        action == devices_after_error(reason, render_backend),
        action == (match (reason, render_backend) {
            (GraphicsRecoveryReason::RenderTargetLost, _) => DeviceAction::Keep,
            (GraphicsRecoveryReason::DeviceLost, RenderBackendConfig::V2) => DeviceAction::Create,
            (GraphicsRecoveryReason::DeviceLost, RenderBackendConfig::Legacy) => DeviceAction::Discard,
        }),
{
    match reason {
        GraphicsRecoveryReason::RenderTargetLost => DeviceAction::Keep,
        GraphicsRecoveryReason::DeviceLost => force_recreate_directx_devices_with_config(
            render_backend,
        ),
    }
}

/// The codes that call for something to be created anew are three: one for a target, two for a
/// device. Written as unsigned numbers they are 0x8899000c, 0x887a0005 and 0x887a0007.
pub proof fn law_three_codes_call_for_recovery(code: i32)
    ensures
        recovery_for(code) == Some(GraphicsRecoveryReason::RenderTargetLost) <==> code
            + 0x1_0000_0000 == 0x8899_000c,
        recovery_for(code) == Some(GraphicsRecoveryReason::DeviceLost) <==> code + 0x1_0000_0000
            == 0x887a_0005 || code + 0x1_0000_0000 == 0x887a_0007,
        code >= 0 ==> recovery_for(code) is None,
{
}

/// The renderer that needs no shared devices never gets any: they go, or stay as they are where the
/// error concerns one border only. The other one always ends up with devices; new ones are made
/// where there are none or where new ones are asked for, and otherwise only if they have to be. A
/// lost target costs no device; a lost device is as good as a request for new ones.
pub proof fn law_devices_match_the_renderer(
    reason: GraphicsRecoveryReason,
    render_backend: RenderBackendConfig,
    have_devices: bool,
)
    ensures
        render_backend is Legacy ==> devices_for(render_backend, have_devices) is Discard
            && new_devices_for(render_backend) is Discard,
        render_backend is V2 ==> devices_for(render_backend, have_devices) !is Discard
            && new_devices_for(render_backend) is Create,
        devices_for(render_backend, have_devices) is Create <==> render_backend is V2
            && !have_devices,
        devices_for(render_backend, have_devices) is RecreateIfNeeded <==> render_backend is V2
            && have_devices,
        devices_after_error(reason, render_backend) is Keep <==> reason is RenderTargetLost,
        devices_after_error(GraphicsRecoveryReason::DeviceLost, render_backend) == new_devices_for(
            render_backend,
        ),
{
}

/// There are three states, told apart, and a request leads from each of them to one of them.
pub proof fn law_refresh_states_are_three(state: u8)
    ensures
        valid_refresh_state(state) <==> state <= 2,
        valid_refresh_state(refresh_requested(state)),
        refresh_requested(state) != GRAPHICS_REFRESH_IDLE,
        GRAPHICS_REFRESH_IDLE != GRAPHICS_REFRESH_PENDING,
        GRAPHICS_REFRESH_PENDING != GRAPHICS_REFRESH_DIRTY,
        GRAPHICS_REFRESH_IDLE != GRAPHICS_REFRESH_DIRTY,
{
}

} // verus!
