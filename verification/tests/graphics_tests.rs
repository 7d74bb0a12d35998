use tacky_borders::graphics::{
    begin_graphics_refresh, classify_graphics_error, finish_graphics_refresh,
    force_recreate_directx_devices_with_config, mark_graphics_refresh_requested,
    recover_directx_devices_for_render_error, sync_directx_devices_with_config, DeviceAction,
    GraphicsRecoveryReason, D2DERR_RECREATE_TARGET, DXGI_ERROR_DEVICE_REMOVED,
    DXGI_ERROR_DEVICE_RESET, GRAPHICS_REFRESH_DIRTY, GRAPHICS_REFRESH_IDLE,
    GRAPHICS_REFRESH_PENDING,
};
use tacky_borders::render_backend::{RenderBackend, RenderBackendConfig};

#[test]
fn graphics_refresh_gate_coalesces_before_runtime_execution() {
    let mut state = GRAPHICS_REFRESH_IDLE;
    assert!(mark_graphics_refresh_requested(&mut state));
    assert_eq!(state, GRAPHICS_REFRESH_PENDING);
    assert!(!mark_graphics_refresh_requested(&mut state));
    assert_eq!(state, GRAPHICS_REFRESH_DIRTY);

    begin_graphics_refresh(&mut state);
    assert_eq!(state, GRAPHICS_REFRESH_PENDING);
    assert!(!finish_graphics_refresh(&mut state));
    assert_eq!(state, GRAPHICS_REFRESH_IDLE);
}

#[test]
fn graphics_refresh_gate_requests_trailing_pass_for_event_during_execution() {
    let mut state = GRAPHICS_REFRESH_PENDING;
    begin_graphics_refresh(&mut state);
    assert!(!mark_graphics_refresh_requested(&mut state));
    assert_eq!(state, GRAPHICS_REFRESH_DIRTY);
    assert!(finish_graphics_refresh(&mut state));
    assert_eq!(state, GRAPHICS_REFRESH_IDLE);
}

#[test]
fn graphics_refresh_gate_can_queue_again_after_completion() {
    let mut state = GRAPHICS_REFRESH_PENDING;
    begin_graphics_refresh(&mut state);
    assert!(!finish_graphics_refresh(&mut state));
    assert!(mark_graphics_refresh_requested(&mut state));
    assert_eq!(state, GRAPHICS_REFRESH_PENDING);
}

#[test]
fn graphics_error_classifies_render_target_loss() {
    assert_eq!(
        classify_graphics_error(D2DERR_RECREATE_TARGET),
        Some(GraphicsRecoveryReason::RenderTargetLost)
    );
}

#[test]
fn graphics_error_classifies_device_loss_and_ignores_other_errors() {
    assert_eq!(
        classify_graphics_error(DXGI_ERROR_DEVICE_REMOVED),
        Some(GraphicsRecoveryReason::DeviceLost)
    );
    assert_eq!(
        classify_graphics_error(DXGI_ERROR_DEVICE_RESET),
        Some(GraphicsRecoveryReason::DeviceLost)
    );
    assert_eq!(classify_graphics_error(0), None);
}

#[test]
fn error_codes_have_their_documented_patterns() {
    assert_eq!(D2DERR_RECREATE_TARGET as u32, 0x8899_000c);
    assert_eq!(DXGI_ERROR_DEVICE_REMOVED as u32, 0x887a_0005);
    assert_eq!(DXGI_ERROR_DEVICE_RESET as u32, 0x887a_0007);
}

#[test]
fn many_requests_during_refresh_lead_to_one_more() {
    let mut state = GRAPHICS_REFRESH_IDLE;
    assert!(mark_graphics_refresh_requested(&mut state));
    begin_graphics_refresh(&mut state);
    for _ in 0..10 {
        assert!(!mark_graphics_refresh_requested(&mut state));
    }
    assert!(finish_graphics_refresh(&mut state));
    assert!(!finish_graphics_refresh(&mut state));
}

#[test]
fn devices_follow_the_configured_backend() {
    assert_eq!(
        sync_directx_devices_with_config(RenderBackendConfig::V2, true),
        DeviceAction::RecreateIfNeeded
    );
    assert_eq!(
        sync_directx_devices_with_config(RenderBackendConfig::V2, false),
        DeviceAction::Create
    );
    assert_eq!(
        sync_directx_devices_with_config(RenderBackendConfig::Legacy, true),
        DeviceAction::Discard
    );
    assert_eq!(
        force_recreate_directx_devices_with_config(RenderBackendConfig::V2),
        DeviceAction::Create
    );
    assert_eq!(
        force_recreate_directx_devices_with_config(RenderBackendConfig::Legacy),
        DeviceAction::Discard
    );
}

#[test]
fn only_device_loss_touches_shared_devices() {
    assert_eq!(
        recover_directx_devices_for_render_error(
            GraphicsRecoveryReason::RenderTargetLost,
            RenderBackendConfig::V2
        ),
        DeviceAction::Keep
    );
    assert_eq!(
        recover_directx_devices_for_render_error(
            GraphicsRecoveryReason::DeviceLost,
            RenderBackendConfig::V2
        ),
        DeviceAction::Create
    );
    assert_eq!(
        recover_directx_devices_for_render_error(
            GraphicsRecoveryReason::DeviceLost,
            RenderBackendConfig::Legacy
        ),
        DeviceAction::Discard
    );
}

#[test]
fn only_the_second_backend_supports_effects() {
    assert!(RenderBackend::V2.supports_effects());
    assert!(!RenderBackend::Legacy.supports_effects());
    assert!(!RenderBackend::Absent.supports_effects());
}
