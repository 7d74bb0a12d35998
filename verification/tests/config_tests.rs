use tacky_borders::animations::AnimationsConfig;
use tacky_borders::border_config::BorderConfig;
use tacky_borders::border_drawer::BorderDrawer;
use tacky_borders::colors::ColorBrushConfig;
use tacky_borders::config::{
    serde_default_bool, serde_default_global, serde_default_i32, serde_default_u64, Config,
    EnableMode, Global, LoadAction, LoadStep, MatchKind, MatchStrategy, Offset, OffsetConfig,
    RadiusBasis, RadiusConfig, WidthConfig, WindowRule, ZOrderMode, DWMWCP_DEFAULT,
    DWMWCP_DONOTROUND, DWMWCP_ROUND, DWMWCP_ROUNDSMALL,
};
use tacky_borders::config_reload::{
    begin_config_shutdown, config_error_closed, config_watcher_callback, finish_config_reload_pass,
    join_config_reload_worker, mark_config_reload_requested, request_config_reload,
    show_config_error_once, signal_config_shutdown, ReloadAction, ReloadControl, WorkerAction,
    CONFIG_RELOAD_DIRTY, CONFIG_RELOAD_IDLE, CONFIG_RELOAD_PENDING,
};
use tacky_borders::effects::EffectsConfig;
use tacky_borders::float_bits::FloatBits;
use tacky_borders::ipc::socket_path;
use tacky_borders::komorebi::KomorebiColorsConfig;
use tacky_borders::render_backend::RenderBackendConfig;

fn bits(value: f32) -> FloatBits {
    FloatBits {
        bits: value.to_bits(),
    }
}

fn plain(text: &str) -> ColorBrushConfig {
    ColorBrushConfig::Plain(text.to_string())
}

fn themed(text: &str) -> ColorBrushConfig {
    ColorBrushConfig::ThemeAware(text.to_string())
}

fn komorebi(enabled: bool) -> KomorebiColorsConfig {
    KomorebiColorsConfig {
        stack_color: None,
        monocle_color: None,
        floating_color: None,
        enabled,
    }
}

fn global() -> Global {
    Global {
        border_width: WidthConfig::new(bits(0.0)),
        border_offset: OffsetConfig::default(),
        border_radius: RadiusConfig::Auto,
        border_z_order: ZOrderMode::AboveWindow,
        follow_native_border: true,
        active_color: plain("#ffffff"),
        inactive_color: plain("#000000"),
        komorebi_colors: komorebi(false),
        animations: AnimationsConfig {
            active: Vec::new(),
            inactive: Vec::new(),
            fps: 60,
            enabled: true,
        },
        effects: EffectsConfig {
            text: "global".to_string(),
        },
        initialize_delay: 250,
        unminimize_delay: 200,
    }
}

fn rule() -> WindowRule {
    WindowRule {
        kind: None,
        name: None,
        strategy: None,
        border_width: None,
        border_offset: None,
        border_radius: None,
        border_z_order: None,
        follow_native_border: None,
        active_color: None,
        inactive_color: None,
        komorebi_colors: None,
        animations: None,
        effects: None,
        initialize_delay: None,
        unminimize_delay: None,
        enabled: None,
    }
}

fn config() -> Config {
    Config {
        watch_config_changes: false,
        enable_logging: true,
        enable_ipc_server: true,
        render_backend: RenderBackendConfig::V2,
        global: global(),
        window_rules: Vec::new(),
    }
}

#[test]
fn config_reload_gate_coalesces_and_runs_one_trailing_pass() {
    let mut state = CONFIG_RELOAD_IDLE;
    assert!(mark_config_reload_requested(&mut state));
    assert_eq!(state, CONFIG_RELOAD_PENDING);
    assert!(!mark_config_reload_requested(&mut state));
    assert_eq!(state, CONFIG_RELOAD_DIRTY);
    assert!(finish_config_reload_pass(&mut state));
    assert_eq!(state, CONFIG_RELOAD_PENDING);
    assert!(!finish_config_reload_pass(&mut state));
    assert_eq!(state, CONFIG_RELOAD_IDLE);
}

#[test]
fn config_reload_gate_can_start_again_after_completion() {
    let mut state = CONFIG_RELOAD_IDLE;
    assert!(mark_config_reload_requested(&mut state));
    assert!(!finish_config_reload_pass(&mut state));
    assert!(mark_config_reload_requested(&mut state));
}

#[test]
fn finishing_an_idle_pass_stays_idle() {
    let mut state = CONFIG_RELOAD_IDLE;
    assert!(!finish_config_reload_pass(&mut state));
    assert_eq!(state, CONFIG_RELOAD_IDLE);
}

#[test]
fn reload_request_spawns_joins_and_coalesces() {
    let mut control = ReloadControl::default();
    assert_eq!(request_config_reload(&mut control), ReloadAction::SpawnWorker);
    control.worker_spawned(true);
    assert!(control.has_worker);

    // While the worker runs, a request only makes it go round again.
    assert_eq!(config_watcher_callback(&mut control), ReloadAction::Nothing);
    assert_eq!(control.begin_pass(), WorkerAction::LoadConfig);
    assert_eq!(control.config_loaded(true), WorkerAction::ReloadServices);
    assert_eq!(control.services_reloaded(true), WorkerAction::ReloadBorders);
    assert_eq!(control.end_pass(), WorkerAction::LoadConfig);
    assert_eq!(control.end_pass(), WorkerAction::Stop);
    assert_eq!(control.state, CONFIG_RELOAD_IDLE);

    // The next request waits for the finished worker before it starts another one.
    assert_eq!(Config::reload(&mut control), ReloadAction::JoinWorker);
    assert_eq!(control.worker_joined(), ReloadAction::SpawnWorker);
    control.worker_spawned(false);
    assert_eq!(control.state, CONFIG_RELOAD_IDLE);
    assert!(!control.has_worker);
}

#[test]
fn broken_config_reloads_borders_but_no_services() {
    let control = ReloadControl::default();
    assert_eq!(control.config_loaded(false), WorkerAction::PassOverServices);
    assert_eq!(control.services_reloaded(false), WorkerAction::EndPass);
    assert_eq!(control.services_reloaded(true), WorkerAction::ReloadBorders);
}

#[test]
fn shutdown_stops_requests_passes_and_services() {
    let mut control = ReloadControl::default();
    request_config_reload(&mut control);
    control.worker_spawned(true);
    assert!(begin_config_shutdown(&mut control));
    assert_eq!(
        control,
        ReloadControl {
            state: CONFIG_RELOAD_IDLE,
            shutting_down: true,
            has_worker: false,
        }
    );
    assert!(!begin_config_shutdown(&mut control));
    assert_eq!(request_config_reload(&mut control), ReloadAction::Nothing);
    assert_eq!(control.worker_joined(), ReloadAction::Nothing);
    assert_eq!(control.begin_pass(), WorkerAction::Stop);
    assert_eq!(control.config_loaded(true), WorkerAction::PassOverServices);
    assert_eq!(control.services_reloaded(true), WorkerAction::EndPass);
    assert_eq!(control.end_pass(), WorkerAction::Stop);
}

#[test]
fn shutdown_is_signaled_once_and_worker_joined_once() {
    let mut control = ReloadControl::default();
    request_config_reload(&mut control);
    control.worker_spawned(true);
    assert!(signal_config_shutdown(&mut control));
    assert!(!signal_config_shutdown(&mut control));
    assert!(join_config_reload_worker(&mut control));
    assert!(!join_config_reload_worker(&mut control));
}

#[test]
fn failed_worker_leaves_control_idle() {
    let mut control = ReloadControl::default();
    request_config_reload(&mut control);
    control.worker_failed();
    assert_eq!(control.state, CONFIG_RELOAD_IDLE);
}

#[test]
fn config_error_is_shown_one_at_a_time() {
    let mut open = false;
    assert!(show_config_error_once(&mut open));
    assert!(!show_config_error_once(&mut open));
    config_error_closed(&mut open);
    assert!(show_config_error_once(&mut open));
}

#[test]
fn serde_defaults_give_their_constant() {
    assert_eq!(serde_default_u64::<250>(), 250);
    assert_eq!(serde_default_i32::<60>(), 60);
    assert!(serde_default_bool::<true>());
    assert!(!serde_default_bool::<false>());
}

#[test]
fn missing_global_section_has_visible_borders() {
    let global = serde_default_global();
    assert_eq!(global.border_width, WidthConfig::new(bits(4.0)));
    assert_eq!(global.border_offset, OffsetConfig::Uniform(-1));
    assert_eq!(
        Global {
            border_width: WidthConfig::default(),
            border_offset: OffsetConfig::default(),
            ..global
        },
        Global::default()
    );
}

#[test]
fn offsets_are_scaled_side_by_side() {
    let double = |value: i32| value * 2;
    assert_eq!(OffsetConfig::new(3).to_offset(double), Offset::new(6));
    let sides = Offset {
        top: 1,
        left: 2,
        right: 3,
        bottom: 4,
    };
    assert_eq!(
        OffsetConfig::PerSide(sides).to_offset(double),
        Offset {
            top: 2,
            left: 4,
            right: 6,
            bottom: 8,
        }
    );
    assert_eq!(OffsetConfig::default(), OffsetConfig::Uniform(0));
    assert_eq!(OffsetConfig::serde_default(), OffsetConfig::Uniform(-1));
}

#[test]
fn radius_follows_corner_preference_only_when_auto() {
    let eight = RadiusBasis::Adjusted(bits(8.0));
    let four = RadiusBasis::Adjusted(bits(4.0));
    for auto in [RadiusConfig::Auto, RadiusConfig::Custom(bits(-1.0))] {
        assert!(auto.is_auto());
        assert_eq!(auto.to_radius(None, true), eight);
        assert_eq!(auto.to_radius(None, false), RadiusBasis::Zero);
        assert_eq!(auto.to_radius(Some(DWMWCP_DEFAULT), true), eight);
        assert_eq!(auto.to_radius(Some(DWMWCP_DONOTROUND), true), RadiusBasis::Zero);
        assert_eq!(auto.to_radius(Some(DWMWCP_ROUND), false), eight);
        assert_eq!(auto.to_radius(Some(DWMWCP_ROUNDSMALL), false), four);
        assert_eq!(auto.to_radius(Some(77), true), RadiusBasis::Zero);
    }
    assert_eq!(
        RadiusConfig::Square.to_radius(Some(DWMWCP_ROUND), true),
        RadiusBasis::Zero
    );
    assert_eq!(RadiusConfig::Round.to_radius(None, false), eight);
    assert_eq!(RadiusConfig::RoundSmall.to_radius(None, false), four);
    assert_eq!(
        RadiusConfig::Custom(bits(2.5)).to_radius(None, false),
        RadiusBasis::Adjusted(bits(2.5))
    );
    assert!(!RadiusConfig::Custom(bits(2.5)).is_auto());
}

#[test]
fn integration_switches_look_at_global_and_rules() {
    let mut config = config();
    assert!(!config.is_komorebi_integration_enabled());
    assert!(!config.is_theme_aware_enabled());
    assert!(config.is_ipc_server_enabled());
    assert!(!config.is_config_watcher_enabled());

    config.window_rules.push(rule());
    config.window_rules.push(WindowRule {
        komorebi_colors: Some(komorebi(false)),
        ..rule()
    });
    assert!(!config.is_komorebi_integration_enabled());
    config.window_rules.push(WindowRule {
        komorebi_colors: Some(komorebi(true)),
        inactive_color: Some(themed("light")),
        ..rule()
    });
    assert!(config.is_komorebi_integration_enabled());
    assert!(config.is_theme_aware_enabled());

    config.window_rules.clear();
    config.global.active_color = themed("dark");
    assert!(config.is_theme_aware_enabled());
    config.global.komorebi_colors.enabled = true;
    assert!(config.is_komorebi_integration_enabled());
}

#[test]
fn config_dir_comes_from_environment_or_home() {
    assert_eq!(
        Config::get_dir(Some("D:\\cfg".to_string()), Some("C:\\me".to_string())),
        Some(vec!["D:\\cfg".to_string()])
    );
    assert_eq!(
        Config::get_dir(None, Some("C:\\me".to_string())),
        Some(vec![
            "C:\\me".to_string(),
            ".config".to_string(),
            "tacky-borders".to_string()
        ])
    );
    assert_eq!(Config::get_dir(None, None), None);
}

#[test]
fn socket_lies_in_the_config_dir() {
    assert_eq!(
        socket_path(Some(vec!["D:\\cfg".to_string()])),
        Some(vec!["D:\\cfg".to_string(), "tacky-borders.sock".to_string()])
    );
    assert_eq!(socket_path(None), None);
}

#[test]
fn failed_reload_falls_back_to_default_and_reports() {
    let outcome = Config::reload_with_status(Err("bad yaml".to_string()));
    assert!(!outcome.parsed_successfully);
    assert_eq!(outcome.error, Some("bad yaml".to_string()));
    assert_eq!(outcome.config, Config::default());
    assert_eq!(outcome.config.global.border_width, WidthConfig::new(bits(0.0)));
    assert_eq!(outcome.config.global.border_offset, OffsetConfig::Uniform(0));
    assert!(outcome.config.window_rules.is_empty());
    assert!(!outcome.config.is_config_watcher_enabled());
    assert!(!outcome.config.is_ipc_server_enabled());
    assert!(!outcome.config.is_komorebi_integration_enabled());
    assert!(!outcome.config.is_theme_aware_enabled());

    let mut loaded = config();
    loaded.watch_config_changes = true;
    let outcome = Config::reload_with_status(Ok(loaded.clone()));
    assert!(outcome.parsed_successfully);
    assert_eq!(outcome.error, None);
    assert_eq!(outcome.config, loaded);
}

#[test]
fn defaults_change_nothing() {
    assert_eq!(Offset::default(), Offset::new(0));
    assert_eq!(RadiusConfig::default(), RadiusConfig::Auto);
    assert_eq!(EnableMode::default(), EnableMode::Auto);
    assert_eq!(ZOrderMode::default(), ZOrderMode::AboveWindow);
    assert_eq!(RenderBackendConfig::default(), RenderBackendConfig::V2);
    assert_eq!(ColorBrushConfig::default(), plain("\"accent\""));
    assert_eq!(EffectsConfig::default().text, "null");
    let animations = AnimationsConfig::default();
    assert!(!animations.enabled && animations.fps == 0 && animations.active.is_empty());
    assert!(!KomorebiColorsConfig::default().enabled);
    let settings = BorderConfig::resolve(
        &WindowRule::default(),
        &global(),
        RenderBackendConfig::V2,
        false,
    );
    assert_eq!(settings.width, global().border_width);
    assert_eq!(settings.active_color, global().active_color);
    assert_eq!(settings.clone(), settings);
}

#[test]
fn missing_config_is_checked_three_times_before_default_is_written() {
    let (step, action) = LoadStep::start();
    assert_eq!(action, LoadAction::CheckExists { delay_ms: 0 });
    let (step, action) = step.checked(false);
    assert_eq!(action, LoadAction::CheckExists { delay_ms: 20 });
    let (step, action) = step.checked(false);
    assert_eq!(action, LoadAction::CheckExists { delay_ms: 20 });
    let (step, action) = step.checked(false);
    assert_eq!(action, LoadAction::WriteDefault);
    let (_, action) = step.written();
    assert_eq!(action, LoadAction::Read { delay_ms: 0 });
}

#[test]
fn empty_config_is_read_three_times_before_it_is_parsed() {
    let (step, _) = LoadStep::start();
    let (step, action) = step.checked(true);
    assert_eq!(action, LoadAction::Read { delay_ms: 0 });
    let (step, action) = step.read(true);
    assert_eq!(action, LoadAction::Read { delay_ms: 20 });
    let (step, action) = step.read(true);
    assert_eq!(action, LoadAction::Read { delay_ms: 20 });
    let (_, action) = step.read(true);
    assert_eq!(action, LoadAction::Parse);

    let (step, _) = LoadStep::start();
    let (step, _) = step.checked(true);
    let (step, action) = step.read(false);
    assert_eq!((step, action), (LoadStep::Parsing, LoadAction::Parse));
}

#[test]
fn rule_settings_win_over_global_ones() {
    let rule = WindowRule {
        kind: Some(MatchKind::Class),
        strategy: Some(MatchStrategy::Equals),
        border_width: Some(WidthConfig::new(bits(7.0))),
        active_color: Some(plain("#123456")),
        initialize_delay: Some(5),
        enabled: Some(EnableMode::Bool(true)),
        ..rule()
    };
    let resolved = BorderConfig::resolve(&rule, &global(), RenderBackendConfig::Legacy, false);
    assert_eq!(resolved.render_backend, RenderBackendConfig::Legacy);
    assert_eq!(resolved.width, WidthConfig::new(bits(7.0)));
    assert_eq!(resolved.offset, OffsetConfig::Uniform(0));
    assert_eq!(resolved.active_color, plain("#123456"));
    assert_eq!(resolved.inactive_color, plain("#000000"));
    assert_eq!(resolved.effects.text, "global");
    assert_eq!(resolved.animations.fps, 60);
    assert_eq!(resolved.initialize_delay, 5);
    assert_eq!(resolved.unminimize_delay, 200);
    assert!(resolved.follow_native_border);
    assert!(resolved.is_radius_auto());
}

#[test]
fn windows_open_from_the_start_get_no_delay() {
    let resolved = BorderConfig::resolve(&rule(), &global(), RenderBackendConfig::V2, true);
    assert_eq!(resolved.initialize_delay, 0);
    let resolved = BorderConfig::resolve(&rule(), &global(), RenderBackendConfig::V2, false);
    assert_eq!(resolved.initialize_delay, 250);
}

#[test]
fn padding_is_the_largest_that_an_effect_needs() {
    let v2 = BorderConfig::resolve(&rule(), &global(), RenderBackendConfig::V2, false);
    assert_eq!(v2.border_padding(&vec![3, 9, 4], &vec![5]), 9);
    assert_eq!(v2.border_padding(&vec![3], &vec![5, 12]), 12);
    assert_eq!(v2.border_padding(&Vec::new(), &Vec::new()), 0);
    assert_eq!(v2.border_padding(&vec![-3], &vec![-5]), -3);
    assert_eq!(v2.border_padding(&vec![-3], &Vec::new()), 0);
    let legacy = BorderConfig::resolve(&rule(), &global(), RenderBackendConfig::Legacy, false);
    assert_eq!(legacy.border_padding(&vec![3, 9, 4], &vec![5]), 0);
}

#[test]
fn drawer_takes_line_and_animations_from_the_settings() {
    let mut global = global();
    global.animations.enabled = true;
    global.animations.fps = 75;
    let config = BorderConfig::resolve(&rule(), &global, RenderBackendConfig::Legacy, false);
    let mut drawer = BorderDrawer::default();
    drawer.reset_animation_clock(5);
    drawer.configure_appearance(&config, 6);
    assert_eq!(drawer.stroke_width, 6);
    assert_eq!(drawer.animations.fps, 75);
    assert_eq!(drawer.last_anim_time, Some(5));
}
