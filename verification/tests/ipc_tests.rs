use tacky_borders::animations::AnimationsConfig;
use tacky_borders::cli::{check_response, ResponseError};
use tacky_borders::colors::ColorBrushConfig;
use tacky_borders::config::{
    Config, Global, Offset, OffsetConfig, RadiusConfig, WidthConfig, ZOrderMode,
};
use tacky_borders::effects::EffectsConfig;
use tacky_borders::float_bits::FloatBits;
use tacky_borders::ipc::{
    after_accept, after_read, after_timeouts, before_read, handle_text, process_command,
    reap_client_workers, reply_members, state_reply, ClientAction, ClientStart, ClientWorker,
    IpcCommand, IpcError, IpcReply, IpcSettings, IpcStep, MemberValue, ReadOutcome, ServerAction,
};
use tacky_borders::json::Json;
use tacky_borders::komorebi::KomorebiColorsConfig;
use tacky_borders::render_backend::RenderBackendConfig;
use tacky_borders::runtime_model::{
    BorderRuntimeCommand, BorderRuntimeSnapshot, BorderRuntimeUpdate,
};
use tacky_borders::runtime_requests::{BorderRuntimeHandle, Posting, SnapshotError};

fn bits(value: f32) -> FloatBits {
    FloatBits {
        bits: value.to_bits(),
    }
}

fn plain(text: &str) -> ColorBrushConfig {
    ColorBrushConfig::Plain(text.to_string())
}

fn config() -> Config {
    Config {
        watch_config_changes: false,
        enable_logging: true,
        enable_ipc_server: true,
        render_backend: RenderBackendConfig::V2,
        global: Global {
            border_width: WidthConfig::new(bits(4.0)),
            border_offset: OffsetConfig::Uniform(-1),
            border_radius: RadiusConfig::Auto,
            border_z_order: ZOrderMode::AboveWindow,
            follow_native_border: true,
            active_color: plain("white"),
            inactive_color: plain("black"),
            komorebi_colors: KomorebiColorsConfig {
                stack_color: None,
                monocle_color: None,
                floating_color: None,
                enabled: false,
            },
            animations: AnimationsConfig {
                active: Vec::new(),
                inactive: Vec::new(),
                fps: 60,
                enabled: true,
            },
            effects: EffectsConfig {
                text: String::new(),
            },
            initialize_delay: 250,
            unminimize_delay: 200,
        },
        window_rules: Vec::new(),
    }
}

fn settings() -> IpcSettings {
    IpcSettings {
        active_color: plain("white"),
        inactive_color: plain("black"),
        border_width: WidthConfig::new(bits(4.0)),
        border_offset: OffsetConfig::Uniform(-1),
        border_radius: RadiusConfig::Auto,
    }
}

const HANDLE: Option<BorderRuntimeHandle> = Some(BorderRuntimeHandle {
    dispatcher_hwnd: 77,
});

fn run(command: IpcCommand, config: &mut Config) -> (IpcStep, bool) {
    let mut reload = false;
    let step = process_command(Ok(command), config, HANDLE, &mut reload);
    (step, reload)
}

fn update(update: BorderRuntimeUpdate, focused_only: bool) -> IpcStep {
    IpcStep::Update(Some(Posting {
        dispatcher_hwnd: 77,
        command: BorderRuntimeCommand::ApplyUpdate {
            update,
            focused_only,
        },
    }))
}

#[test]
fn invalid_command_is_answered_and_changes_nothing() {
    let mut config_now = config();
    let mut reload = false;
    let step = process_command(
        Err("expected value".to_string()),
        &mut config_now,
        HANDLE,
        &mut reload,
    );
    assert_eq!(
        step,
        IpcStep::Reply(IpcReply::Failed(IpcError::InvalidCommand(
            "expected value".to_string()
        )))
    );
    assert_eq!(config_now, config());
    assert!(!reload);
}

#[test]
fn color_command_needs_a_color() {
    let mut config_now = config();
    let (step, _) = run(
        IpcCommand::SetColor {
            active: None,
            inactive: None,
            focused: false,
        },
        &mut config_now,
    );
    assert_eq!(step, IpcStep::Reply(IpcReply::Failed(IpcError::NoColors)));
    assert_eq!(config_now, config());
}

#[test]
fn colors_change_the_config_unless_focused() {
    let mut config_now = config();
    let (step, reload) = run(
        IpcCommand::SetColor {
            active: Some(plain("red")),
            inactive: None,
            focused: false,
        },
        &mut config_now,
    );
    let colors = |active: &str| BorderRuntimeUpdate::Colors {
        active: Some(plain(active)),
        inactive: None,
    };
    assert_eq!(step, update(colors("red"), false));
    assert!(!reload);
    assert_eq!(config_now.global.active_color, plain("red"));
    assert_eq!(config_now.global.inactive_color, plain("black"));

    let (step, _) = run(
        IpcCommand::SetColor {
            active: Some(plain("blue")),
            inactive: None,
            focused: true,
        },
        &mut config_now,
    );
    assert_eq!(step, update(colors("blue"), true));
    assert_eq!(config_now.global.active_color, plain("red"));
}

#[test]
fn width_offset_and_radius_show_in_the_next_state() {
    let mut config_now = config();
    let width = WidthConfig::new(bits(9.0));
    let (step, _) = run(
        IpcCommand::SetWidth {
            width,
            focused: false,
        },
        &mut config_now,
    );
    assert_eq!(step, update(BorderRuntimeUpdate::Width(width), false));
    let offset = OffsetConfig::new(3);
    let (step, _) = run(
        IpcCommand::SetOffset {
            offset,
            focused: false,
        },
        &mut config_now,
    );
    assert_eq!(step, update(BorderRuntimeUpdate::Offset(offset), false));
    let radius = RadiusConfig::Square;
    let (step, _) = run(
        IpcCommand::SetRadius {
            radius,
            focused: true,
        },
        &mut config_now,
    );
    assert_eq!(step, update(BorderRuntimeUpdate::Radius(radius), true));

    let (step, _) = run(IpcCommand::GetState, &mut config_now);
    assert_eq!(
        step,
        IpcStep::QueryState(IpcSettings {
            border_width: width,
            border_offset: offset,
            ..settings()
        })
    );
}

#[test]
fn reload_is_noted_for_after_the_answer() {
    let mut config_now = config();
    let (step, reload) = run(IpcCommand::Reload, &mut config_now);
    assert_eq!(step, IpcStep::Reply(IpcReply::Done));
    assert!(reload);
}

#[test]
fn update_without_runtime_is_still_done() {
    let mut config_now = config();
    let mut reload = false;
    let step = process_command(
        Ok(IpcCommand::SetRadius {
            radius: RadiusConfig::Round,
            focused: false,
        }),
        &mut config_now,
        None,
        &mut reload,
    );
    assert_eq!(step, IpcStep::Update(None));
    assert_eq!(config_now.global.border_radius, RadiusConfig::Round);
}

#[test]
fn state_reply_needs_a_snapshot() {
    let snapshot = BorderRuntimeSnapshot {
        active_window: 0x1234,
        border_count: 3,
    };
    assert_eq!(
        state_reply(settings(), Ok(snapshot)),
        IpcReply::State {
            snapshot,
            settings: settings()
        }
    );
    assert_eq!(
        state_reply(settings(), Err(SnapshotError::NotInitialized)),
        IpcReply::Failed(IpcError::RuntimeUnavailable(SnapshotError::NotInitialized))
    );
}

#[test]
fn client_lines_are_trimmed_and_empty_ones_skipped() {
    assert_eq!(before_read(false), ClientAction::Read);
    assert_eq!(before_read(true), ClientAction::Finish);
    assert_eq!(
        after_read(ReadOutcome::Line, " \t{\"cmd\":\"reload\"}\u{3000}\r\n"),
        ClientAction::Process("{\"cmd\":\"reload\"}".to_string())
    );
    assert_eq!(after_read(ReadOutcome::Line, " \r\n"), ClientAction::Skip);
    assert_eq!(
        after_read(ReadOutcome::EndOfStream, ""),
        ClientAction::Finish
    );
    assert_eq!(
        after_read(ReadOutcome::TimedOut, "half a li"),
        ClientAction::Retry
    );
    assert_eq!(after_read(ReadOutcome::Failed, ""), ClientAction::Fail);
}

#[test]
fn server_serves_until_it_is_stopped_or_fails() {
    assert_eq!(after_accept(true, false), ServerAction::Serve);
    assert_eq!(after_accept(true, true), ServerAction::Finish);
    assert_eq!(after_accept(false, false), ServerAction::Finish);
    assert_eq!(after_accept(false, true), ServerAction::Finish);
}

#[test]
fn finished_workers_are_reaped_and_the_others_kept() {
    let worker = |id: u64, finished: bool| ClientWorker { id, finished };
    let mut workers = vec![
        worker(1, true),
        worker(2, false),
        worker(3, true),
        worker(4, true),
        worker(5, false),
    ];
    let mut reaped: Vec<u64> = reap_client_workers(&mut workers)
        .iter()
        .map(|w| w.id)
        .collect();
    reaped.sort();
    let mut kept: Vec<u64> = workers.iter().map(|w| w.id).collect();
    kept.sort();
    assert_eq!(reaped, vec![1, 3, 4]);
    assert_eq!(kept, vec![2, 5]);
    assert!(reap_client_workers(&mut workers).is_empty());
}

#[test]
fn client_without_timeouts_is_not_served() {
    assert_eq!(after_timeouts(true, true), ClientStart::StartWorker);
    assert_eq!(after_timeouts(true, false), ClientStart::Forget);
    assert_eq!(after_timeouts(false, true), ClientStart::Forget);
}

/// The members of a reply that are documents, as one object.
fn document(reply: &IpcReply) -> Json {
    Json::Object(
        reply_members(reply)
            .into_iter()
            .filter_map(|(name, value)| match value {
                MemberValue::Document(json) => Some((name, json)),
                MemberValue::Verbatim(_) | MemberValue::Fraction(_) => None,
            })
            .collect(),
    )
}

fn error_text(error: IpcError) -> String {
    let reply = IpcReply::Failed(error);
    assert_eq!(reply_members(&reply).len(), 2);
    let document = document(&reply);
    assert_eq!(document.get("ok").unwrap().as_bool(), Some(false));
    match check_response(&document) {
        Err(ResponseError::Refused(reason)) => {
            assert_eq!(document.get("error").unwrap().as_str(), Some(&reason));
            reason
        }
        other => panic!("unexpected {other:?}"),
    }
}

#[test]
fn failures_are_explained_in_words() {
    assert_eq!(
        error_text(IpcError::InvalidCommand("expected value".to_string())),
        "invalid command: expected value"
    );
    assert_eq!(error_text(IpcError::NoColors), "no colors provided");
    assert_eq!(
        error_text(IpcError::RuntimeUnavailable(SnapshotError::NotInitialized)),
        "could not query border runtime: border runtime is not initialized"
    );
}

#[test]
fn successes_carry_no_error() {
    assert_eq!(reply_members(&IpcReply::Done).len(), 1);
    let document = document(&IpcReply::Done);
    assert!(check_response(&document).is_ok());
    assert_eq!(document.get("ok").unwrap().as_bool(), Some(true));
    assert!(document.get("error").is_none());
}

#[test]
fn state_documents_show_the_snapshot() {
    let document = document(&IpcReply::State {
        snapshot: BorderRuntimeSnapshot {
            active_window: 0x1234,
            border_count: 3,
        },
        settings: settings(),
    });
    assert_eq!(document.get("ok").unwrap().as_bool(), Some(true));
    assert_eq!(
        document.get("active_window").unwrap().as_str().unwrap(),
        "0x1234"
    );
    assert!(matches!(
        document.get("border_count"),
        Some(Json::Number {
            unsigned: Some(3),
            signed: Some(3)
        })
    ));
}

fn shown(settings: IpcSettings) -> Vec<(String, MemberValue)> {
    reply_members(&IpcReply::State {
        snapshot: BorderRuntimeSnapshot {
            active_window: 0,
            border_count: 0,
        },
        settings,
    })
}

#[test]
fn state_replies_show_each_setting_under_its_name() {
    let members = shown(settings());
    let names: Vec<&str> = members.iter().map(|(name, _)| name.as_str()).collect();
    assert_eq!(
        names,
        vec![
            "ok",
            "active_window",
            "border_count",
            "active_color",
            "inactive_color",
            "border_width",
            "border_offset",
            "border_radius",
        ]
    );
    assert!(matches!(&members[3].1, MemberValue::Verbatim(text) if text == "white"));
    assert!(matches!(&members[4].1, MemberValue::Verbatim(text) if text == "black"));
    assert!(matches!(&members[5].1, MemberValue::Fraction(width) if *width == bits(4.0)));
    assert!(matches!(
        &members[6].1,
        MemberValue::Document(Json::Number {
            unsigned: None,
            signed: Some(-1)
        })
    ));
    assert!(matches!(
        &members[7].1,
        MemberValue::Document(Json::Str(name)) if name == "Auto"
    ));
}

#[test]
fn offsets_per_side_and_custom_radii_are_shown_as_such() {
    let members = shown(IpcSettings {
        border_offset: OffsetConfig::PerSide(Offset {
            top: -1,
            left: 2,
            right: 3,
            bottom: 4,
        }),
        border_radius: RadiusConfig::Custom(bits(2.5)),
        ..settings()
    });
    let MemberValue::Document(offset) = &members[6].1 else {
        panic!("offsets are documents");
    };
    let sides: Vec<Option<i64>> = ["top", "left", "right", "bottom"]
        .iter()
        .map(|side| offset.get(side).unwrap().as_i64())
        .collect();
    assert_eq!(sides, vec![Some(-1), Some(2), Some(3), Some(4)]);
    assert!(matches!(&members[7].1, MemberValue::Fraction(radius) if *radius == bits(2.5)));
    for (radius, text) in [
        (RadiusConfig::Square, "Square"),
        (RadiusConfig::Round, "Round"),
        (RadiusConfig::RoundSmall, "RoundSmall"),
    ] {
        let members = shown(IpcSettings {
            border_radius: radius,
            ..settings()
        });
        assert!(matches!(
            &members[7].1,
            MemberValue::Document(Json::Str(name)) if name == text
        ));
    }
}

#[test]
fn handles_are_shown_in_base_sixteen() {
    for handle in [0isize, 9, 15, 16, 255, 0xabcdef, isize::MAX, -1, -16, isize::MIN] {
        assert_eq!(handle_text(handle), format!("{handle:#x}"));
    }
}
