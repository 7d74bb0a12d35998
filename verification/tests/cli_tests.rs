use pico_args::Arguments;
use tacky_borders::cli::{
    check_response, run_cli, validate_response, CliError, CliOutcome, CliSession, CliVerb,
    ResponseError,
};
use tacky_borders::colors::ColorBrushConfig;
use tacky_borders::config::{OffsetConfig, RadiusConfig, WidthConfig};
use tacky_borders::float_bits::FloatBits;
use tacky_borders::ipc::IpcCommand;
use tacky_borders::json::parse_text;
use tacky_borders::text::{decode_utf16_lossy, spells, trim, trim_end, trim_start};

fn session(args: &[&str]) -> CliSession {
    CliSession {
        args: Arguments::from_vec(args.iter().map(|arg| (*arg).into()).collect()),
    }
}

fn verb(args: &[&str]) -> CliVerb {
    session(args).begin().unwrap()
}

#[test]
fn subcommands_have_two_spellings() {
    for (name, expected) in [
        ("set-color", CliVerb::SetColor),
        ("set_color", CliVerb::SetColor),
        ("set-width", CliVerb::SetWidth),
        ("set_width", CliVerb::SetWidth),
        ("set-offset", CliVerb::SetOffset),
        ("set_offset", CliVerb::SetOffset),
        ("set-radius", CliVerb::SetRadius),
        ("set_radius", CliVerb::SetRadius),
        ("reload", CliVerb::Reload),
        ("get-state", CliVerb::GetState),
        ("get_state", CliVerb::GetState),
        ("msg", CliVerb::Msg),
        ("help", CliVerb::Help),
    ] {
        assert_eq!(verb(&[name]), expected);
    }
}

#[test]
fn help_flag_wins_wherever_it_stands() {
    assert_eq!(verb(&["set-color", "-a", "--help"]), CliVerb::Help);
    assert_eq!(verb(&["-h"]), CliVerb::Help);
    assert_eq!(verb(&["nonsense", "-h"]), CliVerb::Help);
}

#[test]
fn missing_and_unknown_subcommands_are_told_apart() {
    assert!(matches!(
        session(&[]).begin(),
        Err(CliError::MissingSubcommand)
    ));
    assert!(matches!(
        session(&["--focused"]).begin(),
        Err(CliError::MissingSubcommand)
    ));
    match session(&["set-colour"]).begin() {
        Err(CliError::UnknownCommand(name)) => assert_eq!(name, "set-colour"),
        other => panic!("unexpected {other:?}"),
    }
}

#[test]
fn color_command_is_read_in_any_order() {
    let mut session = session(&["set-color", "-f", "--inactive", "black", "-a", "white"]);
    assert_eq!(session.begin().unwrap(), CliVerb::SetColor);
    assert_eq!(session.active_color().unwrap(), Some("white".to_string()));
    assert_eq!(session.inactive_color().unwrap(), Some("black".to_string()));
    let active = ColorBrushConfig::Plain("white".to_string());
    let command = session.color_command(Some(active.clone()), None).unwrap();
    assert_eq!(
        command,
        IpcCommand::SetColor {
            active: Some(active),
            inactive: None,
            focused: true
        }
    );
    assert!(session.finish().is_ok());
}

#[test]
fn color_options_are_optional_but_one_is_needed() {
    let mut session = session(&["set-color"]);
    session.begin().unwrap();
    assert_eq!(session.active_color().unwrap(), None);
    assert_eq!(session.inactive_color().unwrap(), None);
    assert!(matches!(
        session.color_command(None, None),
        Err(CliError::NoColors)
    ));
}

#[test]
fn option_without_value_is_the_parsers_error() {
    let mut session = session(&["set-color", "-a"]);
    session.begin().unwrap();
    assert!(matches!(
        session.active_color(),
        Err(CliError::Arguments(pico_args::Error::OptionWithoutAValue("-a")))
    ));
}

#[test]
fn parser_complaints_are_told_apart() {
    let mut args = session(&["set-color", "--inactive"]);
    args.begin().unwrap();
    assert!(matches!(
        args.inactive_color(),
        Err(CliError::Arguments(pico_args::Error::OptionWithoutAValue("--inactive")))
    ));
    // The short key counts first, wherever the two stand.
    let mut args = session(&["set-color", "--active", "-a"]);
    args.begin().unwrap();
    assert!(matches!(
        args.active_color(),
        Err(CliError::Arguments(pico_args::Error::OptionWithoutAValue("-a")))
    ));
    let mut args = session(&["msg"]);
    args.begin().unwrap();
    assert!(matches!(
        args.value(),
        Err(CliError::Arguments(pico_args::Error::MissingArgument))
    ));
}

#[test]
fn value_commands_take_the_next_argument() {
    let width = WidthConfig::new(FloatBits {
        bits: 5.0f32.to_bits(),
    });
    let mut args = session(&["set-width", "5", "-f"]);
    args.begin().unwrap();
    assert_eq!(args.value().unwrap(), "5");
    assert_eq!(
        args.width_command(width),
        IpcCommand::SetWidth {
            width,
            focused: true
        }
    );
    assert!(args.finish().is_ok());

    let mut args = session(&["set-offset", "-1"]);
    args.begin().unwrap();
    assert_eq!(args.value().unwrap(), "-1");
    assert_eq!(
        args.offset_command(OffsetConfig::new(-1)),
        IpcCommand::SetOffset {
            offset: OffsetConfig::new(-1),
            focused: false
        }
    );

    let mut args = session(&["set-radius", "Round"]);
    args.begin().unwrap();
    assert_eq!(args.value().unwrap(), "Round");
    assert_eq!(
        args.radius_command(RadiusConfig::Round),
        IpcCommand::SetRadius {
            radius: RadiusConfig::Round,
            focused: false
        }
    );

    let mut args = session(&["msg"]);
    args.begin().unwrap();
    assert!(matches!(
        args.value(),
        Err(CliError::Arguments(pico_args::Error::MissingArgument))
    ));
}

#[test]
fn leftover_arguments_are_listed() {
    let mut session = session(&["reload", "now", "please"]);
    session.begin().unwrap();
    match session.finish() {
        Err(CliError::UnknownArguments(rest)) => assert_eq!(
            rest,
            vec![Some("now".to_string()), Some("please".to_string())]
        ),
        other => panic!("unexpected {other:?}"),
    }
}

#[test]
fn replies_are_successes_or_refusals() {
    assert_eq!(validate_response("{\"ok\":true,\"border_count\":2}"), Ok(()));
    assert_eq!(
        validate_response("{\"ok\":false,\"error\":\"no colors provided\"}"),
        Err(ResponseError::Refused("no colors provided".to_string()))
    );
    for silent in ["{\"ok\":false}", "{}", "[]", "{\"ok\":1,\"error\":2}", "3"] {
        assert_eq!(
            validate_response(silent),
            Err(ResponseError::Refused("ipc command failed".to_string()))
        );
    }
    assert_eq!(validate_response("ok"), Err(ResponseError::NotJson));
    assert_eq!(validate_response(""), Err(ResponseError::NotJson));
    assert_eq!(
        check_response(&parse_text("{\"ok\":true}").unwrap()),
        Ok(())
    );
}

#[test]
fn text_documents_keep_their_values() {
    let json = parse_text("{\"b\":[1,-2,0.5,\"\\u00e4\",false],\"a\":null}").unwrap();
    let items = json.get("b").unwrap().as_array().unwrap();
    assert_eq!(items[0].as_u64(), Some(1));
    assert_eq!(items[1].as_i64(), Some(-2));
    assert_eq!(items[2].as_i64(), None);
    assert_eq!(items[3].as_str().unwrap(), "\u{e4}");
    assert_eq!(items[4].as_bool(), Some(false));
    assert!(json.get("a").unwrap().is_null());
    assert!(json.get("c").is_none());
    assert!(items[0].get("a").is_none());
    assert!(parse_text("{").is_none());
}

#[test]
fn white_space_of_every_kind_is_trimmed() {
    assert_eq!(trim(" \u{a0}\tx y\u{2003}\r\n"), "x y");
    assert_eq!(trim_end("  x \n"), "  x");
    assert_eq!(trim_start("  x \n"), "x \n");
    assert_eq!(trim(" \n\u{3000}"), "");
    assert_eq!(trim(""), "");
    assert_eq!(trim("\u{e4}\u{200b}"), "\u{e4}\u{200b}");
    for c in '\0'..=char::MAX {
        let text = c.to_string();
        assert_eq!(trim(&text).is_empty(), c.is_whitespace(), "{c:?}");
    }
}

#[test]
fn utf16_is_decoded_like_the_standard_library_does() {
    for units in [
        vec![],
        vec![0x63, 0x66],
        vec![0xd83d, 0xde00],
        vec![0xd83d],
        vec![0xd83d, 0x61],
        vec![0xde00, 0xd83d],
        vec![0xd83d, 0xd83d, 0xde00, 0xfffe],
        vec![0xe000, 0xd7ff, 0xdbff, 0xdfff],
    ] {
        let expected: Vec<u32> = String::from_utf16_lossy(&units)
            .chars()
            .map(|c| c as u32)
            .collect();
        assert_eq!(decode_utf16_lossy(&units), expected);
    }
}

#[test]
fn spelling_is_compared_character_by_character() {
    let points = decode_utf16_lossy(&vec![0x61, 0xd83d, 0xde00]);
    assert!(spells(&points, "a\u{1f600}"));
    assert!(!spells(&points, "a"));
    assert!(!spells(&points, "b\u{1f600}"));
    assert!(spells(&Vec::new(), ""));
}

fn line(args: &[&str]) -> Result<CliOutcome, CliError> {
    run_cli(
        session(args).args,
        |text| {
            if text.starts_with('#') {
                Ok(ColorBrushConfig::Plain(text))
            } else {
                Err("no color".to_string())
            }
        },
        |text| match text.parse::<f32>() {
            Ok(width) => Ok(WidthConfig::new(FloatBits {
                bits: width.to_bits(),
            })),
            Err(error) => Err(error.to_string()),
        },
        |text| match text.parse::<i32>() {
            Ok(offset) => Ok(OffsetConfig::new(offset)),
            Err(error) => Err(error.to_string()),
        },
        |text| {
            if text == "Square" {
                Ok(RadiusConfig::Square)
            } else {
                Err("no radius".to_string())
            }
        },
    )
}

#[test]
fn command_lines_become_commands() {
    assert_eq!(line(&["help"]).unwrap(), CliOutcome::ShowHelp);
    assert_eq!(line(&["nonsense", "-h"]).unwrap(), CliOutcome::ShowHelp);
    assert_eq!(
        line(&["set-color", "-f", "-i", "#000000"]).unwrap(),
        CliOutcome::Send(IpcCommand::SetColor {
            active: None,
            inactive: Some(ColorBrushConfig::Plain("#000000".to_string())),
            focused: true
        })
    );
    assert_eq!(
        line(&["set_width", "2.5"]).unwrap(),
        CliOutcome::Send(IpcCommand::SetWidth {
            width: WidthConfig::new(FloatBits {
                bits: 2.5f32.to_bits()
            }),
            focused: false
        })
    );
    assert_eq!(
        line(&["set-offset", "-3", "--focused"]).unwrap(),
        CliOutcome::Send(IpcCommand::SetOffset {
            offset: OffsetConfig::new(-3),
            focused: true
        })
    );
    assert_eq!(
        line(&["set-radius", "Square"]).unwrap(),
        CliOutcome::Send(IpcCommand::SetRadius {
            radius: RadiusConfig::Square,
            focused: false
        })
    );
    assert_eq!(
        line(&["reload"]).unwrap(),
        CliOutcome::Send(IpcCommand::Reload)
    );
    assert_eq!(
        line(&["get_state"]).unwrap(),
        CliOutcome::Send(IpcCommand::GetState)
    );
    assert_eq!(
        line(&["msg", "{\"cmd\":\"reload\"}"]).unwrap(),
        CliOutcome::SendRaw("{\"cmd\":\"reload\"}".to_string())
    );
}

#[test]
fn bad_command_lines_say_what_is_wrong() {
    assert!(matches!(line(&[]), Err(CliError::MissingSubcommand)));
    assert!(matches!(
        line(&["sing"]),
        Err(CliError::UnknownCommand(name)) if name == "sing"
    ));
    assert!(matches!(line(&["set-color", "-f"]), Err(CliError::NoColors)));
    assert!(matches!(
        line(&["set-color", "-a", "blue", "-i", "#000000"]),
        Err(CliError::Unparsable { value, cause }) if value == "blue" && cause == "no color"
    ));
    assert!(matches!(
        line(&["set-color", "-a", "#000000", "-i"]),
        Err(CliError::Arguments(_))
    ));
    // What is wrong with the value comes before what is left over.
    assert!(matches!(
        line(&["set-radius", "Oval", "more"]),
        Err(CliError::Unparsable { value, .. }) if value == "Oval"
    ));
    assert!(matches!(
        line(&["set-width", "1", "more"]),
        Err(CliError::UnknownArguments(rest)) if rest == vec![Some("more".to_string())]
    ));
    assert!(matches!(
        line(&["msg"]),
        Err(CliError::Arguments(pico_args::Error::MissingArgument))
    ));
}
