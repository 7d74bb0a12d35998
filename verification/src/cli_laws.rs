//! What command lines come to.

use vstd::prelude::*;

use crate::cli::{ArgList, CliError, CliOutcome, CliVerb, Complaint};
use crate::colors::ColorBrushConfig;
use crate::config::{OffsetConfig, RadiusConfig, WidthConfig};
use crate::ipc::IpcCommand;
use crate::json::JsonTree;

verus! {

/// Each command has one name, and where that is made of two words they may be joined by a hyphen or
/// by an underscore. No other name is a command.
pub proof fn law_commands_go_by_their_names(name: Seq<char>)
    ensures
        crate::cli::verb_for("set-color"@) == Some(CliVerb::SetColor),
        crate::cli::verb_for("set_color"@) == Some(CliVerb::SetColor),
        crate::cli::verb_for("set-width"@) == Some(CliVerb::SetWidth),
        crate::cli::verb_for("set_width"@) == Some(CliVerb::SetWidth),
        crate::cli::verb_for("set-offset"@) == Some(CliVerb::SetOffset),
        crate::cli::verb_for("set_offset"@) == Some(CliVerb::SetOffset),
        crate::cli::verb_for("set-radius"@) == Some(CliVerb::SetRadius),
        crate::cli::verb_for("set_radius"@) == Some(CliVerb::SetRadius),
        crate::cli::verb_for("get-state"@) == Some(CliVerb::GetState),
        crate::cli::verb_for("get_state"@) == Some(CliVerb::GetState),
        crate::cli::verb_for("reload"@) == Some(CliVerb::Reload),
        crate::cli::verb_for("msg"@) == Some(CliVerb::Msg),
        crate::cli::verb_for("help"@) == Some(CliVerb::Help),
        crate::cli::verb_for(name) is Some ==> seq![
            "set-color"@,
            "set_color"@,
            "set-width"@,
            "set_width"@,
            "set-offset"@,
            "set_offset"@,
            "set-radius"@,
            "set_radius"@,
            "get-state"@,
            "get_state"@,
            "reload"@,
            "msg"@,
            "help"@,
        ].contains(name),
{
    reveal_strlit("set-color");
    reveal_strlit("set_color");
    reveal_strlit("set-width");
    reveal_strlit("set_width");
    reveal_strlit("set-offset");
    reveal_strlit("set_offset");
    reveal_strlit("set-radius");
    reveal_strlit("set_radius");
    reveal_strlit("get-state");
    reveal_strlit("get_state");
    reveal_strlit("reload");
    reveal_strlit("msg");
    reveal_strlit("help");
    assert("set-color"@[4] == 'c' && "set_color"@[4] == 'c' && "set-width"@[4] == 'w'
        && "set_width"@[4] == 'w' && "set-offset"@[4] == 'o' && "set_offset"@[4] == 'o'
        && "set-radius"@[4] == 'r' && "set_radius"@[4] == 'r' && "get-state"@[4] == 's'
        && "get_state"@[4] == 's' && "reload"@.len() == 6 && "msg"@.len() == 3 && "help"@.len()
        == 4 && "set-color"@.len() == 9 && "set-width"@.len() == 9 && "get-state"@.len() == 9
        && "set-offset"@.len() == 10 && "set-radius"@.len() == 10 && "set_color"@.len() == 9
        && "set_width"@.len() == 9 && "get_state"@.len() == 9 && "set_offset"@.len() == 10
        && "set_radius"@.len() == 10);
    let known = seq![
        "set-color"@,
        "set_color"@,
        "set-width"@,
        "set_width"@,
        "set-offset"@,
        "set_offset"@,
        "set-radius"@,
        "set_radius"@,
        "get-state"@,
        "get_state"@,
        "reload"@,
        "msg"@,
        "help"@,
    ];
    assert(known[0] == "set-color"@ && known[1] == "set_color"@ && known[2] == "set-width"@
        && known[3] == "set_width"@ && known[4] == "set-offset"@ && known[5] == "set_offset"@
        && known[6] == "set-radius"@ && known[7] == "set_radius"@ && known[8] == "get-state"@
        && known[9] == "get_state"@ && known[10] == "reload"@ && known[11] == "msg"@ && known[12]
        == "help"@);
}

/// A flag is found exactly if one of its two keys is among the arguments. It is then taken out once,
/// and all other arguments stay, in their order.
pub proof fn law_flags_are_taken_out(args: ArgList, short: Seq<char>, long: Seq<char>)
    ensures
        ({
            let (rest, found) = crate::cli::flag_taken(args, short, long);
            &&& found <==> args.contains(Some(short)) || args.contains(Some(long))
            &&& !found ==> rest == args
            &&& found ==> exists|at: int|
                {
                    &&& 0 <= at < args.len()
                    &&& #[trigger] args[at] == Some(short) || args[at] == Some(long)
                    &&& rest.len() == args.len() - 1
                    &&& forall|i: int| 0 <= i < at ==> #[trigger] rest[i] == args[i]
                    &&& forall|i: int| at <= i < rest.len() ==> #[trigger] rest[i] == args[i + 1]
                }
        }),
{
    crate::cli::law_first_position_is_found(args, short);
    crate::cli::law_first_position_is_found(args, long);
    if let Some(at) = crate::cli::key_position(args, short, long) {
        assert(args[at] == Some(short) || args[at] == Some(long));
        assert(args.contains(args[at]));
    }
}

proof fn lemma_flag_at_end(front: ArgList, key: Seq<char>, short: Seq<char>, long: Seq<char>)
    requires
        key == short || key == long,
        !front.contains(Some(short)),
        !front.contains(Some(long)),
    ensures
        crate::cli::flag_taken(front.push(Some(key)), short, long) == (front, true),
{
    let args = front.push(Some(key));
    crate::cli::law_first_position_is_found(args, short);
    crate::cli::law_first_position_is_found(args, long);
    assert(args[front.len() as int] == Some(key));
    assert(args.contains(Some(key)));
    let at = crate::cli::key_position(args, short, long)->0;
    assert(args[at] == Some(short) || args[at] == Some(long));
    if at < front.len() {
        assert(front[at] == args[at]);
        assert(front.contains(args[at]));
    }
    assert(args.remove(at) =~= front);
}

proof fn lemma_no_flag(args: ArgList, short: Seq<char>, long: Seq<char>)
    requires
        !args.contains(Some(short)),
        !args.contains(Some(long)),
    ensures
        crate::cli::flag_taken(args, short, long) == (args, false),
        crate::cli::key_position(args, short, long) is None,
{
    crate::cli::law_first_position_is_found(args, short);
    crate::cli::law_first_position_is_found(args, long);
}

/// Whether a text is no flag that every command knows.
pub open spec fn no_flag(text: Seq<char>) -> bool {
    text != "-h"@ && text != "--help"@ && text != "-f"@ && text != "--focused"@
}

/// Whether a parser makes this value of a text, whenever it is asked.
pub open spec fn makes<T, P: Fn(String) -> Result<T, String>>(
    parse: P,
    text: Seq<char>,
    value: T,
) -> bool {
    forall|given: String, result: Result<T, String>|
        given@ == text && #[trigger] call_ensures(parse, (given,), result) ==> result == Ok::<
            T,
            String,
        >(value)
}

/// The focus flag at the end of a command line, if it is to be there, under either of its keys.
pub open spec fn focus_flag(focused: bool, long: bool) -> ArgList {
    if !focused {
        Seq::empty()
    } else if long {
        seq![Some("--focused"@)]
    } else {
        seq![Some("-f"@)]
    }
}

proof fn lemma_focus_flag(front: ArgList, focused: bool, long: bool)
    requires
        !front.contains(Some("-f"@)),
        !front.contains(Some("--focused"@)),
    ensures
        crate::cli::focus_taken(front + focus_flag(focused, long)) == (front, focused),
{
    if focused {
        let key = if long {
            "--focused"@
        } else {
            "-f"@
        };
        assert(front + focus_flag(focused, long) =~= front.push(Some(key)));
        lemma_flag_at_end(front, key, "-f"@, "--focused"@);
    } else {
        assert(front + focus_flag(focused, long) =~= front);
        lemma_no_flag(front, "-f"@, "--focused"@);
    }
}

proof fn lemma_no_help(args: ArgList)
    requires
        forall|i: int|
            0 <= i < args.len() ==> #[trigger] args[i] != Some("-h"@) && args[i] != Some("--help"@),
    ensures
        crate::cli::flag_taken(args, "-h"@, "--help"@) == (args, false),
{
    lemma_no_flag(args, "-h"@, "--help"@);
}

proof fn lemma_value_command<T, P: Fn(String) -> Result<T, String>>(
    given: ArgList,
    text: Seq<char>,
    focused: bool,
    long: bool,
    parse: P,
    value: T,
    command: spec_fn(T, bool) -> IpcCommand,
    outcome: Result<CliOutcome, CliError>,
)
    requires
        given == seq![Some(text)] + focus_flag(focused, long),
        makes(parse, text, value),
        crate::cli::reads_value_command(given, parse, command, outcome),
    ensures
        outcome == Ok::<CliOutcome, CliError>(CliOutcome::Send(command(value, focused))),
{
    let read = choose|read: Result<T, CliError>| #[trigger]
        crate::cli::reads_value(given, parse, read) && match read {
            Err(error) => outcome == Err::<CliOutcome, CliError>(error),
            Ok(read) => {
                let (rest, focused) = crate::cli::focus_taken(given.drop_first());
                crate::cli::finished(rest, CliOutcome::Send(command(read, focused)), outcome)
            },
        };
    assert(given[0] == Some(text));
    let parsed = choose|parsed: Result<T, String>| #[trigger]
        crate::cli::parsed_by(parse, text, parsed) && match parsed {
            Err(cause) => read matches Err(error) && crate::cli::says_unparsable(error, text, cause),
            Ok(found) => read == Ok::<T, CliError>(found),
        };
    let asked = choose|asked: String| asked@ == text && #[trigger] call_ensures(
        parse,
        (asked,),
        parsed,
    );
    assert(parsed == Ok::<T, String>(value));
    assert(given.drop_first() =~= Seq::<Option<Seq<char>>>::empty() + focus_flag(focused, long));
    lemma_focus_flag(Seq::empty(), focused, long);
}

/// A command with one value sends that value, of the very kind that it names, and says whether it is
/// for the active window alone exactly as the flag does.
pub proof fn law_values_are_sent_as_given<C, W, O, R>(
    name: Seq<char>,
    text: Seq<char>,
    focused: bool,
    long: bool,
    parse_color: C,
    parse_width: W,
    parse_offset: O,
    parse_radius: R,
    width: WidthConfig,
    offset: OffsetConfig,
    radius: RadiusConfig,
    outcome: Result<CliOutcome, CliError>,
) where
    C: Fn(String) -> Result<ColorBrushConfig, String>,
    W: Fn(String) -> Result<WidthConfig, String>,
    O: Fn(String) -> Result<OffsetConfig, String>,
    R: Fn(String) -> Result<RadiusConfig, String>,

    requires
        no_flag(text),
        makes(parse_width, text, width),
        makes(parse_offset, text, offset),
        makes(parse_radius, text, radius),
        crate::cli::reads_command_line(
            seq![Some(name), Some(text)] + focus_flag(focused, long),
            parse_color,
            parse_width,
            parse_offset,
            parse_radius,
            outcome,
        ),
    ensures
        name == "set-width"@ || name == "set_width"@ ==> outcome == Ok::<CliOutcome, CliError>(
            CliOutcome::Send(IpcCommand::SetWidth { width, focused }),
        ),
        name == "set-offset"@ || name == "set_offset"@ ==> outcome == Ok::<CliOutcome, CliError>(
            CliOutcome::Send(IpcCommand::SetOffset { offset, focused }),
        ),
        name == "set-radius"@ || name == "set_radius"@ ==> outcome == Ok::<CliOutcome, CliError>(
            CliOutcome::Send(IpcCommand::SetRadius { radius, focused }),
        ),
{
    let args = seq![Some(name), Some(text)] + focus_flag(focused, long);
    if crate::cli::verb_for(name) == Some(CliVerb::SetWidth) || crate::cli::verb_for(name) == Some(
        CliVerb::SetOffset,
    ) || crate::cli::verb_for(name) == Some(CliVerb::SetRadius) {
        lemma_named(name, text, focused, long);
        let given = args.drop_first();
        assert(given =~= seq![Some(text)] + focus_flag(focused, long));
        if crate::cli::verb_for(name) == Some(CliVerb::SetWidth) {
            lemma_value_command(
                given,
                text,
                focused,
                long,
                parse_width,
                width,
                |width: WidthConfig, focused: bool| IpcCommand::SetWidth { width, focused },
                outcome,
            );
        } else if crate::cli::verb_for(name) == Some(CliVerb::SetOffset) {
            lemma_value_command(
                given,
                text,
                focused,
                long,
                parse_offset,
                offset,
                |offset: OffsetConfig, focused: bool| IpcCommand::SetOffset { offset, focused },
                outcome,
            );
        } else {
            lemma_value_command(
                given,
                text,
                focused,
                long,
                parse_radius,
                radius,
                |radius: RadiusConfig, focused: bool| IpcCommand::SetRadius { radius, focused },
                outcome,
            );
        }
    }
    law_commands_go_by_their_names(name);
}

proof fn lemma_names_are_no_flags(name: Seq<char>)
    requires
        crate::cli::verb_for(name) is Some,
    ensures
        no_flag(name),
        !crate::cli::starts_without_name(seq![Some(name)]),
        name.len() > 0,
        name[0] != '-',
        "-h"@.len() > 0,
        "-h"@[0] == '-',
        "--help"@.len() > 0,
        "--help"@[0] == '-',
        "-f"@.len() > 0,
        "-f"@[0] == '-',
        "--focused"@.len() > 0,
        "--focused"@[0] == '-',
        "-f"@ != "-h"@,
        "-f"@ != "--help"@,
        "--focused"@ != "-h"@,
        "--focused"@ != "--help"@,
{
    reveal_strlit("set-color");
    reveal_strlit("set_color");
    reveal_strlit("set-width");
    reveal_strlit("set_width");
    reveal_strlit("set-offset");
    reveal_strlit("set_offset");
    reveal_strlit("set-radius");
    reveal_strlit("set_radius");
    reveal_strlit("get-state");
    reveal_strlit("get_state");
    reveal_strlit("reload");
    reveal_strlit("msg");
    reveal_strlit("help");
    reveal_strlit("-h");
    reveal_strlit("--help");
    reveal_strlit("-f");
    reveal_strlit("--focused");
    law_commands_go_by_their_names(name);
    assert("-f"@[1] == 'f' && "-h"@[1] == 'h');
    assert(name[0] != '-');
    assert("-h"@[0] == '-' && "--help"@[0] == '-' && "-f"@[0] == '-' && "--focused"@[0] == '-');
    assert("-f"@.len() == 2 && "-h"@.len() == 2 && "--help"@.len() == 6 && "--focused"@.len() == 9);
}

proof fn lemma_named(name: Seq<char>, text: Seq<char>, focused: bool, long: bool)
    requires
        crate::cli::verb_for(name) is Some,
        no_flag(text),
    ensures
        ({
            let args = seq![Some(name), Some(text)] + focus_flag(focused, long);
            &&& crate::cli::flag_taken(args, "-h"@, "--help"@) == (args, false)
            &&& !crate::cli::starts_without_name(args)
            &&& args[0] == Some(name)
        }),
{
    let args = seq![Some(name), Some(text)] + focus_flag(focused, long);
    lemma_names_are_no_flags(name);
    assert forall|i: int| 0 <= i < args.len() implies #[trigger] args[i] != Some("-h"@) && args[i]
        != Some("--help"@) by {
        if i >= 2 {
            assert(args[i] == focus_flag(focused, long)[i - 2]);
        }
    }
    lemma_no_help(args);
}

/// A command without values is sent as it is; one that sends a message sends its text as it is; and
/// asking for help, by flag or by name, shows it. Whatever is left over is refused, all of it.
pub proof fn law_plain_commands_are_sent<C, W, O, R>(
    name: Seq<char>,
    rest: ArgList,
    parse_color: C,
    parse_width: W,
    parse_offset: O,
    parse_radius: R,
    outcome: Result<CliOutcome, CliError>,
) where
    C: Fn(String) -> Result<ColorBrushConfig, String>,
    W: Fn(String) -> Result<WidthConfig, String>,
    O: Fn(String) -> Result<OffsetConfig, String>,
    R: Fn(String) -> Result<RadiusConfig, String>,

    requires
        !rest.contains(Some("-h"@)),
        !rest.contains(Some("--help"@)),
        crate::cli::reads_command_line(
            seq![Some(name)] + rest,
            parse_color,
            parse_width,
            parse_offset,
            parse_radius,
            outcome,
        ),
    ensures
        name == "reload"@ && rest.len() == 0 ==> outcome == Ok::<CliOutcome, CliError>(
            CliOutcome::Send(IpcCommand::Reload),
        ),
        (name == "get-state"@ || name == "get_state"@) && rest.len() == 0 ==> outcome == Ok::<
            CliOutcome,
            CliError,
        >(CliOutcome::Send(IpcCommand::GetState)),
        (name == "reload"@ || name == "get-state"@ || name == "get_state"@) && rest.len() > 0 ==> (
        outcome matches Err(CliError::UnknownArguments(left)) && crate::cli::texts(left@) == rest),
        name == "help"@ ==> outcome == Ok::<CliOutcome, CliError>(CliOutcome::ShowHelp),
        name == "msg"@ && rest.len() == 1 && rest[0] is Some ==> (outcome matches Ok(
            CliOutcome::SendRaw(text),
        ) && text@ == rest[0]->0),
        name == "msg"@ && rest.len() == 0 ==> (outcome matches Err(error) && error.complains(
            Complaint::MissingArgument,
        )),
        name == "msg"@ && rest.len() > 1 && rest[0] is Some ==> (outcome matches Err(
            CliError::UnknownArguments(left),
        ) && crate::cli::texts(left@) == rest.drop_first()),
{
    let args = seq![Some(name)] + rest;
    law_commands_go_by_their_names(name);
    if crate::cli::verb_for(name) is Some {
        lemma_names_are_no_flags(name);
        assert forall|i: int| 0 <= i < args.len() implies #[trigger] args[i] != Some("-h"@)
            && args[i] != Some("--help"@) by {
            if i > 0 {
                assert(args[i] == rest[i - 1]);
                assert(rest.contains(rest[i - 1]));
            }
        }
        lemma_no_help(args);
        assert(args[0] == Some(name));
        assert(args.drop_first() =~= rest);
    }
}

/// A command line without a command is refused as that, unless it asks for help; one that names no
/// known command is refused with that name.
pub proof fn law_unknown_commands_are_refused<C, W, O, R>(
    args: ArgList,
    parse_color: C,
    parse_width: W,
    parse_offset: O,
    parse_radius: R,
    outcome: Result<CliOutcome, CliError>,
) where
    C: Fn(String) -> Result<ColorBrushConfig, String>,
    W: Fn(String) -> Result<WidthConfig, String>,
    O: Fn(String) -> Result<OffsetConfig, String>,
    R: Fn(String) -> Result<RadiusConfig, String>,

    requires
        crate::cli::reads_command_line(
            args,
            parse_color,
            parse_width,
            parse_offset,
            parse_radius,
            outcome,
        ),
    ensures
        args.contains(Some("-h"@)) || args.contains(Some("--help"@)) ==> outcome == Ok::<
            CliOutcome,
            CliError,
        >(CliOutcome::ShowHelp),
        args.len() == 0 ==> (outcome matches Err(error) && error is MissingSubcommand),
        !args.contains(Some("-h"@)) && !args.contains(Some("--help"@)) && args.len() > 0 ==> {
            &&& args[0] matches Some(name) ==> name.len() > 0 && name[0] == '-' ==> (outcome matches Err(
                error,
            ) && error is MissingSubcommand)
            &&& args[0] matches Some(name) ==> (name.len() == 0 || name[0] != '-')
                && crate::cli::verb_for(name) is None ==> (outcome matches Err(
                CliError::UnknownCommand(unknown),
            ) && unknown@ == name)
            &&& args[0] is None ==> (outcome matches Err(error) && error.complains(
                Complaint::NotUnicode,
            ))
        },
{
    law_flags_are_taken_out(args, "-h"@, "--help"@);
}

/// Colors are sent under the keys that they were given with: the active one behind `-a`, the
/// inactive one behind `-i`, the latter missing where it is not given.
pub proof fn law_colors_are_sent_under_their_keys<C: Fn(String) -> Result<ColorBrushConfig, String>>(
    active_text: Seq<char>,
    inactive_text: Option<Seq<char>>,
    focused: bool,
    long: bool,
    parse: C,
    active: ColorBrushConfig,
    inactive: ColorBrushConfig,
    outcome: Result<CliOutcome, CliError>,
)
    requires
        no_key(active_text),
        inactive_text matches Some(text) ==> no_key(text) && makes(parse, text, inactive),
        makes(parse, active_text, active),
        crate::cli::reads_color_command(
            seq![Some("-a"@), Some(active_text)] + (match inactive_text {
                Some(text) => seq![Some("-i"@), Some(text)],
                None => Seq::empty(),
            }) + focus_flag(focused, long),
            parse,
            outcome,
        ),
    ensures
        outcome == Ok::<CliOutcome, CliError>(
            CliOutcome::Send(
                IpcCommand::SetColor {
                    active: Some(active),
                    inactive: if inactive_text is Some {
                        Some(inactive)
                    } else {
                        None
                    },
                    focused,
                },
            ),
        ),
{
    let tail = match inactive_text {
        Some(text) => seq![Some("-i"@), Some(text)],
        None => Seq::empty(),
    };
    let flag = focus_flag(focused, long);
    let args = seq![Some("-a"@), Some(active_text)] + tail + flag;
    lemma_keys_differ();
    let (between, first) = choose|
        between: ArgList,
        first: Result<Option<ColorBrushConfig>, CliError>,
    | #[trigger]
        crate::cli::reads_color(args, "-a"@, "--active"@, parse, between, first) && match first {
            Err(error) => outcome == Err::<CliOutcome, CliError>(error),
            Ok(active) => exists|after: ArgList, second: Result<Option<ColorBrushConfig>, CliError>|
             #[trigger]
                crate::cli::reads_color(between, "-i"@, "--inactive"@, parse, after, second)
                    && match second {
                    Err(error) => outcome == Err::<CliOutcome, CliError>(error),
                    Ok(inactive) => if active is None && inactive is None {
                        outcome matches Err(error) && error is NoColors
                    } else {
                        let (rest, focused) = crate::cli::focus_taken(after);
                        crate::cli::finished(
                            rest,
                            CliOutcome::Send(IpcCommand::SetColor { active, inactive, focused }),
                            outcome,
                        )
                    },
                },
        };
    assert(args =~= seq![Some("-a"@), Some(active_text)] + (tail + flag));
    lemma_color_in_front(
        active_text,
        tail + flag,
        "-a"@,
        "--active"@,
        parse,
        active,
        between,
        first,
    );
    let (after, second) = choose|
        after: ArgList,
        second: Result<Option<ColorBrushConfig>, CliError>,
    | #[trigger]
        crate::cli::reads_color(between, "-i"@, "--inactive"@, parse, after, second)
            && match second {
            Err(error) => outcome == Err::<CliOutcome, CliError>(error),
            Ok(inactive) => {
                let (rest, focused) = crate::cli::focus_taken(after);
                crate::cli::finished(
                    rest,
                    CliOutcome::Send(
                        IpcCommand::SetColor { active: Some(active), inactive, focused },
                    ),
                    outcome,
                )
            },
        };
    match inactive_text {
        Some(text) => {
            lemma_color_in_front(
                text,
                flag,
                "-i"@,
                "--inactive"@,
                parse,
                inactive,
                after,
                second,
            );
            assert(after == flag);
        },
        None => {
            assert(between =~= flag);
            assert forall|i: int| 0 <= i < between.len() implies #[trigger] between[i] != Some(
                "-i"@,
            ) && between[i] != Some("--inactive"@) by {}
            lemma_no_flag(between, "-i"@, "--inactive"@);
            let value = choose|value: Result<Option<String>, CliError>| #[trigger]
                crate::cli::option_taken(between, "-i"@, "--inactive"@, after, value)
                    && crate::cli::color_made_of(parse, value, second);
            assert(after == flag);
        },
    }
    assert(after =~= Seq::<Option<Seq<char>>>::empty() + flag);
    lemma_focus_flag(Seq::empty(), focused, long);
}

/// A color command without colors is refused as that.
pub proof fn law_colors_are_asked_for<C: Fn(String) -> Result<ColorBrushConfig, String>>(
    args: ArgList,
    parse: C,
    outcome: Result<CliOutcome, CliError>,
)
    requires
        !args.contains(Some("-a"@)),
        !args.contains(Some("--active"@)),
        !args.contains(Some("-i"@)),
        !args.contains(Some("--inactive"@)),
        crate::cli::reads_color_command(args, parse, outcome),
    ensures
        outcome matches Err(error) && error is NoColors,
{
    lemma_no_flag(args, "-a"@, "--active"@);
    lemma_no_flag(args, "-i"@, "--inactive"@);
}

/// Whether a text is none of the keys that a color command knows.
pub open spec fn no_key(text: Seq<char>) -> bool {
    &&& no_flag(text)
    &&& text != "-a"@
    &&& text != "--active"@
    &&& text != "-i"@
    &&& text != "--inactive"@
}

proof fn lemma_keys_differ()
    ensures
        "-a"@ != "-i"@,
        "-a"@ != "--inactive"@,
        "-a"@ != "--active"@,
        "-i"@ != "--active"@,
        "-i"@ != "--inactive"@,
        "-f"@ != "-a"@,
        "-f"@ != "-i"@,
        "-f"@ != "--active"@,
        "-f"@ != "--inactive"@,
        "--focused"@ != "-a"@,
        "--focused"@ != "-i"@,
        "--focused"@ != "--active"@,
        "--focused"@ != "--inactive"@,
{
    reveal_strlit("-a");
    reveal_strlit("-i");
    reveal_strlit("-f");
    reveal_strlit("--active");
    reveal_strlit("--inactive");
    reveal_strlit("--focused");
    assert("-a"@[1] == 'a' && "-i"@[1] == 'i' && "-f"@[1] == 'f');
    assert("-a"@.len() == 2 && "-i"@.len() == 2 && "-f"@.len() == 2 && "--active"@.len() == 8
        && "--inactive"@.len() == 10 && "--focused"@.len() == 9);
}

proof fn lemma_color_in_front<C: Fn(String) -> Result<ColorBrushConfig, String>>(
    text: Seq<char>,
    rest: ArgList,
    short: Seq<char>,
    long: Seq<char>,
    parse: C,
    color: ColorBrushConfig,
    after: ArgList,
    made: Result<Option<ColorBrushConfig>, CliError>,
)
    requires
        makes(parse, text, color),
        crate::cli::reads_color(
            seq![Some(short), Some(text)] + rest,
            short,
            long,
            parse,
            after,
            made,
        ),
    ensures
        after == rest,
        made == Ok::<Option<ColorBrushConfig>, CliError>(Some(color)),
{
    let before = seq![Some(short), Some(text)] + rest;
    assert(before[0] == Some(short) && before[1] == Some(text));
    assert(crate::cli::first_position(before, short) == Some(0int));
    assert(crate::cli::key_position(before, short, long) == Some(0int));
    let value = choose|value: Result<Option<String>, CliError>| #[trigger]
        crate::cli::option_taken(before, short, long, after, value) && crate::cli::color_made_of(
            parse,
            value,
            made,
        );
    assert(before.remove(0).remove(0) =~= rest);
    let given = value->Ok_0->0;
    let found = choose|found: Result<ColorBrushConfig, CliError>| #[trigger]
        crate::cli::made_of(parse, given@, found) && match found {
            Err(error) => made == Err::<Option<ColorBrushConfig>, CliError>(error),
            Ok(color) => made == Ok::<Option<ColorBrushConfig>, CliError>(Some(color)),
        };
    let parsed = choose|parsed: Result<ColorBrushConfig, String>| #[trigger]
        crate::cli::parsed_by(parse, given@, parsed) && match parsed {
            Err(cause) => found matches Err(error) && crate::cli::says_unparsable(
                error,
                given@,
                cause,
            ),
            Ok(color) => found == Ok::<ColorBrushConfig, CliError>(color),
        };
    let asked = choose|asked: String| asked@ == given@ && #[trigger] call_ensures(
        parse,
        (asked,),
        parsed,
    );
    assert(parsed == Ok::<ColorBrushConfig, String>(color));
}

/// A reply counts as success exactly if it says so itself; anything else is a refusal, in the words
/// of the reply where it has any.
pub proof fn law_only_explicit_success_counts(reply: JsonTree)
    ensures
        crate::cli::refusal(reply) is None <==> reply.member("ok"@) == JsonTree::Bool(true),
        reply.member("ok"@) != JsonTree::Bool(true) ==> (reply.member("error"@) matches JsonTree::Str(
            reason,
        ) ==> crate::cli::refusal(reply) == Some(reason)),
        reply.member("ok"@) != JsonTree::Bool(true) && !(reply.member("error"@) is Str)
            ==> crate::cli::refusal(reply) == Some("ipc command failed"@),
{
}

/// An option with nothing behind it is refused with the key that it was given by, and one with
/// something behind it that is no text is refused as that.
pub proof fn law_options_need_values<C: Fn(String) -> Result<ColorBrushConfig, String>>(
    long: bool,
    rest: ArgList,
    parse: C,
    outcome: Result<CliOutcome, CliError>,
)
    requires
        rest.len() == 0 || rest[0] is None,
        crate::cli::reads_color_command(
            seq![
                Some(
                    if long {
                        "--active"@
                    } else {
                        "-a"@
                    },
                ),
            ] + rest,
            parse,
            outcome,
        ),
        !rest.contains(Some("-a"@)),
    ensures
        outcome matches Err(error) && error.complains(
            if rest.len() > 0 {
                Complaint::NotUnicode
            } else if long {
                Complaint::OptionWithoutValue("--active"@)
            } else {
                Complaint::OptionWithoutValue("-a"@)
            },
        ),
{
    let key = if long {
        "--active"@
    } else {
        "-a"@
    };
    let args = seq![Some(key)] + rest;
    lemma_keys_differ();
    crate::cli::law_first_position_is_found(args, "-a"@);
    crate::cli::law_first_position_is_found(args, "--active"@);
    assert(args[0] == Some(key));
    assert(args.contains(Some(key)));
    if long {
        assert forall|i: int| 0 <= i < args.len() implies #[trigger] args[i] != Some("-a"@) by {
            if i > 0 {
                assert(args[i] == rest[i - 1]);
                assert(rest.contains(rest[i - 1]));
            }
        }
        assert(crate::cli::first_position(args, "-a"@) is None);
    }
    assert(crate::cli::key_position(args, "-a"@, "--active"@) == Some(0int));
    let (between, first) = choose|
        between: ArgList,
        first: Result<Option<ColorBrushConfig>, CliError>,
    | #[trigger]
        crate::cli::reads_color(args, "-a"@, "--active"@, parse, between, first) && match first {
            Err(error) => outcome == Err::<CliOutcome, CliError>(error),
            Ok(active) => true,
        };
    let value = choose|value: Result<Option<String>, CliError>| #[trigger]
        crate::cli::option_taken(args, "-a"@, "--active"@, between, value)
            && crate::cli::color_made_of(parse, value, first);
    if rest.len() > 0 {
        assert(args[1] == rest[0]);
    }
}

/// A command that needs a value is refused where there is none, where it is no text, and where the
/// parser makes nothing of it; in the last case with the text and with what the parser says.
pub proof fn law_values_are_needed<C, W, O, R>(
    name: Seq<char>,
    rest: ArgList,
    cause: String,
    parse_color: C,
    parse_width: W,
    parse_offset: O,
    parse_radius: R,
    outcome: Result<CliOutcome, CliError>,
) where
    C: Fn(String) -> Result<ColorBrushConfig, String>,
    W: Fn(String) -> Result<WidthConfig, String>,
    O: Fn(String) -> Result<OffsetConfig, String>,
    R: Fn(String) -> Result<RadiusConfig, String>,

    requires
        name == "set-width"@ || name == "set-offset"@ || name == "set-radius"@,
        !rest.contains(Some("-h"@)),
        !rest.contains(Some("--help"@)),
        rest.len() > 0 && rest[0] is Some ==> {
            &&& refuses(parse_width, rest[0]->0, cause)
            &&& refuses(parse_offset, rest[0]->0, cause)
            &&& refuses(parse_radius, rest[0]->0, cause)
        },
        crate::cli::reads_command_line(
            seq![Some(name)] + rest,
            parse_color,
            parse_width,
            parse_offset,
            parse_radius,
            outcome,
        ),
    ensures
        rest.len() == 0 ==> (outcome matches Err(error) && error.complains(
            Complaint::MissingArgument,
        )),
        rest.len() > 0 && rest[0] is None ==> (outcome matches Err(error) && error.complains(
            Complaint::NotUnicode,
        )),
        rest.len() > 0 && rest[0] is Some ==> (outcome matches Err(CliError::Unparsable {
            value,
            cause: told,
        }) && value@ == rest[0]->0 && told == cause),
{
    let args = seq![Some(name)] + rest;
    law_commands_go_by_their_names(name);
    lemma_names_are_no_flags(name);
    assert forall|i: int| 0 <= i < args.len() implies #[trigger] args[i] != Some("-h"@) && args[i]
        != Some("--help"@) by {
        if i > 0 {
            assert(args[i] == rest[i - 1]);
            assert(rest.contains(rest[i - 1]));
        }
    }
    lemma_no_help(args);
    assert(args[0] == Some(name));
    assert(args.drop_first() =~= rest);
    if name == "set-width"@ {
        lemma_value_refused(
            rest,
            cause,
            parse_width,
            |width: WidthConfig, focused: bool| IpcCommand::SetWidth { width, focused },
            outcome,
        );
    } else if name == "set-offset"@ {
        lemma_value_refused(
            rest,
            cause,
            parse_offset,
            |offset: OffsetConfig, focused: bool| IpcCommand::SetOffset { offset, focused },
            outcome,
        );
    } else {
        lemma_value_refused(
            rest,
            cause,
            parse_radius,
            |radius: RadiusConfig, focused: bool| IpcCommand::SetRadius { radius, focused },
            outcome,
        );
    }
}

/// Whether a parser makes nothing of a text, whenever it is asked, and says this of it.
pub open spec fn refuses<T, P: Fn(String) -> Result<T, String>>(
    parse: P,
    text: Seq<char>,
    cause: String,
) -> bool {
    forall|given: String, result: Result<T, String>|
        given@ == text && #[trigger] call_ensures(parse, (given,), result) ==> result == Err::<
            T,
            String,
        >(cause)
}

proof fn lemma_value_refused<T, P: Fn(String) -> Result<T, String>>(
    given: ArgList,
    cause: String,
    parse: P,
    command: spec_fn(T, bool) -> IpcCommand,
    outcome: Result<CliOutcome, CliError>,
)
    requires
        given.len() > 0 && given[0] is Some ==> refuses(parse, given[0]->0, cause),
        crate::cli::reads_value_command(given, parse, command, outcome),
    ensures
        given.len() == 0 ==> (outcome matches Err(error) && error.complains(
            Complaint::MissingArgument,
        )),
        given.len() > 0 && given[0] is None ==> (outcome matches Err(error) && error.complains(
            Complaint::NotUnicode,
        )),
        given.len() > 0 && given[0] is Some ==> (outcome matches Err(CliError::Unparsable {
            value,
            cause: told,
        }) && value@ == given[0]->0 && told == cause),
{
    let read = choose|read: Result<T, CliError>| #[trigger]
        crate::cli::reads_value(given, parse, read) && match read {
            Err(error) => outcome == Err::<CliOutcome, CliError>(error),
            Ok(read) => {
                let (rest, focused) = crate::cli::focus_taken(given.drop_first());
                crate::cli::finished(rest, CliOutcome::Send(command(read, focused)), outcome)
            },
        };
    if given.len() > 0 && given[0] is Some {
        let text = given[0]->0;
        let parsed = choose|parsed: Result<T, String>| #[trigger]
            crate::cli::parsed_by(parse, text, parsed) && match parsed {
                Err(cause) => read matches Err(error) && crate::cli::says_unparsable(
                    error,
                    text,
                    cause,
                ),
                Ok(found) => read == Ok::<T, CliError>(found),
            };
        let asked = choose|asked: String| asked@ == text && #[trigger] call_ensures(
            parse,
            (asked,),
            parsed,
        );
        assert(parsed == Err::<T, String>(cause));
    }
}

/// The inactive color can be given alone, and is then sent alone.
pub proof fn law_inactive_color_is_sent_alone<C: Fn(String) -> Result<ColorBrushConfig, String>>(
    text: Seq<char>,
    focused: bool,
    long: bool,
    parse: C,
    inactive: ColorBrushConfig,
    outcome: Result<CliOutcome, CliError>,
)
    requires
        no_key(text),
        makes(parse, text, inactive),
        crate::cli::reads_color_command(
            seq![Some("-i"@), Some(text)] + focus_flag(focused, long),
            parse,
            outcome,
        ),
    ensures
        outcome == Ok::<CliOutcome, CliError>(
            CliOutcome::Send(
                IpcCommand::SetColor { active: None, inactive: Some(inactive), focused },
            ),
        ),
{
    let flag = focus_flag(focused, long);
    let args = seq![Some("-i"@), Some(text)] + flag;
    lemma_keys_differ();
    assert forall|i: int| 0 <= i < args.len() implies #[trigger] args[i] != Some("-a"@) && args[i]
        != Some("--active"@) by {
        if i >= 2 {
            assert(args[i] == flag[i - 2]);
        }
    }
    lemma_no_flag(args, "-a"@, "--active"@);
    let (between, first) = choose|
        between: ArgList,
        first: Result<Option<ColorBrushConfig>, CliError>,
    | #[trigger]
        crate::cli::reads_color(args, "-a"@, "--active"@, parse, between, first) && match first {
            Err(error) => outcome == Err::<CliOutcome, CliError>(error),
            Ok(active) => exists|after: ArgList, second: Result<Option<ColorBrushConfig>, CliError>|
             #[trigger]
                crate::cli::reads_color(between, "-i"@, "--inactive"@, parse, after, second)
                    && match second {
                    Err(error) => outcome == Err::<CliOutcome, CliError>(error),
                    Ok(inactive) => if active is None && inactive is None {
                        outcome matches Err(error) && error is NoColors
                    } else {
                        let (rest, focused) = crate::cli::focus_taken(after);
                        crate::cli::finished(
                            rest,
                            CliOutcome::Send(IpcCommand::SetColor { active, inactive, focused }),
                            outcome,
                        )
                    },
                },
        };
    let value = choose|value: Result<Option<String>, CliError>| #[trigger]
        crate::cli::option_taken(args, "-a"@, "--active"@, between, value)
            && crate::cli::color_made_of(parse, value, first);
    assert(between == args);
    assert(first == Ok::<Option<ColorBrushConfig>, CliError>(None));
    let (after, second) = choose|
        after: ArgList,
        second: Result<Option<ColorBrushConfig>, CliError>,
    | #[trigger]
        crate::cli::reads_color(between, "-i"@, "--inactive"@, parse, after, second)
            && match second {
            Err(error) => outcome == Err::<CliOutcome, CliError>(error),
            Ok(inactive) => if inactive is None {
                outcome matches Err(error) && error is NoColors
            } else {
                let (rest, focused) = crate::cli::focus_taken(after);
                crate::cli::finished(
                    rest,
                    CliOutcome::Send(IpcCommand::SetColor { active: None, inactive, focused }),
                    outcome,
                )
            },
        };
    lemma_color_in_front(text, flag, "-i"@, "--inactive"@, parse, inactive, after, second);
    assert(after =~= Seq::<Option<Seq<char>>>::empty() + flag);
    lemma_focus_flag(Seq::empty(), focused, long);
}

/// What is left of a command line is reported one by one, in its order, text as text.
pub proof fn law_leftovers_keep_their_order(args: Seq<Option<String>>, i: int)
    requires
        0 <= i < args.len(),
    ensures
        crate::cli::texts(args).len() == args.len(),
        args[i] matches Some(text) ==> crate::cli::texts(args)[i] == Some(text@),
        args[i] is None ==> crate::cli::texts(args)[i] is None,
{
}

} // verus!
