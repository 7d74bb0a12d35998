//! The command line of a second process that talks to the running one.

use vstd::prelude::*;

use crate::colors::ColorBrushConfig;
use crate::config::{OffsetConfig, RadiusConfig, WidthConfig};
use crate::ipc::{IpcCommand, IpcReply};
use crate::json::{parse_text, Json, JsonTree};

verus! {

#[verifier::external_type_specification]
#[verifier::external_body]
pub struct ExArguments(pico_args::Arguments);

#[verifier::external_type_specification]
#[verifier::external_body]
pub struct ExArgumentsError(pico_args::Error);

/// Arguments in their order, each as text or, where it is no Unicode, as `None`.
pub type ArgList = Seq<Option<Seq<char>>>;

/// The arguments that a parser of `pico_args` still holds.
pub uninterp spec fn arguments(args: pico_args::Arguments) -> Seq<Option<Seq<char>>>;

/// What the argument parser complains of.
pub enum Complaint {
    NotUnicode,
    MissingArgument,
    /// The key that nothing stands behind.
    OptionWithoutValue(Seq<char>),
    Other,
}

/// The complaint that an error of `pico_args` holds: its variant, and the key where that has one.
pub uninterp spec fn complaint(error: pico_args::Error) -> Complaint;

/// Where a flag or option first stands. The short form counts before the long one.
pub open spec fn key_position(args: ArgList, short: Seq<char>, long: Seq<char>) -> Option<int> {
    match first_position(args, short) {
        Some(at) => Some(at),
        None => first_position(args, long),
    }
}

/// Under which of its two keys a flag or option is found.
pub open spec fn found_key(args: ArgList, short: Seq<char>, long: Seq<char>) -> Seq<char> {
    if first_position(args, short) is Some {
        short
    } else {
        long
    }
}

/// Where an argument first stands.
pub open spec fn first_position(args: ArgList, text: Seq<char>) -> Option<int>
    decreases args.len(),
{
    if args.len() == 0 {
        None
    } else if args[0] == Some(text) {
        Some(0int)
    } else {
        match first_position(args.drop_first(), text) {
            Some(at) => Some(at + 1),
            None => None,
        }
    }
}

/// Whether keys have the form of a short and a long flag.
pub open spec fn well_formed_keys(short: Seq<char>, long: Seq<char>) -> bool {
    &&& short.len() == 2 && short[0] == '-' && short[1] != '-'
    &&& long.len() >= 2 && long[0] == '-' && long[1] == '-'
}

/// Calls `Arguments::contains` with a short and a long key. A flag that is found is taken out, once.
#[verifier::external_body]
fn contains(args: &mut pico_args::Arguments, short: &'static str, long: &'static str) -> (found: bool)
    requires
        well_formed_keys(short@, long@),
    ensures
        found == (key_position(arguments(*old(args)), short@, long@) is Some),
        arguments(*final(args)) == (match key_position(arguments(*old(args)), short@, long@) {
            Some(at) => arguments(*old(args)).remove(at),
            None => arguments(*old(args)),
        }),
{
    args.contains([short, long])
}

/// Calls `Arguments::subcommand`. It takes out the first argument unless that starts with a dash,
/// and complains of one that is no Unicode.
#[verifier::external_body]
fn subcommand(args: &mut pico_args::Arguments) -> (name: Result<Option<String>, pico_args::Error>)
    ensures
        ({
            let before = arguments(*old(args));
            if starts_without_name(before) {
                name == Ok::<Option<String>, pico_args::Error>(None) && arguments(*final(args))
                    == before
            } else {
                &&& arguments(*final(args)) == before.drop_first()
                &&& match before[0] {
                    Some(first) => name matches Ok(Some(text)) && text@ == first,
                    None => name matches Err(error) && complaint(error) == Complaint::NotUnicode,
                }
            }
        }),
{
    args.subcommand()
}

/// What is wrong with the value of an option that stands at `at`.
pub open spec fn option_complaint(
    args: ArgList,
    short: Seq<char>,
    long: Seq<char>,
    at: int,
) -> Complaint {
    if at + 1 < args.len() {
        Complaint::NotUnicode
    } else {
        Complaint::OptionWithoutValue(found_key(args, short, long))
    }
}

/// Calls `Arguments::opt_value_from_str` for text, with a short and a long key. It takes out the key
/// and the argument behind it. Where there is none, or it is no Unicode, it complains of that and
/// takes out nothing.
#[verifier::external_body]
fn opt_value(args: &mut pico_args::Arguments, short: &'static str, long: &'static str) -> (value: Result<
    Option<String>,
    pico_args::Error,
>)
    requires
        well_formed_keys(short@, long@),
    ensures
        ({
            let before = arguments(*old(args));
            match key_position(before, short@, long@) {
                None => {
                    &&& value == Ok::<Option<String>, pico_args::Error>(None)
                    &&& arguments(*final(args)) == before
                },
                Some(at) => if at + 1 < before.len() && before[at + 1] is Some {
                    &&& value matches Ok(Some(text))
                    &&& text@ == before[at + 1]->0
                    &&& arguments(*final(args)) == before.remove(at).remove(at)
                } else {
                    &&& value matches Err(error)
                    &&& complaint(error) == option_complaint(before, short@, long@, at)
                    &&& arguments(*final(args)) == before
                },
            }
        }),
{
    args.opt_value_from_str([short, long])
}

/// What is wrong with the first argument where it cannot be had as text.
pub open spec fn value_complaint(args: ArgList) -> Complaint {
    if args.len() == 0 {
        Complaint::MissingArgument
    } else {
        Complaint::NotUnicode
    }
}

/// Calls `Arguments::free_from_str` for text. It takes out the first argument, and complains where
/// there is none or it is no Unicode.
#[verifier::external_body]
fn free(args: &mut pico_args::Arguments) -> (value: Result<String, pico_args::Error>)
    ensures
        ({
            let before = arguments(*old(args));
            if before.len() == 0 {
                &&& value matches Err(error)
                &&& complaint(error) == value_complaint(before)
                &&& arguments(*final(args)) == before
            } else {
                &&& arguments(*final(args)) == before.drop_first()
                &&& match before[0] {
                    Some(first) => value matches Ok(text) && text@ == first,
                    None => value matches Err(error) && complaint(error) == value_complaint(before),
                }
            }
        }),
{
    args.free_from_str()
}

/// Calls `Arguments::finish` and gives each argument as text, or as `None` where it is no Unicode.
#[verifier::external_body]
fn finish(args: pico_args::Arguments) -> (rest: Vec<Option<String>>)
    ensures
        texts(rest@) == arguments(args),
{
    args.finish().into_iter().map(|arg| arg.into_string().ok()).collect()
}

pub open spec fn texts(args: Seq<Option<String>>) -> ArgList {
    Seq::new(
        args.len(),
        |i: int|
            match args[i] {
                Some(text) => Some(text@),
                None => None,
            },
    )
}

#[derive(Debug, Clone, Copy, PartialEq, Eq, Structural)]
pub enum CliVerb {
    Help,
    SetColor,
    SetWidth,
    SetOffset,
    SetRadius,
    Reload,
    GetState,
    Msg,
}

/// Why a command line leads to no command.
#[derive(Debug)]
pub enum CliError {
    /// The parser's own complaint.
    Arguments(pico_args::Error),
    MissingSubcommand,
    UnknownCommand(String),
    NoColors,
    /// A value was given that is none, and why.
    Unparsable { value: String, cause: String },
    UnknownArguments(Vec<Option<String>>),
}

impl CliError {
    /// Whether this is the parser's complaint, and which.
    pub open spec fn complains(self, expected: Complaint) -> bool {
        self matches CliError::Arguments(error) && complaint(error) == expected
    }
}

/// What a command line asks for.
#[derive(Debug, PartialEq)]
pub enum CliOutcome {
    ShowHelp,
    Send(IpcCommand),
    /// Send this text as it is.
    SendRaw(String),
}

/// What a subcommand stands for.
pub open spec fn verb_for(name: Seq<char>) -> Option<CliVerb> {
    if name == "set-color"@ || name == "set_color"@ {
        Some(CliVerb::SetColor)
    } else if name == "set-width"@ || name == "set_width"@ {
        Some(CliVerb::SetWidth)
    } else if name == "set-offset"@ || name == "set_offset"@ {
        Some(CliVerb::SetOffset)
    } else if name == "set-radius"@ || name == "set_radius"@ {
        Some(CliVerb::SetRadius)
    } else if name == "reload"@ {
        Some(CliVerb::Reload)
    } else if name == "get-state"@ || name == "get_state"@ {
        Some(CliVerb::GetState)
    } else if name == "msg"@ {
        Some(CliVerb::Msg)
    } else if name == "help"@ {
        Some(CliVerb::Help)
    } else {
        None
    }
}

fn is(name: &String, literal: &str) -> (same: bool)
    ensures
        same == (name@ == literal@),
{
    *name == literal.to_owned()
}

fn verb_of(name: &String) -> (verb: Option<CliVerb>)
    ensures
        verb == verb_for(name@),
{
    if is(name, "set-color") || is(name, "set_color") {
        Some(CliVerb::SetColor)
    } else if is(name, "set-width") || is(name, "set_width") {
        Some(CliVerb::SetWidth)
    } else if is(name, "set-offset") || is(name, "set_offset") {
        Some(CliVerb::SetOffset)
    } else if is(name, "set-radius") || is(name, "set_radius") {
        Some(CliVerb::SetRadius)
    } else if is(name, "reload") {
        Some(CliVerb::Reload)
    } else if is(name, "get-state") || is(name, "get_state") {
        Some(CliVerb::GetState)
    } else if is(name, "msg") {
        Some(CliVerb::Msg)
    } else if is(name, "help") {
        Some(CliVerb::Help)
    } else {
        None
    }
}

/// Whether a command line has no subcommand: nothing is left of it, or it starts with a dash.
pub open spec fn starts_without_name(args: ArgList) -> bool {
    args.len() == 0 || (args[0] matches Some(first) && first.len() > 0 && first[0] == '-')
}

/// The arguments once a flag has been looked for, and whether it was there.
pub open spec fn flag_taken(args: ArgList, short: Seq<char>, long: Seq<char>) -> (ArgList, bool) {
    match key_position(args, short, long) {
        Some(at) => (args.remove(at), true),
        None => (args, false),
    }
}

/// The focus flag taken out, and whether it was there.
pub open spec fn focus_taken(args: ArgList) -> (ArgList, bool) {
    flag_taken(args, "-f"@, "--focused"@)
}

/// A command line that is being read.
#[derive(Debug)]
pub struct CliSession {
    pub args: pico_args::Arguments,
}

impl View for CliSession {
    type V = Seq<Option<Seq<char>>>;

    open spec fn view(&self) -> Seq<Option<Seq<char>>> {
        arguments(self.args)
    }
}

impl CliSession {
    /// What is asked for. A help flag counts wherever it stands; otherwise the first argument says.
    pub fn begin(&mut self) -> (verb: Result<CliVerb, CliError>)
        ensures
            ({
                let (rest, help) = flag_taken(old(self)@, "-h"@, "--help"@);
                if help {
                    &&& final(self)@ == rest
                    &&& verb matches Ok(verb)
                    &&& verb == CliVerb::Help
                } else if starts_without_name(rest) {
                    &&& final(self)@ == rest
                    &&& verb matches Err(error)
                    &&& error is MissingSubcommand
                } else {
                    &&& final(self)@ == rest.drop_first()
                    &&& match rest[0] {
                        None => verb matches Err(error) && error.complains(Complaint::NotUnicode),
                        Some(name) => match verb_for(name) {
                            Some(expected) => verb matches Ok(verb) && verb == expected,
                            None => verb matches Err(error) && error matches CliError::UnknownCommand(
                                unknown,
                            ) && unknown@ == name,
                        },
                    }
                }
            }),
    {
        proof {
            reveal_strlit("-h");
            reveal_strlit("--help");
        }
        if contains(&mut self.args, "-h", "--help") {
            return Ok(CliVerb::Help);
        }
        match subcommand(&mut self.args) {
            Err(error) => Err(CliError::Arguments(error)),
            Ok(None) => Err(CliError::MissingSubcommand),
            Ok(Some(name)) => match verb_of(&name) {
                Some(verb) => Ok(verb),
                None => Err(CliError::UnknownCommand(name)),
            },
        }
    }

    /// The text of the active color, if the command line gives one.
    pub fn active_color(&mut self) -> (value: Result<Option<String>, CliError>)
        ensures
            option_taken(old(self)@, "-a"@, "--active"@, final(self)@, value),
    {
        proof {
            reveal_strlit("-a");
            reveal_strlit("--active");
        }
        match opt_value(&mut self.args, "-a", "--active") {
            Ok(value) => Ok(value),
            Err(error) => Err(CliError::Arguments(error)),
        }
    }

    /// The text of the inactive color, if the command line gives one.
    pub fn inactive_color(&mut self) -> (value: Result<Option<String>, CliError>)
        ensures
            option_taken(old(self)@, "-i"@, "--inactive"@, final(self)@, value),
    {
        proof {
            reveal_strlit("-i");
            reveal_strlit("--inactive");
        }
        match opt_value(&mut self.args, "-i", "--inactive") {
            Ok(value) => Ok(value),
            Err(error) => Err(CliError::Arguments(error)),
        }
    }

    /// The text of the value that a command takes.
    pub fn value(&mut self) -> (value: Result<String, CliError>)
        ensures
            if old(self)@.len() > 0 && old(self)@[0] is Some {
                &&& value matches Ok(text)
                &&& text@ == old(self)@[0]->0
            } else {
                value matches Err(error) && error.complains(value_complaint(old(self)@))
            },
            final(self)@ == (if old(self)@.len() > 0 {
                old(self)@.drop_first()
            } else {
                old(self)@
            }),
    {
        match free(&mut self.args) {
            Ok(value) => Ok(value),
            Err(error) => Err(CliError::Arguments(error)),
        }
    }

    fn focused(&mut self) -> (focused: bool)
        ensures
            (final(self)@, focused) == focus_taken(old(self)@),
    {
        proof {
            reveal_strlit("-f");
            reveal_strlit("--focused");
        }
        contains(&mut self.args, "-f", "--focused")
    }

    /// The command to change colors. At least one has to be given.
    pub fn color_command(
        &mut self,
        active: Option<ColorBrushConfig>,
        inactive: Option<ColorBrushConfig>,
    ) -> (command: Result<IpcCommand, CliError>)
        ensures
            if active is None && inactive is None {
                &&& command matches Err(error)
                &&& error is NoColors
                &&& final(self)@ == old(self)@
            } else {
                &&& command matches Ok(command)
                &&& command == (IpcCommand::SetColor {
                    active,
                    inactive,
                    focused: focus_taken(old(self)@).1,
                })
                &&& final(self)@ == focus_taken(old(self)@).0
            },
    {
        if active.is_none() && inactive.is_none() {
            return Err(CliError::NoColors);
        }
        let focused = self.focused();
        Ok(IpcCommand::SetColor { active, inactive, focused })
    }

    pub fn width_command(&mut self, width: WidthConfig) -> (command: IpcCommand)
        ensures
            command == (IpcCommand::SetWidth { width, focused: focus_taken(old(self)@).1 }),
            final(self)@ == focus_taken(old(self)@).0,
    {
        let focused = self.focused();
        IpcCommand::SetWidth { width, focused }
    }

    pub fn offset_command(&mut self, offset: OffsetConfig) -> (command: IpcCommand)
        ensures
            command == (IpcCommand::SetOffset { offset, focused: focus_taken(old(self)@).1 }),
            final(self)@ == focus_taken(old(self)@).0,
    {
        let focused = self.focused();
        IpcCommand::SetOffset { offset, focused }
    }

    pub fn radius_command(&mut self, radius: RadiusConfig) -> (command: IpcCommand)
        ensures
            command == (IpcCommand::SetRadius { radius, focused: focus_taken(old(self)@).1 }),
            final(self)@ == focus_taken(old(self)@).0,
    {
        let focused = self.focused();
        IpcCommand::SetRadius { radius, focused }
    }

    /// Nothing may be left over once a command has been read.
    pub fn finish(self) -> (finished: Result<(), CliError>)
        ensures
            if self@.len() == 0 {
                finished is Ok
            } else {
                &&& finished matches Err(error)
                &&& error matches CliError::UnknownArguments(rest)
                &&& texts(rest@) == self@
            },
    {
        let rest = finish(self.args);
        assert(rest@.len() == texts(rest@).len());
        if rest.len() == 0 {
            return Ok(());
        }
        Err(CliError::UnknownArguments(rest))
    }
}

/// Whether `value` and `after` are what looking for an option leads to.
pub open spec fn option_taken(
    before: ArgList,
    short: Seq<char>,
    long: Seq<char>,
    after: ArgList,
    value: Result<Option<String>, CliError>,
) -> bool {
    match key_position(before, short, long) {
        None => value matches Ok(None) && after == before,
        Some(at) => if at + 1 < before.len() && before[at + 1] is Some {
            &&& value matches Ok(Some(text))
            &&& text@ == before[at + 1]->0
            &&& after == before.remove(at).remove(at)
        } else {
            &&& after == before
            &&& value matches Err(error)
            &&& error.complains(option_complaint(before, short, long, at))
        },
    }
}

/// Whether `parsed` may be what `parse` makes of a text.
pub open spec fn parsed_by<T, P: Fn(String) -> Result<T, String>>(
    parse: P,
    text: Seq<char>,
    parsed: Result<T, String>,
) -> bool {
    exists|given: String| given@ == text && #[trigger] call_ensures(parse, (given,), parsed)
}

/// Whether `outcome` is what is left of `wanted` once the rest of the command line is known: nothing
/// may be left over.
pub open spec fn finished(
    rest: ArgList,
    wanted: CliOutcome,
    outcome: Result<CliOutcome, CliError>,
) -> bool {
    if rest.len() == 0 {
        outcome == Ok::<CliOutcome, CliError>(wanted)
    } else {
        &&& outcome matches Err(error)
        &&& error matches CliError::UnknownArguments(left)
        &&& texts(left@) == rest
    }
}

/// Whether an error says that `text` is no value, because of `cause`.
pub open spec fn says_unparsable(error: CliError, text: Seq<char>, cause: String) -> bool {
    error matches CliError::Unparsable { value, cause: given } && value@ == text && given == cause
}

/// Whether `value` may be what is made of a text, with the error that says why it is none.
pub open spec fn made_of<T, P: Fn(String) -> Result<T, String>>(
    parse: P,
    text: Seq<char>,
    value: Result<T, CliError>,
) -> bool {
    exists|parsed: Result<T, String>| #[trigger]
        parsed_by(parse, text, parsed) && match parsed {
            Err(cause) => value matches Err(error) && says_unparsable(error, text, cause),
            Ok(found) => value == Ok::<T, CliError>(found),
        }
}

/// Whether `value` may be what the first argument is read as.
pub open spec fn reads_value<T, P: Fn(String) -> Result<T, String>>(
    args: ArgList,
    parse: P,
    value: Result<T, CliError>,
) -> bool {
    if args.len() == 0 || args[0] is None {
        value matches Err(error) && error.complains(value_complaint(args))
    } else {
        made_of(parse, args[0]->0, value)
    }
}

/// Whether `outcome` is what a command with one value leads to, and then the focus flag.
pub open spec fn reads_value_command<T, P: Fn(String) -> Result<T, String>>(
    args: ArgList,
    parse: P,
    command: spec_fn(T, bool) -> IpcCommand,
    outcome: Result<CliOutcome, CliError>,
) -> bool {
    exists|value: Result<T, CliError>| #[trigger]
        reads_value(args, parse, value) && match value {
            Err(error) => outcome == Err::<CliOutcome, CliError>(error),
            Ok(value) => {
                let (rest, focused) = focus_taken(args.drop_first());
                finished(rest, CliOutcome::Send(command(value, focused)), outcome)
            },
        }
}

/// Whether `color` may be what is made of an option's text.
pub open spec fn color_made_of<P: Fn(String) -> Result<ColorBrushConfig, String>>(
    parse: P,
    value: Result<Option<String>, CliError>,
    color: Result<Option<ColorBrushConfig>, CliError>,
) -> bool {
    match value {
        Err(error) => color == Err::<Option<ColorBrushConfig>, CliError>(error),
        Ok(None) => color == Ok::<Option<ColorBrushConfig>, CliError>(None),
        Ok(Some(text)) => exists|made: Result<ColorBrushConfig, CliError>| #[trigger]
            made_of(parse, text@, made) && match made {
                Err(error) => color == Err::<Option<ColorBrushConfig>, CliError>(error),
                Ok(found) => color == Ok::<Option<ColorBrushConfig>, CliError>(Some(found)),
            },
    }
}

/// Whether `color` and `after` are what looking for a color option leads to.
pub open spec fn reads_color<P: Fn(String) -> Result<ColorBrushConfig, String>>(
    before: ArgList,
    short: Seq<char>,
    long: Seq<char>,
    parse: P,
    after: ArgList,
    color: Result<Option<ColorBrushConfig>, CliError>,
) -> bool {
    exists|value: Result<Option<String>, CliError>| #[trigger]
        option_taken(before, short, long, after, value) && color_made_of(parse, value, color)
}

/// Whether `outcome` is what a color command leads to: the active color, the inactive one, at least
/// one of the two, and then the focus flag.
pub open spec fn reads_color_command<P: Fn(String) -> Result<ColorBrushConfig, String>>(
    args: ArgList,
    parse: P,
    outcome: Result<CliOutcome, CliError>,
) -> bool {
    exists|between: ArgList, first: Result<Option<ColorBrushConfig>, CliError>| #[trigger]
        reads_color(args, "-a"@, "--active"@, parse, between, first) && match first {
            Err(error) => outcome == Err::<CliOutcome, CliError>(error),
            Ok(active) => exists|after: ArgList, second: Result<Option<ColorBrushConfig>, CliError>|
             #[trigger]
                reads_color(between, "-i"@, "--inactive"@, parse, after, second) && match second {
                    Err(error) => outcome == Err::<CliOutcome, CliError>(error),
                    Ok(inactive) => if active is None && inactive is None {
                        outcome matches Err(error) && error is NoColors
                    } else {
                        let (rest, focused) = focus_taken(after);
                        finished(
                            rest,
                            CliOutcome::Send(IpcCommand::SetColor { active, inactive, focused }),
                            outcome,
                        )
                    },
                },
        }
}

/// Whether `outcome` is what a command line leads to.
pub open spec fn reads_command_line<C, W, O, R>(
    args: ArgList,
    parse_color: C,
    parse_width: W,
    parse_offset: O,
    parse_radius: R,
    outcome: Result<CliOutcome, CliError>,
) -> bool where
    C: Fn(String) -> Result<ColorBrushConfig, String>,
    W: Fn(String) -> Result<WidthConfig, String>,
    O: Fn(String) -> Result<OffsetConfig, String>,
    R: Fn(String) -> Result<RadiusConfig, String>,
 {
    let (rest, help) = flag_taken(args, "-h"@, "--help"@);
    if help {
        outcome == Ok::<CliOutcome, CliError>(CliOutcome::ShowHelp)
    } else if starts_without_name(rest) {
        outcome matches Err(error) && error is MissingSubcommand
    } else {
        match rest[0] {
            None => outcome matches Err(error) && error.complains(Complaint::NotUnicode),
            Some(name) => {
                let given = rest.drop_first();
                match verb_for(name) {
                    None => outcome matches Err(error) && error matches CliError::UnknownCommand(
                        unknown,
                    ) && unknown@ == name,
                    Some(CliVerb::Help) => outcome == Ok::<CliOutcome, CliError>(
                        CliOutcome::ShowHelp,
                    ),
                    Some(CliVerb::SetColor) => reads_color_command(given, parse_color, outcome),
                    Some(CliVerb::SetWidth) => reads_value_command(
                        given,
                        parse_width,
                        |width: WidthConfig, focused: bool| IpcCommand::SetWidth { width, focused },
                        outcome,
                    ),
                    Some(CliVerb::SetOffset) => reads_value_command(
                        given,
                        parse_offset,
                        |offset: OffsetConfig, focused: bool|
                            IpcCommand::SetOffset { offset, focused },
                        outcome,
                    ),
                    Some(CliVerb::SetRadius) => reads_value_command(
                        given,
                        parse_radius,
                        |radius: RadiusConfig, focused: bool|
                            IpcCommand::SetRadius { radius, focused },
                        outcome,
                    ),
                    Some(CliVerb::Reload) => finished(
                        given,
                        CliOutcome::Send(IpcCommand::Reload),
                        outcome,
                    ),
                    Some(CliVerb::GetState) => finished(
                        given,
                        CliOutcome::Send(IpcCommand::GetState),
                        outcome,
                    ),
                    Some(CliVerb::Msg) => if given.len() > 0 && given[0] is Some {
                        exists|text: String| #![trigger text@]
                            text@ == given[0]->0 && finished(
                            given.drop_first(),
                            CliOutcome::SendRaw(text),
                            outcome,
                        )
                    } else {
                        outcome matches Err(error) && error.complains(value_complaint(given))
                    },
                }
            },
        }
    }
}

/// Makes a value of a text.
fn make<T, P: Fn(String) -> Result<T, String>>(parse: &P, text: String) -> (value: Result<
    T,
    CliError,
>)
    requires
        forall|text: String| call_requires(*parse, (text,)),
    ensures
        made_of(*parse, text@, value),
{
    let copy = text.clone();
    let ghost given = copy;
    let parsed = (*parse)(copy);
    assert(call_ensures(*parse, (given,), parsed));
    assert(parsed_by(*parse, text@, parsed));
    match parsed {
        Ok(value) => Ok(value),
        Err(cause) => Err(CliError::Unparsable { value: text, cause }),
    }
}

/// Reads a command line. The functions make values of texts, or say why they cannot.
pub fn run_cli<C, W, O, R>(
    args: pico_args::Arguments,
    parse_color: C,
    parse_width: W,
    parse_offset: O,
    parse_radius: R,
) -> (outcome: Result<CliOutcome, CliError>) where
    C: Fn(String) -> Result<ColorBrushConfig, String>,
    W: Fn(String) -> Result<WidthConfig, String>,
    O: Fn(String) -> Result<OffsetConfig, String>,
    R: Fn(String) -> Result<RadiusConfig, String>,

    requires
        forall|text: String| call_requires(parse_color, (text,)),
        forall|text: String| call_requires(parse_width, (text,)),
        forall|text: String| call_requires(parse_offset, (text,)),
        forall|text: String| call_requires(parse_radius, (text,)),
    ensures
        reads_command_line(
            arguments(args),
            parse_color,
            parse_width,
            parse_offset,
            parse_radius,
            outcome,
        ),
{
    let mut session = CliSession { args };
    let verb = match session.begin() {
        Ok(verb) => verb,
        Err(error) => return Err(error),
    };
    match verb {
        CliVerb::Help => Ok(CliOutcome::ShowHelp),
        CliVerb::SetColor => session.read_color_command(&parse_color),
        CliVerb::SetWidth => match session.read_value(&parse_width) {
            Ok(width) => {
                let command = session.width_command(width);
                session.finish_with(CliOutcome::Send(command))
            },
            Err(error) => Err(error),
        },
        CliVerb::SetOffset => match session.read_value(&parse_offset) {
            Ok(offset) => {
                let command = session.offset_command(offset);
                session.finish_with(CliOutcome::Send(command))
            },
            Err(error) => Err(error),
        },
        CliVerb::SetRadius => match session.read_value(&parse_radius) {
            Ok(radius) => {
                let command = session.radius_command(radius);
                session.finish_with(CliOutcome::Send(command))
            },
            Err(error) => Err(error),
        },
        CliVerb::Reload => session.finish_with(CliOutcome::Send(IpcCommand::Reload)),
        CliVerb::GetState => session.finish_with(CliOutcome::Send(IpcCommand::GetState)),
        CliVerb::Msg => match session.value() {
            Ok(text) => session.finish_with(CliOutcome::SendRaw(text)),
            Err(error) => Err(error),
        },
    }
}

impl CliSession {
    /// Ends the reading: `wanted`, unless something is left over.
    fn finish_with(self, wanted: CliOutcome) -> (outcome: Result<CliOutcome, CliError>)
        ensures
            finished(self@, wanted, outcome),
    {
        match self.finish() {
            Ok(_) => Ok(wanted),
            Err(error) => Err(error),
        }
    }

    /// The value that a command takes.
    fn read_value<T, P: Fn(String) -> Result<T, String>>(&mut self, parse: &P) -> (value: Result<
        T,
        CliError,
    >)
        requires
            forall|text: String| call_requires(*parse, (text,)),
        ensures
            reads_value(old(self)@, *parse, value),
            value is Ok ==> final(self)@ == old(self)@.drop_first(),
    {
        match self.value() {
            Ok(text) => make(parse, text),
            Err(error) => Err(error),
        }
    }

    fn read_color_command<C: Fn(String) -> Result<ColorBrushConfig, String>>(
        self,
        parse: &C,
    ) -> (outcome: Result<CliOutcome, CliError>)
        requires
            forall|text: String| call_requires(*parse, (text,)),
        ensures
            reads_color_command(self@, *parse, outcome),
    {
        let mut session = self;
        let value = session.active_color();
        let ghost between = session@;
        assert(option_taken(self@, "-a"@, "--active"@, between, value));
        let active = make_color(parse, value);
        assert(reads_color(self@, "-a"@, "--active"@, *parse, between, active));
        let active = match active {
            Ok(active) => active,
            Err(error) => return Err(error),
        };
        let value = session.inactive_color();
        assert(option_taken(between, "-i"@, "--inactive"@, session@, value));
        let inactive = make_color(parse, value);
        assert(reads_color(between, "-i"@, "--inactive"@, *parse, session@, inactive));
        let inactive = match inactive {
            Ok(inactive) => inactive,
            Err(error) => return Err(error),
        };
        match session.color_command(active, inactive) {
            Ok(command) => session.finish_with(CliOutcome::Send(command)),
            Err(error) => Err(error),
        }
    }
}

/// Makes a color of an option's text, where there is one.
fn make_color<C: Fn(String) -> Result<ColorBrushConfig, String>>(
    parse: &C,
    value: Result<Option<String>, CliError>,
) -> (color: Result<Option<ColorBrushConfig>, CliError>)
    requires
        forall|text: String| call_requires(*parse, (text,)),
    ensures
        color_made_of(*parse, value, color),
{
    match value {
        Err(error) => Err(error),
        Ok(None) => Ok(None),
        Ok(Some(text)) => {
            let made = make(parse, text);
            assert(made_of(*parse, text@, made));
            match made {
                Ok(color) => Ok(Some(color)),
                Err(error) => Err(error),
            }
        },
    }
}

/// Why a reply means that a command was not carried out.
#[derive(Debug, PartialEq, Eq)]
pub enum ResponseError {
    NotJson,
    Refused(String),
}

/// What a reply says: nothing where it reports success, otherwise the reason for the failure.
pub open spec fn refusal(reply: JsonTree) -> Option<Seq<char>> {
    if reply.member("ok"@).boolean() == Some(true) {
        None
    } else {
        match reply.member("error"@).text() {
            Some(reason) => Some(reason),
            None => Some("ipc command failed"@),
        }
    }
}

/// Looks at a reply that has been read.
pub fn check_response(reply: &Json) -> (checked: Result<(), ResponseError>)
    ensures
        match refusal(reply.tree()) {
            None => checked is Ok,
            Some(reason) => checked matches Err(ResponseError::Refused(given)) && given@ == reason,
        },
{
    let ok = match reply.get("ok") {
        Some(value) => value.as_bool(),
        None => None,
    };
    if let Some(ok) = ok {
        if ok {
            return Ok(());
        }
    }
    let reason: Option<&String> = match reply.get("error") {
        Some(value) => value.as_str(),
        None => None,
    };
    match reason {
        Some(reason) => Err(ResponseError::Refused(reason.clone())),
        None => Err(ResponseError::Refused("ipc command failed".to_owned())),
    }
}

/// Looks at the text of a reply.
pub fn validate_response(response: &str) -> (checked: Result<(), ResponseError>)
    ensures
        match crate::json::parsed_text(response@) {
            None => checked matches Err(ResponseError::NotJson),
            Some(reply) => match refusal(reply) {
                None => checked is Ok,
                Some(reason) => checked matches Err(ResponseError::Refused(given)) && given@
                    == reason,
            },
        },
{
    match parse_text(response) {
        Some(reply) => check_response(&reply),
        None => Err(ResponseError::NotJson),
    }
}

/// An argument that is there has a first position, and that is where it stands.
pub proof fn law_first_position_is_found(args: ArgList, text: Seq<char>)
    ensures
        match first_position(args, text) {
            Some(at) => {
                &&& 0 <= at < args.len()
                &&& args[at] == Some(text)
                &&& forall|i: int| 0 <= i < at ==> #[trigger] args[i] != Some(text)
            },
            None => !args.contains(Some(text)),
        },
    decreases args.len(),
{
    if args.len() > 0 && args[0] != Some(text) {
        let rest = args.drop_first();
        law_first_position_is_found(rest, text);
        match first_position(rest, text) {
            Some(at) => {
                assert forall|i: int| 0 <= i < at + 1 implies #[trigger] args[i] != Some(text) by {
                    if i > 0 {
                        assert(rest[i - 1] == args[i]);
                    }
                }
            },
            None => {
                if args.contains(Some(text)) {
                    let i = choose|i: int| 0 <= i < args.len() && args[i] == Some(text);
                    assert(rest[i - 1] == Some(text));
                }
            },
        }
    }
}

/// A help flag counts wherever it stands and whatever stands beside it.
pub proof fn law_help_flag_is_found_anywhere(args: ArgList, at: int)
    requires
        0 <= at < args.len(),
        args[at] == Some("-h"@) || args[at] == Some("--help"@),
    ensures
        flag_taken(args, "-h"@, "--help"@).1,
{
    law_first_position_is_found(args, "-h"@);
    law_first_position_is_found(args, "--help"@);
}

/// What the server has refused is what the client reports, in the server's own words; what the
/// server has done is reported as done. The client reads a document with the members of the reply.
pub proof fn law_refusals_reach_the_client(reply: IpcReply, document: JsonTree)
    requires
        crate::ipc::holds_members(document, crate::ipc::reply_tree(reply)),
    ensures
        refusal(document) == (match reply {
            IpcReply::Failed(error) => Some(error.reason()),
            _ => None,
        }),
{
    let members = crate::ipc::reply_tree(reply);
    assert(members[0].0 == "ok"@);
    if reply is Failed {
        assert(members[1].0 == "error"@);
    }
}

} // verus!
