//! Commands from other processes.

use vstd::prelude::*;
use vstd::string::{StrSliceExecFns, StringExecFns};

use crate::colors::ColorBrushConfig;
use crate::config::{Config, Global, OffsetConfig, RadiusConfig, WidthConfig};
use crate::float_bits::FloatBits;
use crate::json::{Json, JsonTree};
use crate::runtime_model::{BorderRuntimeSnapshot, BorderRuntimeUpdate};
use crate::runtime_requests::{
    request_apply_border_update, BorderRuntimeHandle, Posting, SnapshotError,
};
use crate::text::trim;

verus! {

/// Where the server listens, as path components: a socket in the directory of the configuration.
pub fn socket_path(config_dir: Option<Vec<String>>) -> (path: Option<Vec<String>>)
    ensures
        match config_dir {
            Some(dir) => {
                &&& path matches Some(path)
                &&& path@.len() == dir@.len() + 1
                &&& path@.drop_last() == dir@
                &&& path@.last()@ == "tacky-borders.sock"@
            },
            None => path is None,
        },
{
    match config_dir {
        Some(dir) => {
            let mut path = dir;
            path.push("tacky-borders.sock".to_owned());
            assert(path@.drop_last() =~= config_dir->0@);
            Some(path)
        },
        None => None,
    }
}

/// What another process can ask for. With `focused` only the border of the active window changes.
#[derive(Debug, PartialEq)]
pub enum IpcCommand {
    SetColor { active: Option<ColorBrushConfig>, inactive: Option<ColorBrushConfig>, focused: bool },
    SetWidth { width: WidthConfig, focused: bool },
    SetOffset { offset: OffsetConfig, focused: bool },
    SetRadius { radius: RadiusConfig, focused: bool },
    Reload,
    GetState,
}

#[derive(Debug, PartialEq)]
pub enum IpcError {
    InvalidCommand(String),
    NoColors,
    RuntimeUnavailable(SnapshotError),
}

impl IpcError {
    pub open spec fn reason(self) -> Seq<char> {
        match self {
            IpcError::InvalidCommand(cause) => "invalid command: "@ + cause@,
            IpcError::NoColors => "no colors provided"@,
            IpcError::RuntimeUnavailable(error) => "could not query border runtime: "@
                + error.reason(),
        }
    }

    /// The reason in words.
    pub fn message(&self) -> (message: String)
        ensures
            message@ == self.reason(),
    {
        match self {
            IpcError::InvalidCommand(cause) => "invalid command: ".to_owned().concat(cause.as_str()),
            IpcError::NoColors => "no colors provided".to_owned(),
            IpcError::RuntimeUnavailable(error) => "could not query border runtime: ".to_owned().concat(
                error.message().as_str(),
            ),
        }
    }
}

/// The global settings that a state reply shows.
#[derive(Debug, PartialEq)]
pub struct IpcSettings {
    pub active_color: ColorBrushConfig,
    pub inactive_color: ColorBrushConfig,
    pub border_width: WidthConfig,
    pub border_offset: OffsetConfig,
    pub border_radius: RadiusConfig,
}

#[derive(Debug, PartialEq)]
pub enum IpcReply {
    Done,
    Failed(IpcError),
    State { snapshot: BorderRuntimeSnapshot, settings: IpcSettings },
}

/// What a command comes to.
#[derive(Debug, PartialEq)]
pub enum IpcStep {
    Reply(IpcReply),
    /// Send this to the runtime, if there is one, and report success.
    Update(Option<Posting>),
    /// Ask the runtime for a snapshot and reply with it and these settings.
    QueryState(IpcSettings),
}

/// The settings of a configuration that a state reply shows.
pub open spec fn settings_of(config: Config) -> IpcSettings {
    IpcSettings {
        active_color: config.global.active_color,
        inactive_color: config.global.inactive_color,
        border_width: config.global.border_width,
        border_offset: config.global.border_offset,
        border_radius: config.global.border_radius,
    }
}

/// The change that a command makes to borders that are there already, if it makes one.
pub open spec fn update_of(command: IpcCommand) -> Option<(BorderRuntimeUpdate, bool)> {
    match command {
        IpcCommand::SetColor { active, inactive, focused } => if active is None && inactive
            is None {
            None
        } else {
            Some((BorderRuntimeUpdate::Colors { active, inactive }, focused))
        },
        IpcCommand::SetWidth { width, focused } => Some((BorderRuntimeUpdate::Width(width), focused)),
        IpcCommand::SetOffset { offset, focused } => Some(
            (BorderRuntimeUpdate::Offset(offset), focused),
        ),
        IpcCommand::SetRadius { radius, focused } => Some(
            (BorderRuntimeUpdate::Radius(radius), focused),
        ),
        _ => None,
    }
}

/// The global settings with an update, for borders that are still to come.
pub open spec fn updated(global: Global, update: BorderRuntimeUpdate) -> Global {
    match update {
        BorderRuntimeUpdate::Colors { active, inactive } => Global {
            active_color: match active {
                Some(color) => color,
                None => global.active_color,
            },
            inactive_color: match inactive {
                Some(color) => color,
                None => global.inactive_color,
            },
            ..global
        },
        BorderRuntimeUpdate::Width(width) => Global { border_width: width, ..global },
        BorderRuntimeUpdate::Offset(offset) => Global { border_offset: offset, ..global },
        BorderRuntimeUpdate::Radius(radius) => Global { border_radius: radius, ..global },
    }
}

/// The configuration in memory after a command. One that concerns only the active window leaves it
/// as it is.
pub open spec fn config_after(config: Config, command: IpcCommand) -> Config {
    match update_of(command) {
        Some((update, focused)) => if focused {
            config
        } else {
            Config { global: updated(config.global, update), ..config }
        },
        None => config,
    }
}

pub open spec fn step_for(
    config: Config,
    handle: Option<BorderRuntimeHandle>,
    command: IpcCommand,
) -> IpcStep {
    match update_of(command) {
        Some((update, focused_only)) => IpcStep::Update(
            crate::runtime_requests::posted(
                handle,
                crate::runtime_model::BorderRuntimeCommand::ApplyUpdate { update, focused_only },
            ),
        ),
        None => match command {
            IpcCommand::Reload => IpcStep::Reply(IpcReply::Done),
            IpcCommand::GetState => IpcStep::QueryState(settings_of(config)),
            _ => IpcStep::Reply(IpcReply::Failed(IpcError::NoColors)),
        },
    }
}

/// Carries out a command, or answers text that is none. A reload is only noted: it starts once the
/// answer has been written, because it may stop the server.
pub fn process_command(
    parsed: Result<IpcCommand, String>,
    config: &mut Config,
    handle: Option<BorderRuntimeHandle>,
    reload_after_write: &mut bool,
) -> (step: IpcStep)
    ensures
        match parsed {
            Err(message) => {
                &&& step == IpcStep::Reply(IpcReply::Failed(IpcError::InvalidCommand(message)))
                &&& *final(config) == *old(config)
                &&& *final(reload_after_write) == *old(reload_after_write)
            },
            Ok(command) => {
                &&& step == step_for(*old(config), handle, command)
                &&& *final(config) == config_after(*old(config), command)
                &&& *final(reload_after_write) == (*old(reload_after_write) || command
                    == IpcCommand::Reload)
            },
        },
{
    let command = match parsed {
        Ok(command) => command,
        Err(message) => return IpcStep::Reply(
            IpcReply::Failed(IpcError::InvalidCommand(message)),
        ),
    };
    match command {
        IpcCommand::SetColor { active, inactive, focused } => {
            if active.is_none() && inactive.is_none() {
                return IpcStep::Reply(IpcReply::Failed(IpcError::NoColors));
            }
            apply_colors(config, handle, active, inactive, focused)
        },
        IpcCommand::SetWidth { width, focused } => {
            if !focused {
                config.global.border_width = width;
            }
            IpcStep::Update(
                request_apply_border_update(handle, BorderRuntimeUpdate::Width(width), focused),
            )
        },
        IpcCommand::SetOffset { offset, focused } => {
            if !focused {
                config.global.border_offset = offset;
            }
            IpcStep::Update(
                request_apply_border_update(handle, BorderRuntimeUpdate::Offset(offset), focused),
            )
        },
        IpcCommand::SetRadius { radius, focused } => {
            if !focused {
                config.global.border_radius = radius;
            }
            IpcStep::Update(
                request_apply_border_update(handle, BorderRuntimeUpdate::Radius(radius), focused),
            )
        },
        IpcCommand::Reload => {
            *reload_after_write = true;
            IpcStep::Reply(IpcReply::Done)
        },
        IpcCommand::GetState => IpcStep::QueryState(
            IpcSettings {
                active_color: config.global.active_color.clone(),
                inactive_color: config.global.inactive_color.clone(),
                border_width: config.global.border_width,
                border_offset: config.global.border_offset,
                border_radius: config.global.border_radius,
            },
        ),
    }
}

fn apply_colors(
    config: &mut Config,
    handle: Option<BorderRuntimeHandle>,
    active: Option<ColorBrushConfig>,
    inactive: Option<ColorBrushConfig>,
    focused_only: bool,
) -> (step: IpcStep)
    ensures
        *final(config) == (if focused_only {
            *old(config)
        } else {
            Config {
                global: updated(
                    old(config).global,
                    BorderRuntimeUpdate::Colors { active, inactive },
                ),
                ..*old(config)
            }
        }),
        step == IpcStep::Update(
            crate::runtime_requests::posted(
                handle,
                crate::runtime_model::BorderRuntimeCommand::ApplyUpdate {
                    update: BorderRuntimeUpdate::Colors { active, inactive },
                    focused_only,
                },
            ),
        ),
{
    if !focused_only {
        if let Some(color) = &active {
            config.global.active_color = color.clone();
        }
        if let Some(color) = &inactive {
            config.global.inactive_color = color.clone();
        }
    }
    IpcStep::Update(
        request_apply_border_update(
            handle,
            BorderRuntimeUpdate::Colors { active, inactive },
            focused_only,
        ),
    )
}

/// What a state query is answered.
pub open spec fn state_answer(
    settings: IpcSettings,
    snapshot: Result<BorderRuntimeSnapshot, SnapshotError>,
) -> IpcReply {
    match snapshot {
        Ok(snapshot) => IpcReply::State { snapshot, settings },
        Err(error) => IpcReply::Failed(IpcError::RuntimeUnavailable(error)),
    }
}

/// The answer to a state query.
pub fn state_reply(
    settings: IpcSettings,
    snapshot: Result<BorderRuntimeSnapshot, SnapshotError>,
) -> (reply: IpcReply)
    ensures
        reply == state_answer(settings, snapshot),
        reply == (match snapshot {
            Ok(snapshot) => IpcReply::State { snapshot, settings },
            Err(error) => IpcReply::Failed(IpcError::RuntimeUnavailable(error)),
        }),
{
    match snapshot {
        Ok(snapshot) => IpcReply::State { snapshot, settings },
        Err(error) => IpcReply::Failed(IpcError::RuntimeUnavailable(error)),
    }
}

/// A number in base sixteen, without leading zeros.
pub open spec fn hex_digits(value: nat) -> Seq<char>
    decreases value,
{
    let digit = seq!["0123456789abcdef"@[(value % 16) as int]];
    if value < 16 {
        digit
    } else {
        hex_digits(value / 16) + digit
    }
}

fn digits(value: usize) -> (text: String)
    ensures
        text@ == hex_digits(value as nat),
    decreases value,
{
    let at: usize = value % 16;
    proof {
        reveal_strlit("0123456789abcdef");
    }
    let digit = "0123456789abcdef".substring_char(at, at + 1);
    assert(digit@ =~= seq!["0123456789abcdef"@[at as int]]);
    if value < 16 {
        digit.to_owned()
    } else {
        digits(value / 16).concat(digit)
    }
}

/// The bits of a handle as a number.
pub open spec fn handle_bits(handle: isize) -> nat {
    if handle >= 0 {
        handle as nat
    } else {
        (usize::MAX + 1 + handle) as nat
    }
}

/// A window handle as it is shown: its bits in base sixteen.
pub fn handle_text(handle: isize) -> (text: String)
    ensures
        text@ == "0x"@ + hex_digits(handle_bits(handle)),
{
    let bits: usize = if handle >= 0 {
        handle as usize
    } else {
        usize::MAX - (-1 - handle) as usize
    };
    "0x".to_owned().concat(digits(bits).as_str())
}

pub open spec fn count_tree(count: usize) -> JsonTree {
    JsonTree::Number {
        unsigned: Some(count as u64),
        signed: if count <= i64::MAX {
            Some(count as i64)
        } else {
            None
        },
    }
}

/// How a member of a reply is written down.
#[derive(Debug)]
pub enum MemberValue {
    Document(Json),
    /// Text that is a JSON document as it stands.
    Verbatim(String),
    /// The number that has these bits.
    Fraction(FloatBits),
}

/// What a written member says.
pub enum MemberTree {
    Document(JsonTree),
    Verbatim(Seq<char>),
    Fraction(FloatBits),
}

impl MemberValue {
    pub open spec fn tree(self) -> MemberTree {
        match self {
            MemberValue::Document(json) => MemberTree::Document(json.tree()),
            MemberValue::Verbatim(text) => MemberTree::Verbatim(text@),
            MemberValue::Fraction(bits) => MemberTree::Fraction(bits),
        }
    }
}

pub open spec fn integer_tree(value: i32) -> JsonTree {
    JsonTree::Number {
        unsigned: if value >= 0 {
            Some(value as u64)
        } else {
            None
        },
        signed: Some(value as i64),
    }
}

fn integer(value: i32) -> (json: Json)
    ensures
        json.tree() == integer_tree(value),
{
    Json::Number {
        unsigned: if value >= 0 {
            Some(value as u64)
        } else {
            None
        },
        signed: Some(value as i64),
    }
}

/// An offset is one number for all sides, or an object with a member for each.
pub open spec fn offset_tree(offset: OffsetConfig) -> JsonTree {
    match offset {
        OffsetConfig::Uniform(value) => integer_tree(value),
        OffsetConfig::PerSide(sides) => JsonTree::Object(
            seq![
                ("top"@, integer_tree(sides.top)),
                ("left"@, integer_tree(sides.left)),
                ("right"@, integer_tree(sides.right)),
                ("bottom"@, integer_tree(sides.bottom)),
            ],
        ),
    }
}

fn offset_document(offset: OffsetConfig) -> (document: Json)
    ensures
        document.tree() == offset_tree(offset),
{
    match offset {
        OffsetConfig::Uniform(value) => integer(value),
        OffsetConfig::PerSide(sides) => {
            let mut entries: Vec<(String, Json)> = Vec::new();
            entries.push(("top".to_owned(), integer(sides.top)));
            entries.push(("left".to_owned(), integer(sides.left)));
            entries.push(("right".to_owned(), integer(sides.right)));
            entries.push(("bottom".to_owned(), integer(sides.bottom)));
            let document = Json::Object(entries);
            assert(document.tree()->Object_0 =~= offset_tree(offset)->Object_0);
            document
        },
    }
}

/// A radius goes by its name. A custom one is a number.
pub open spec fn radius_tree(radius: RadiusConfig) -> MemberTree {
    match radius {
        RadiusConfig::Auto => MemberTree::Document(JsonTree::Str("Auto"@)),
        RadiusConfig::Square => MemberTree::Document(JsonTree::Str("Square"@)),
        RadiusConfig::Round => MemberTree::Document(JsonTree::Str("Round"@)),
        RadiusConfig::RoundSmall => MemberTree::Document(JsonTree::Str("RoundSmall"@)),
        RadiusConfig::Custom(bits) => MemberTree::Fraction(bits),
    }
}

fn radius_value(radius: RadiusConfig) -> (value: MemberValue)
    ensures
        value.tree() == radius_tree(radius),
{
    match radius {
        RadiusConfig::Auto => MemberValue::Document(Json::Str("Auto".to_owned())),
        RadiusConfig::Square => MemberValue::Document(Json::Str("Square".to_owned())),
        RadiusConfig::Round => MemberValue::Document(Json::Str("Round".to_owned())),
        RadiusConfig::RoundSmall => MemberValue::Document(Json::Str("RoundSmall".to_owned())),
        RadiusConfig::Custom(bits) => MemberValue::Fraction(bits),
    }
}

/// The members under which settings are shown, each with what it says.
pub open spec fn setting_trees(settings: IpcSettings) -> Seq<(Seq<char>, MemberTree)> {
    seq![
        ("active_color"@, MemberTree::Verbatim(settings.active_color.text()@)),
        ("inactive_color"@, MemberTree::Verbatim(settings.inactive_color.text()@)),
        ("border_width"@, MemberTree::Fraction(settings.border_width.width)),
        ("border_offset"@, MemberTree::Document(offset_tree(settings.border_offset))),
        ("border_radius"@, radius_tree(settings.border_radius)),
    ]
}

/// The members that a reply is sent with, in their order.
pub open spec fn reply_tree(reply: IpcReply) -> Seq<(Seq<char>, MemberTree)> {
    match reply {
        IpcReply::Done => seq![("ok"@, MemberTree::Document(JsonTree::Bool(true)))],
        IpcReply::Failed(error) => seq![
            ("ok"@, MemberTree::Document(JsonTree::Bool(false))),
            ("error"@, MemberTree::Document(JsonTree::Str(error.reason()))),
        ],
        IpcReply::State { snapshot, settings } => seq![
            ("ok"@, MemberTree::Document(JsonTree::Bool(true))),
            (
                "active_window"@,
                MemberTree::Document(
                    JsonTree::Str("0x"@ + hex_digits(handle_bits(snapshot.active_window))),
                ),
            ),
            ("border_count"@, MemberTree::Document(count_tree(snapshot.border_count))),
        ] + setting_trees(settings),
    }
}

pub open spec fn member_trees(members: Seq<(String, MemberValue)>) -> Seq<(Seq<char>, MemberTree)> {
    members.map_values(|member: (String, MemberValue)| (member.0@, member.1.tree()))
}

fn count_document(count: usize) -> (document: Json)
    ensures
        document.tree() == count_tree(count),
{
    let count: u64 = count as u64;
    Json::Number {
        unsigned: Some(count),
        signed: if count <= i64::MAX as u64 {
            Some(count as i64)
        } else {
            None
        },
    }
}

/// Adds a member that is a document.
fn push_document(members: &mut Vec<(String, MemberValue)>, name: &str, document: Json)
    ensures
        member_trees(final(members)@) == member_trees(old(members)@).push(
            (name@, MemberTree::Document(document.tree())),
        ),
{
    members.push((name.to_owned(), MemberValue::Document(document)));
    assert(member_trees(members@) =~= member_trees(old(members)@).push(
        (name@, MemberTree::Document(document.tree())),
    ));
}

fn push_settings(members: &mut Vec<(String, MemberValue)>, settings: &IpcSettings)
    ensures
        member_trees(final(members)@) == member_trees(old(members)@) + setting_trees(*settings),
{
    members.push(
        ("active_color".to_owned(), MemberValue::Verbatim(settings.active_color.to_text())),
    );
    members.push(
        ("inactive_color".to_owned(), MemberValue::Verbatim(settings.inactive_color.to_text())),
    );
    members.push(("border_width".to_owned(), MemberValue::Fraction(settings.border_width.width)));
    members.push(
        (
            "border_offset".to_owned(),
            MemberValue::Document(offset_document(settings.border_offset)),
        ),
    );
    members.push(("border_radius".to_owned(), radius_value(settings.border_radius)));
    assert(member_trees(members@) =~= member_trees(old(members)@) + setting_trees(*settings));
}

/// The members of the object that a reply is sent as.
pub fn reply_members(reply: &IpcReply) -> (members: Vec<(String, MemberValue)>)
    ensures
        member_trees(members@) == reply_tree(*reply),
{
    let mut members: Vec<(String, MemberValue)> = Vec::new();
    match reply {
        IpcReply::Done => push_document(&mut members, "ok", Json::Bool(true)),
        IpcReply::Failed(error) => {
            push_document(&mut members, "ok", Json::Bool(false));
            push_document(&mut members, "error", Json::Str(error.message()));
        },
        IpcReply::State { snapshot, settings } => {
            push_document(&mut members, "ok", Json::Bool(true));
            push_document(
                &mut members,
                "active_window",
                Json::Str(handle_text(snapshot.active_window)),
            );
            push_document(&mut members, "border_count", count_document(snapshot.border_count));
            push_settings(&mut members, settings);
        },
    }
    assert(member_trees(members@) =~= reply_tree(*reply));
    members
}

/// Whether a document is one that holds these members, in whatever order, and no others. What the
/// reader makes of text and numbers is left to it.
pub open spec fn holds_members(document: JsonTree, members: Seq<(Seq<char>, MemberTree)>) -> bool {
    &&& forall|i: int|
        0 <= i < members.len() ==> ((#[trigger] members[i]).1 matches MemberTree::Document(tree)
            ==> document.member(members[i].0) == tree)
    &&& forall|name: Seq<char>| #[trigger]
        document.has_member(name) ==> exists|i: int|
            0 <= i < members.len() && (#[trigger] members[i]).0 == name
}

/// A setting that was changed for all borders is the one that a state query shows next, under its
/// own name and with the others as they were; one that was changed for the active window alone does
/// not show.
pub proof fn law_state_shows_what_was_set(
    config: Config,
    width: WidthConfig,
    offset: OffsetConfig,
    radius: RadiusConfig,
    active: Option<ColorBrushConfig>,
    inactive: Option<ColorBrushConfig>,
    focused: bool,
)
    ensures
        ({
            let shown = |command: IpcCommand|
                setting_trees(settings_of(config_after(config, command)));
            let before = setting_trees(settings_of(config));
            &&& shown(IpcCommand::SetWidth { width, focused }) == (if focused {
                before
            } else {
                before.update(2, ("border_width"@, MemberTree::Fraction(width.width)))
            })
            &&& shown(IpcCommand::SetOffset { offset, focused }) == (if focused {
                before
            } else {
                before.update(3, ("border_offset"@, MemberTree::Document(offset_tree(offset))))
            })
            &&& shown(IpcCommand::SetRadius { radius, focused }) == (if focused {
                before
            } else {
                before.update(4, ("border_radius"@, radius_tree(radius)))
            })
            &&& shown(IpcCommand::SetColor { active, inactive, focused }) == (if focused {
                before
            } else {
                before.update(
                    0,
                    match active {
                        Some(color) => ("active_color"@, MemberTree::Verbatim(color.text()@)),
                        None => before[0],
                    },
                ).update(
                    1,
                    match inactive {
                        Some(color) => ("inactive_color"@, MemberTree::Verbatim(color.text()@)),
                        None => before[1],
                    },
                )
            })
        }),
{
}

/// How an attempt to read a line ended.
#[derive(Debug, Clone, Copy, PartialEq, Eq, Structural)]
pub enum ReadOutcome {
    EndOfStream,
    Line,
    /// Nothing more came in time. What came so far is kept.
    TimedOut,
    Failed,
}

/// What is done for a client next.
#[derive(Debug, PartialEq)]
pub enum ClientAction {
    Read,
    /// Start over, keeping what came so far of the line.
    Retry,
    /// Start over, forgetting the line.
    Skip,
    Process(String),
    Finish,
    Fail,
}

/// What is done before a client's next line is waited for.
pub open spec fn action_before_read(stopped: bool) -> ClientAction {
    if stopped {
        ClientAction::Finish
    } else {
        ClientAction::Read
    }
}

/// Whether this is what is done once a read has ended.
pub open spec fn acts_on_read(outcome: ReadOutcome, line: Seq<char>, action: ClientAction) -> bool {
    match outcome {
        ReadOutcome::EndOfStream => action == ClientAction::Finish,
        ReadOutcome::TimedOut => action == ClientAction::Retry,
        ReadOutcome::Failed => action == ClientAction::Fail,
        ReadOutcome::Line => {
            let trimmed = crate::text::trimmed_end(crate::text::trimmed_start(line));
            if trimmed.len() == 0 {
                action == ClientAction::Skip
            } else {
                action matches ClientAction::Process(command) && command@ == trimmed
            }
        },
    }
}

/// Before a client's next line is waited for.
pub fn before_read(stopped: bool) -> (action: ClientAction)
    ensures
        action == action_before_read(stopped),
        action == (if stopped {
            ClientAction::Finish
        } else {
            ClientAction::Read
        }),
{
    if stopped {
        ClientAction::Finish
    } else {
        ClientAction::Read
    }
}

/// Once a read has ended. A line that holds nothing but white space is skipped.
pub fn after_read(outcome: ReadOutcome, line: &str) -> (action: ClientAction)
    ensures
        acts_on_read(outcome, line@, action),
        match outcome {
            ReadOutcome::EndOfStream => action == ClientAction::Finish,
            ReadOutcome::TimedOut => action == ClientAction::Retry,
            ReadOutcome::Failed => action == ClientAction::Fail,
            ReadOutcome::Line => {
                let trimmed = crate::text::trimmed_end(crate::text::trimmed_start(line@));
                if trimmed.len() == 0 {
                    action == ClientAction::Skip
                } else {
                    action matches ClientAction::Process(command) && command@ == trimmed
                }
            },
        },
{
    match outcome {
        ReadOutcome::EndOfStream => ClientAction::Finish,
        ReadOutcome::TimedOut => ClientAction::Retry,
        ReadOutcome::Failed => ClientAction::Fail,
        ReadOutcome::Line => {
            let trimmed = trim(line);
            if trimmed.is_empty() {
                ClientAction::Skip
            } else {
                ClientAction::Process(trimmed.to_owned())
            }
        },
    }
}

/// What the server does next.
#[derive(Debug, Clone, Copy, PartialEq, Eq, Structural)]
pub enum ServerAction {
    /// Reap the workers that are done and serve the client that has connected.
    Serve,
    /// Stop the clients and wait for their workers.
    Finish,
}

/// What the server does once a client has connected, or waiting for one has failed.
pub open spec fn action_after_accept(accepted: bool, stopped: bool) -> ServerAction {
    if accepted && !stopped {
        ServerAction::Serve
    } else {
        ServerAction::Finish
    }
}

/// A client has connected, or waiting for one has failed. When the server is stopped, the client
/// is only there to wake it.
pub fn after_accept(accepted: bool, stopped: bool) -> (action: ServerAction)
    ensures
        action == action_after_accept(accepted, stopped),
        action == (if accepted && !stopped {
            ServerAction::Serve
        } else {
            ServerAction::Finish
        }),
{
    if accepted && !stopped {
        ServerAction::Serve
    } else {
        ServerAction::Finish
    }
}

/// How long a client may keep a worker waiting before it looks for the stop signal, in milliseconds.
pub const IPC_CLIENT_IO_TIMEOUT_MS: u64 = 250;

/// What becomes of a client once its timeouts have been set, or could not be.
#[derive(Debug, Clone, Copy, PartialEq, Eq, Structural)]
pub enum ClientStart {
    StartWorker,
    /// Forget the client and wait for the next one.
    Forget,
}

/// What becomes of a client whose timeouts were set, or were not.
pub open spec fn start_with_timeouts(read_timeout_set: bool, write_timeout_set: bool) -> ClientStart {
    if read_timeout_set && write_timeout_set {
        ClientStart::StartWorker
    } else {
        ClientStart::Forget
    }
}

/// A client without timeouts could keep its worker from ever stopping, so it is not served.
pub fn after_timeouts(read_timeout_set: bool, write_timeout_set: bool) -> (start: ClientStart)
    ensures
        start == start_with_timeouts(read_timeout_set, write_timeout_set),
        start == (if read_timeout_set && write_timeout_set {
            ClientStart::StartWorker
        } else {
            ClientStart::Forget
        }),
{
    if !read_timeout_set {
        return ClientStart::Forget;
    }
    if !write_timeout_set {
        return ClientStart::Forget;
    }
    ClientStart::StartWorker
}

/// A worker that serves one client.
#[derive(Debug, Clone, Copy, PartialEq, Eq, Structural)]
pub struct ClientWorker {
    pub id: u64,
    pub finished: bool,
}

/// Takes the workers that are done out of the list, for them to be waited for.
pub fn reap_client_workers(workers: &mut Vec<ClientWorker>) -> (reaped: Vec<ClientWorker>)
    ensures
        old(workers)@.to_multiset() == final(workers)@.to_multiset().add(reaped@.to_multiset()),
        forall|i: int| 0 <= i < final(workers)@.len() ==> !(#[trigger] final(workers)@[i]).finished,
        forall|i: int| 0 <= i < reaped@.len() ==> (#[trigger] reaped@[i]).finished,
{
    broadcast use vstd::seq_lib::group_to_multiset_ensures;

    let mut reaped: Vec<ClientWorker> = Vec::new();
    let mut index: usize = 0;
    let ghost all = workers@.to_multiset();
    assert(all =~= workers@.to_multiset().add(reaped@.to_multiset()));
    while index < workers.len()
        invariant
            index <= workers@.len(),
            all == old(workers)@.to_multiset(),
            all == workers@.to_multiset().add(reaped@.to_multiset()),
            forall|i: int| 0 <= i < index ==> !(#[trigger] workers@[i]).finished,
            forall|i: int| 0 <= i < reaped@.len() ==> (#[trigger] reaped@[i]).finished,
        decreases workers@.len() - index,
    {
        if workers[index].finished {
            let ghost before = workers@;
            let ghost reaped_before = reaped@;
            let worker = workers.swap_remove(index);
            reaped.push(worker);
            proof {
                broadcast use vstd::seq_lib::group_to_multiset_ensures;

                assert(reaped@ =~= reaped_before.push(worker));
                lemma_swap_remove(before, index as int);
                assert(workers@ =~= before.update(index as int, before.last()).drop_last());
                assert(reaped@.to_multiset() =~= reaped_before.to_multiset().insert(worker));
                assert(workers@.to_multiset().add(reaped@.to_multiset())
                    =~= before.to_multiset().add(reaped_before.to_multiset()));
            }
        } else {
            index += 1;
        }
    }
    reaped
}

proof fn lemma_swap_remove(workers: Seq<ClientWorker>, index: int)
    requires
        0 <= index < workers.len(),
    ensures
        workers.to_multiset() == workers.update(
            index,
            workers.last(),
        ).drop_last().to_multiset().insert(workers[index]),
{
    broadcast use vstd::seq_lib::group_to_multiset_ensures;

    let updated = workers.update(index, workers.last());
    let shorter = updated.drop_last();
    if index == workers.len() - 1 {
        assert(updated =~= workers);
        assert(workers =~= shorter.push(workers[index]));
    } else {
        let without_last = workers.drop_last();
        assert(workers =~= without_last.push(workers.last()));
        assert(shorter =~= without_last.update(index, workers.last()));
        assert(shorter.to_multiset() =~= without_last.to_multiset().remove(workers[index]).insert(
            workers.last(),
        ));
        assert(without_last.contains(workers[index])) by {
            assert(without_last[index] == workers[index]);
        }
        assert(workers.to_multiset() =~= shorter.to_multiset().insert(workers[index]));
    }
}

} // verus!
