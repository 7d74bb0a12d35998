//! What commands from other processes set, what the borders are told of it, and what replies say.

use vstd::prelude::*;

use crate::border_registry::WindowIdentity;
use crate::config::{Config, Global, OffsetConfig, RadiusConfig};
use crate::ipc::{
    ClientAction, IpcCommand, IpcError, IpcReply, IpcSettings, IpcStep, MemberTree, MemberValue,
    ReadOutcome,
};
use crate::json::JsonTree;
use crate::runtime_model::{
    BorderCall, BorderRuntimeCommand, BorderRuntimeSnapshot, BorderRuntimeUpdate, BorderWindowEvent,
    RuntimeAction, RuntimeView,
};
use crate::runtime_requests::{
    BorderRuntimeHandle, GateEffect, GatesView, Posting, SnapshotError,
};

verus! {

/// Whether everything but the five settings that commands can change is the same.
pub open spec fn same_but_appearance(before: Config, after: Config) -> bool {
    after == Config {
        global: Global {
            active_color: after.global.active_color,
            inactive_color: after.global.inactive_color,
            border_width: after.global.border_width,
            border_offset: after.global.border_offset,
            border_radius: after.global.border_radius,
            ..before.global
        },
        ..before
    }
}

/// A command for all borders changes the setting that it names to the value that it brings, and no
/// other. One for the active window alone, a query, a reload and one that brings no color change
/// none.
pub proof fn law_commands_set_what_they_name(config: Config, command: IpcCommand)
    ensures
        ({
            let before = config.global;
            let after = crate::ipc::config_after(config, command).global;
            let focused = match command {
                IpcCommand::SetColor { focused, .. } => focused,
                IpcCommand::SetWidth { focused, .. } => focused,
                IpcCommand::SetOffset { focused, .. } => focused,
                IpcCommand::SetRadius { focused, .. } => focused,
                IpcCommand::Reload => true,
                IpcCommand::GetState => true,
            };
            &&& same_but_appearance(config, crate::ipc::config_after(config, command))
            &&& focused ==> crate::ipc::config_after(config, command) == config
            &&& command matches IpcCommand::SetWidth { width, focused } ==> !focused
                ==> after.border_width == width
            &&& command !is SetWidth ==> after.border_width == before.border_width
            &&& command matches IpcCommand::SetOffset { offset, focused } ==> !focused
                ==> after.border_offset == offset
            &&& command !is SetOffset ==> after.border_offset == before.border_offset
            &&& command matches IpcCommand::SetRadius { radius, focused } ==> !focused
                ==> after.border_radius == radius
            &&& command !is SetRadius ==> after.border_radius == before.border_radius
            &&& command matches IpcCommand::SetColor { active, inactive, focused } ==> !focused ==> {
                &&& active is Some ==> after.active_color == active->0
                &&& active is None ==> after.active_color == before.active_color
                &&& inactive is Some ==> after.inactive_color == inactive->0
                &&& inactive is None ==> after.inactive_color == before.inactive_color
            }
            &&& command !is SetColor ==> after.active_color == before.active_color
                && after.inactive_color == before.inactive_color
        }),
{
}

/// A command that changes borders is passed on to the runtime with what it brings, and with whether
/// it is for the active window alone. Without a runtime nothing is sent and success is reported all
/// the same. A reload is answered at once, a query shows the global settings, and colors that hold
/// no color are refused.
pub proof fn law_commands_are_passed_on_as_they_are(
    config: Config,
    handle: Option<BorderRuntimeHandle>,
    command: IpcCommand,
)
    ensures
        ({
            let step = crate::ipc::step_for(config, handle, command);
            let colorless = command matches IpcCommand::SetColor { active, inactive, .. } && active
                is None && inactive is None;
            &&& command is Reload ==> step == IpcStep::Reply(IpcReply::Done)
            &&& colorless ==> step == IpcStep::Reply(IpcReply::Failed(IpcError::NoColors))
            &&& command is GetState ==> {
                &&& step matches IpcStep::QueryState(settings)
                &&& settings.active_color == config.global.active_color
                &&& settings.inactive_color == config.global.inactive_color
                &&& settings.border_width == config.global.border_width
                &&& settings.border_offset == config.global.border_offset
                &&& settings.border_radius == config.global.border_radius
            }
            &&& command !is Reload && command !is GetState && !colorless ==> step is Update
            &&& step matches IpcStep::Update(posting) ==> {
                &&& posting is Some <==> handle is Some
                &&& posting matches Some(posting) ==> {
                    &&& posting.dispatcher_hwnd == handle->0.dispatcher_hwnd
                    &&& posting.command matches BorderRuntimeCommand::ApplyUpdate {
                        update,
                        focused_only,
                    }
                    &&& command matches IpcCommand::SetWidth { width, focused } ==> update
                        == BorderRuntimeUpdate::Width(width) && focused_only == focused
                    &&& command matches IpcCommand::SetOffset { offset, focused } ==> update
                        == BorderRuntimeUpdate::Offset(offset) && focused_only == focused
                    &&& command matches IpcCommand::SetRadius { radius, focused } ==> update
                        == BorderRuntimeUpdate::Radius(radius) && focused_only == focused
                    &&& command matches IpcCommand::SetColor { active, inactive, focused }
                        ==> update == (BorderRuntimeUpdate::Colors { active, inactive })
                        && focused_only == focused
                }
            }
        }),
{
}

/// Whether a border is told what a setting now is: the call carries the setting that the global
/// settings hold, and of two colors those that are told are.
pub open spec fn tells_setting(call: BorderCall, global: Global) -> bool {
    match call {
        BorderCall::ApplyWidth(width) => width == global.border_width,
        BorderCall::ApplyOffset(offset) => offset == global.border_offset,
        BorderCall::ApplyRadius(radius) => radius == global.border_radius,
        BorderCall::ApplyColors { active, inactive } => (active is Some ==> active->0
            == global.active_color) && (inactive is Some ==> inactive->0 == global.inactive_color),
        _ => false,
    }
}

/// What the borders that are there are told and what is kept for borders to come is the same: after
/// a command for all borders each border is told exactly what the global settings then hold, and
/// each registered border is told.
pub proof fn law_running_borders_are_told_the_settings(
    config: Config,
    handle: BorderRuntimeHandle,
    command: IpcCommand,
    posting: Posting,
    view: RuntimeView,
    live: Option<WindowIdentity>,
    now: u64,
    after: RuntimeView,
    actions: Seq<RuntimeAction>,
)
    requires
        crate::ipc::step_for(config, Some(handle), command) == IpcStep::Update(Some(posting)),
        crate::ipc::update_of(command) matches Some((_, focused)) && !focused,
        view.carries_out(posting.command, live, now, after, actions),
    ensures
        after == view,
        forall|i: int|
            0 <= i < actions.len() ==> (#[trigger] actions[i] matches RuntimeAction::Call {
                border,
                call,
            } && tells_setting(call, crate::ipc::config_after(config, command).global)),
        forall|key: isize| #[trigger]
            view.borders.contains_key(key) && view.registry.contains_key(key) ==> exists|i: int|
                0 <= i < actions.len() && (#[trigger] actions[i] matches RuntimeAction::Call {
                    border,
                    call,
                } && border == view.borders[key].border_window),
{
    law_commands_are_passed_on_as_they_are(config, Some(handle), command);
    law_commands_set_what_they_name(config, command);
    let (update, focused_only) = match posting.command {
        BorderRuntimeCommand::ApplyUpdate { update, focused_only } => (update, focused_only),
        _ => (BorderRuntimeUpdate::Radius(RadiusConfig::Auto), false),
    };
    crate::command_laws::law_updates_reach_borders_unchanged(
        view,
        update,
        focused_only,
        live,
        now,
        after,
        actions,
    );
    let call = match update {
        BorderRuntimeUpdate::Colors { active, inactive } => BorderCall::ApplyColors {
            active,
            inactive,
        },
        BorderRuntimeUpdate::Width(width) => BorderCall::ApplyWidth(width),
        BorderRuntimeUpdate::Offset(offset) => BorderCall::ApplyOffset(offset),
        BorderRuntimeUpdate::Radius(radius) => BorderCall::ApplyRadius(radius),
    };
    let concerned = Set::new(
        |key: isize|
            view.registry.contains_key(key) && view.borders.contains_key(key) && (focused_only
                ==> key == view.active_window),
    );
    assert(crate::command_laws::exactly_told(view.borders, concerned, call, actions));
    assert(tells_setting(call, crate::ipc::config_after(config, command).global));
    assert forall|key: isize| #[trigger] view.borders.contains_key(key)
        && view.registry.contains_key(key) implies exists|i: int|
        0 <= i < actions.len() && (#[trigger] actions[i] matches RuntimeAction::Call {
            border,
            call,
        } && border == view.borders[key].border_window) by {
        assert(concerned.contains(key));
        let told = RuntimeAction::Call { border: view.borders[key].border_window, call };
        let i = choose|i: int| 0 <= i < actions.len() && actions[i] == told;
        assert(actions[i] == told);
    }
}

/// The number that digits of base sixteen stand for.
pub open spec fn hex_value(text: Seq<char>) -> nat
    decreases text.len(),
{
    if text.len() == 0 {
        0
    } else {
        let last = text.last() as u32 as int;
        let digit = if '0' as u32 <= last <= '9' as u32 {
            last - '0' as u32
        } else {
            last - 'a' as u32 + 10
        };
        16 * hex_value(text.drop_last()) + digit as nat
    }
}

/// Digits of base sixteen read back as the number that they were made from, and do not start with a
/// zero unless they are that of zero.
pub proof fn law_hex_digits_read_back(value: nat)
    ensures
        hex_value(crate::ipc::hex_digits(value)) == value,
        crate::ipc::hex_digits(value).len() > 0,
        value > 0 ==> crate::ipc::hex_digits(value)[0] != '0',
        value == 0 ==> crate::ipc::hex_digits(value) == seq!['0'],
    decreases value,
{
    reveal_strlit("0123456789abcdef");
    let text = crate::ipc::hex_digits(value);
    let digit = "0123456789abcdef"@[(value % 16) as int];
    assert(text.last() == digit);
    let number = digit as u32 as int;
    assert((if '0' as u32 <= number <= '9' as u32 {
        number - '0' as u32
    } else {
        number - 'a' as u32 + 10
    }) == value % 16);
    if value < 16 {
        assert(text.drop_last() =~= Seq::empty());
        assert(value == value % 16);
        assert(hex_value(text.drop_last()) == 0);
    } else {
        law_hex_digits_read_back(value / 16);
        assert(text.drop_last() =~= crate::ipc::hex_digits(value / 16));
    }
}

/// The bits of a handle are those of the same number, modulo the size of a machine word, and no two
/// handles share them.
pub proof fn law_handle_bits_are_those_of_the_handle(handle: isize, other: isize)
    ensures
        crate::ipc::handle_bits(handle) <= usize::MAX,
        crate::ipc::handle_bits(handle) == handle || crate::ipc::handle_bits(handle) == handle
            + usize::MAX + 1,
        crate::ipc::handle_bits(handle) == crate::ipc::handle_bits(other) ==> handle == other,
{
}

/// Numbers in replies keep their value, as a signed and as an unsigned number, where they have one.
pub proof fn law_numbers_keep_their_value(value: i32, count: usize)
    ensures
        crate::ipc::integer_tree(value).signed() matches Some(shown) && shown == value,
        value >= 0 ==> (crate::ipc::integer_tree(value).unsigned() matches Some(shown) && shown
            == value),
        value < 0 ==> crate::ipc::integer_tree(value).unsigned() is None,
        crate::ipc::count_tree(count).unsigned() matches Some(shown) && shown == count,
        count <= i64::MAX ==> (crate::ipc::count_tree(count).signed() matches Some(shown) && shown
            == count),
{
}

/// An offset is shown as its one number, or side by side under the names of the sides.
pub proof fn law_offsets_are_shown_side_by_side(offset: OffsetConfig)
    ensures
        ({
            let tree = crate::ipc::offset_tree(offset);
            match offset {
                OffsetConfig::Uniform(value) => tree.signed() matches Some(shown) && shown == value,
                OffsetConfig::PerSide(sides) => {
                    &&& tree.member("top"@).signed() matches Some(top)
                    &&& tree.member("left"@).signed() matches Some(left)
                    &&& tree.member("right"@).signed() matches Some(right)
                    &&& tree.member("bottom"@).signed() matches Some(bottom)
                    &&& top == sides.top && left == sides.left && right == sides.right && bottom
                        == sides.bottom
                },
            }
        }),
{
    reveal_strlit("top");
    reveal_strlit("left");
    reveal_strlit("right");
    reveal_strlit("bottom");
    if let OffsetConfig::PerSide(sides) = offset {
        let entries = crate::ipc::offset_tree(offset)->Object_0;
        assert("top"@.len() == 3 && "left"@.len() == 4 && "right"@.len() == 5 && "bottom"@.len()
            == 6);
        assert(entries.len() == 4);
        crate::json::law_first_member_of_a_name_counts(entries, "top"@, 0);
        crate::json::law_first_member_of_a_name_counts(entries, "left"@, 1);
        crate::json::law_first_member_of_a_name_counts(entries, "right"@, 2);
        crate::json::law_first_member_of_a_name_counts(entries, "bottom"@, 3);
    }
}

/// A radius is shown so that it can be told from every other one: a custom one as its number, the
/// others by the name they have.
pub proof fn law_radii_are_told_apart(one: RadiusConfig, other: RadiusConfig)
    ensures
        crate::ipc::radius_tree(one) == crate::ipc::radius_tree(other) ==> one == other,
        one matches RadiusConfig::Custom(bits) ==> crate::ipc::radius_tree(one)
            == MemberTree::Fraction(bits),
        one is Auto ==> crate::ipc::radius_tree(one) == MemberTree::Document(JsonTree::Str("Auto"@)),
        one is Square ==> crate::ipc::radius_tree(one) == MemberTree::Document(
            JsonTree::Str("Square"@),
        ),
        one is Round ==> crate::ipc::radius_tree(one) == MemberTree::Document(
            JsonTree::Str("Round"@),
        ),
        one is RoundSmall ==> crate::ipc::radius_tree(one) == MemberTree::Document(
            JsonTree::Str("RoundSmall"@),
        ),
{
    reveal_strlit("Auto");
    reveal_strlit("Square");
    reveal_strlit("Round");
    reveal_strlit("RoundSmall");
    assert("Auto"@.len() == 4 && "Square"@.len() == 6 && "Round"@.len() == 5 && "RoundSmall"@.len()
        == 10);
}

/// Every reply says first whether the command succeeded: all but failures did. A failure says why,
/// in words that end with the cause where there is one.
pub proof fn law_replies_say_whether_it_worked(reply: IpcReply)
    ensures
        ({
            let members = crate::ipc::reply_tree(reply);
            &&& members.len() > 0
            &&& members[0] == ("ok"@, MemberTree::Document(JsonTree::Bool(reply !is Failed)))
            &&& reply is Done ==> members.len() == 1
            &&& reply matches IpcReply::Failed(error) ==> {
                &&& members.len() == 2
                &&& members[1] == ("error"@, MemberTree::Document(JsonTree::Str(error.reason())))
                &&& error matches IpcError::InvalidCommand(cause) ==> error.reason()
                    == "invalid command: "@ + cause@
                &&& error is NoColors ==> error.reason() == "no colors provided"@
                &&& error matches IpcError::RuntimeUnavailable(cause) ==> error.reason()
                    == "could not query border runtime: "@ + cause.reason()
            }
        }),
{
}

/// A state reply shows the active window, the number of borders and the five settings, each under
/// its own name and with its own value.
pub proof fn law_state_replies_show_the_state(
    snapshot: BorderRuntimeSnapshot,
    settings: IpcSettings,
)
    ensures
        ({
            let members = crate::ipc::reply_tree(IpcReply::State { snapshot, settings });
            &&& members.len() == 8
            &&& members[1].0 == "active_window"@
            &&& members[1].1 matches MemberTree::Document(JsonTree::Str(text)) && text.len() > 2
                && text.take(2) == "0x"@ && hex_value(text.skip(2)) == crate::ipc::handle_bits(
                snapshot.active_window,
            )
            &&& members[2].0 == "border_count"@
            &&& members[2].1 matches MemberTree::Document(tree) && tree.unsigned() == Some(
                snapshot.border_count as u64,
            )
            &&& members[3] == ("active_color"@, MemberTree::Verbatim(settings.active_color.text()@))
            &&& members[4] == (
                "inactive_color"@,
                MemberTree::Verbatim(settings.inactive_color.text()@),
            )
            &&& members[5] == ("border_width"@, MemberTree::Fraction(settings.border_width.width))
            &&& members[6] == (
                "border_offset"@,
                MemberTree::Document(crate::ipc::offset_tree(settings.border_offset)),
            )
            &&& members[7] == ("border_radius"@, crate::ipc::radius_tree(settings.border_radius))
        }),
{
    reveal_strlit("0x");
    let digits = crate::ipc::hex_digits(crate::ipc::handle_bits(snapshot.active_window));
    law_hex_digits_read_back(crate::ipc::handle_bits(snapshot.active_window));
    let text = "0x"@ + digits;
    assert(text.take(2) =~= "0x"@);
    assert(text.skip(2) =~= digits);
    let members = crate::ipc::reply_tree(IpcReply::State { snapshot, settings });
    assert(members[1] == ("active_window"@, MemberTree::Document(JsonTree::Str(text))));
}

/// What is sent to the runtime is the command itself, to the window that dispatches for it. Without
/// a runtime nothing is sent.
pub proof fn law_commands_go_to_the_dispatcher(
    handle: Option<BorderRuntimeHandle>,
    command: BorderRuntimeCommand,
)
    ensures
        ({
            let posting = crate::runtime_requests::posted(handle, command);
            &&& handle is None <==> posting is None
            &&& handle matches Some(handle) ==> (posting matches Some(posting)
                && posting.dispatcher_hwnd == handle.dispatcher_hwnd && posting.command == command)
        }),
{
}

/// An event other than a move always goes to the runtime, whatever the gates hold, and leaves them
/// as they are. A move goes through unless one of the same window is on its way; then its gate
/// closes, and that of no other window. The window and the event are sent as they are.
pub proof fn law_window_events_pass_the_gates(
    gates: GatesView,
    handle: BorderRuntimeHandle,
    identity: WindowIdentity,
    event: BorderWindowEvent,
)
    ensures
        ({
            let (after, posting) = gates.after_window_event(Some(handle), Some(identity), event);
            let held_back = event is LocationChange && gates.location.contains(identity);
            &&& posting is None <==> held_back
            &&& posting matches Some(posting) ==> posting.command == (
            BorderRuntimeCommand::WindowEvent { identity, event }) && posting.dispatcher_hwnd
                == handle.dispatcher_hwnd
            &&& event !is LocationChange || held_back ==> after == gates
            &&& event is LocationChange ==> after.location == gates.location.insert(identity)
            &&& after.reorder_pending == gates.reorder_pending
            &&& after.graphics_refresh == gates.graphics_refresh
        }),
        gates.after_window_event(Some(handle), None, event) == (gates, None::<Posting>),
        gates.after_window_event(None, Some(identity), event) == (gates, None::<Posting>),
{
    let (after, posting) = gates.after_window_event(Some(handle), Some(identity), event);
    if event is LocationChange && gates.location.contains(identity) {
        assert(gates.location.insert(identity) =~= gates.location);
    }
}

/// Of reorders one at a time is on its way: the next one goes through exactly once its gate has
/// opened again.
pub proof fn law_one_reorder_is_on_its_way(gates: GatesView, handle: BorderRuntimeHandle)
    ensures
        ({
            let (after, posting) = gates.after_reorder(Some(handle));
            &&& posting is None <==> gates.reorder_pending
            &&& posting matches Some(posting) ==> posting.command is Reorder
                && posting.dispatcher_hwnd == handle.dispatcher_hwnd
            &&& after.reorder_pending
            &&& after.location == gates.location && after.graphics_refresh == gates.graphics_refresh
            &&& after.after_reorder(Some(handle)) == (after, None::<Posting>)
            &&& after.after_action(RuntimeAction::ClearReorderPending).0.after_reorder(
                Some(handle),
            ).1 is Some
        }),
        gates.after_reorder(None).1 is None,
        gates.after_reorder(None).0 == gates,
{
}

/// A graphics refresh that is asked for while one is on its way is not sent, but not lost either:
/// once that one has begun and finished, it is asked for again; and where none was asked for
/// meanwhile, it is not. Idle, pending and dirty are told apart.
pub proof fn law_graphics_refreshes_are_not_lost(gates: GatesView, handle: BorderRuntimeHandle)
    requires
        gates.graphics_refresh == crate::graphics::GRAPHICS_REFRESH_IDLE,
    ensures
        ({
            let (asked, posting) = gates.after_refresh_request(Some(handle));
            let begun = asked.after_action(RuntimeAction::BeginGraphicsRefresh).0;
            let (again, second) = begun.after_refresh_request(Some(handle));
            let (third, third_posting) = again.after_refresh_request(Some(handle));
            &&& posting matches Some(posting) && posting.command is RefreshGraphics
            &&& asked.after_refresh_request(Some(handle)).1 is None
            &&& second is None
            &&& third_posting is None
            &&& begun.after_action(RuntimeAction::FinishGraphicsRefresh) == (gates, GateEffect::Done)
            &&& again.after_action(RuntimeAction::FinishGraphicsRefresh) == (
                gates,
                GateEffect::RefreshAgain,
            )
            &&& third.after_action(RuntimeAction::FinishGraphicsRefresh) == (
                gates,
                GateEffect::RefreshAgain,
            )
            &&& again.after_action(RuntimeAction::ResetGraphicsRefresh).0 == gates
        }),
        gates.after_refresh_request(None) == (gates, None::<Posting>),
{
}

/// Actions of the runtime open the gates that they name and touch no other; those that are not about
/// gates touch none.
pub proof fn law_actions_open_the_gates_they_name(gates: GatesView, action: RuntimeAction)
    ensures
        ({
            let (after, effect) = gates.after_action(action);
            &&& action matches RuntimeAction::ReleaseLocation(identity) ==> after.location
                == gates.location.remove(identity)
            &&& action is ClearLocationGate ==> after.location == Set::<WindowIdentity>::empty()
            &&& action !is ReleaseLocation && action !is ClearLocationGate ==> after.location
                == gates.location
            &&& action is ClearReorderPending ==> !after.reorder_pending
            &&& action !is ClearReorderPending ==> after.reorder_pending == gates.reorder_pending
            &&& action !is BeginGraphicsRefresh && action !is FinishGraphicsRefresh && action
                !is ResetGraphicsRefresh ==> after.graphics_refresh == gates.graphics_refresh
            &&& effect is NotAGate <==> action !is ReleaseLocation && action !is ClearLocationGate
                && action !is ClearReorderPending && action !is BeginGraphicsRefresh && action
                !is FinishGraphicsRefresh && action !is ResetGraphicsRefresh
            &&& effect is RefreshAgain ==> action is FinishGraphicsRefresh
        }),
        GatesView::open().location == Set::<WindowIdentity>::empty(),
        !GatesView::open().reorder_pending,
        GatesView::open().graphics_refresh == crate::graphics::GRAPHICS_REFRESH_IDLE,
{
}

/// A state query is answered with the state exactly where the runtime gave one, as it gave it; and
/// where it gave none, with the reason that it gave for that.
pub proof fn law_state_queries_are_answered(
    settings: IpcSettings,
    snapshot: Result<BorderRuntimeSnapshot, SnapshotError>,
)
    ensures
        snapshot matches Ok(given) ==> (crate::ipc::state_answer(settings, snapshot) matches IpcReply::State {
            snapshot: shown,
            settings: with,
        } && shown == given && with == settings),
        snapshot matches Err(error) ==> (crate::ipc::state_answer(settings, snapshot) matches IpcReply::Failed(
            IpcError::RuntimeUnavailable(told),
        ) && told == error),
{
}

/// A line with anything but white space in it is processed: without the white space around it, and
/// with all that is between. One without is passed over. The end of the stream ends the client, a
/// timeout tries again, and a failure is one.
pub proof fn law_lines_are_processed_trimmed(
    outcome: ReadOutcome,
    line: Seq<char>,
    action: ClientAction,
)
    requires
        crate::ipc::acts_on_read(outcome, line, action),
    ensures
        outcome is EndOfStream <==> action is Finish,
        outcome is TimedOut <==> action is Retry,
        outcome is Failed <==> action is Fail,
        outcome is Line ==> (action is Skip <==> forall|i: int|
            0 <= i < line.len() ==> crate::text::white_space(#[trigger] line[i])),
        outcome is Line ==> action is Skip || action is Process,
        action matches ClientAction::Process(command) ==> {
            &&& command@.len() > 0
            &&& !crate::text::white_space(command@[0])
            &&& !crate::text::white_space(command@.last())
            &&& exists|start: int, end: int|
                {
                    &&& 0 <= start <= end <= line.len()
                    &&& command@ == #[trigger] line.subrange(start, end)
                    &&& forall|i: int| 0 <= i < start ==> crate::text::white_space(#[trigger] line[i])
                    &&& forall|i: int|
                        end <= i < line.len() ==> crate::text::white_space(#[trigger] line[i])
                }
        },
{
    crate::text::law_trimming_takes_white_space_only(line);
    crate::text::law_trimming_is_done_once(line);
    let trimmed = crate::text::trimmed_end(crate::text::trimmed_start(line));
    let (start, end) = choose|start: int, end: int|
        {
            &&& 0 <= start <= end <= line.len()
            &&& trimmed == #[trigger] line.subrange(start, end)
            &&& forall|i: int| 0 <= i < start ==> crate::text::white_space(#[trigger] line[i])
            &&& forall|i: int|
                end <= i < line.len() ==> crate::text::white_space(#[trigger] line[i])
        };
    if outcome is Line && action is Skip {
        assert(start == end);
    }
}

/// A client is served exactly as long as nothing has stopped the server, and only with both timeouts
/// set; nothing is read once it is stopped.
pub proof fn law_stopped_servers_serve_nobody(one: bool, other: bool)
    ensures
        crate::ipc::action_after_accept(one, other) is Serve <==> one && !other,
        crate::ipc::action_after_accept(one, other) is Finish <==> !one || other,
        crate::ipc::start_with_timeouts(one, other) is StartWorker <==> one && other,
        crate::ipc::start_with_timeouts(one, other) is Forget <==> !one || !other,
        crate::ipc::action_before_read(true) is Finish,
        crate::ipc::action_before_read(false) is Read,
{
}

/// Members are sent one by one, in their order, each under its name and with what it holds.
pub proof fn law_members_keep_their_order(members: Seq<(String, MemberValue)>, i: int)
    requires
        0 <= i < members.len(),
    ensures
        crate::ipc::member_trees(members).len() == members.len(),
        crate::ipc::member_trees(members)[i].0 == members[i].0@,
        members[i].1 matches MemberValue::Document(document) ==> crate::ipc::member_trees(members)[i].1
            == MemberTree::Document(document.tree()),
        members[i].1 matches MemberValue::Verbatim(text) ==> crate::ipc::member_trees(members)[i].1
            == MemberTree::Verbatim(text@),
        members[i].1 matches MemberValue::Fraction(bits) ==> crate::ipc::member_trees(members)[i].1
            == MemberTree::Fraction(bits),
{
}

} // verus!
