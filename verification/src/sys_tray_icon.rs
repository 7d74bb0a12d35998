//! The menu of the tray icon.

use vstd::prelude::*;

verus! {

/// What a menu entry does.
#[derive(Debug, Clone, Copy, PartialEq, Eq, Structural)]
pub enum TrayAction {
    ShowConfig,
    ToggleAutoStart,
    Reload,
    Close,
}

#[derive(Debug, PartialEq, Eq)]
pub struct MenuEntry {
    pub id: String,
    pub label: String,
    /// Whether the entry has a check mark, and whether it is set.
    pub checked: Option<bool>,
}

pub open spec fn action_for(id: Seq<char>) -> Option<TrayAction> {
    if id == "0"@ {
        Some(TrayAction::ShowConfig)
    } else if id == "1"@ {
        Some(TrayAction::ToggleAutoStart)
    } else if id == "2"@ {
        Some(TrayAction::Reload)
    } else if id == "3"@ {
        Some(TrayAction::Close)
    } else {
        None
    }
}

/// What the menu entry with this id does.
pub fn tray_action(id: &str) -> (action: Option<TrayAction>)
    ensures
        action == action_for(id@),
{
    let id = id.to_owned();
    if id == "0".to_owned() {
        Some(TrayAction::ShowConfig)
    } else if id == "1".to_owned() {
        Some(TrayAction::ToggleAutoStart)
    } else if id == "2".to_owned() {
        Some(TrayAction::Reload)
    } else if id == "3".to_owned() {
        Some(TrayAction::Close)
    } else {
        None
    }
}

/// The menu, from top to bottom: each entry with what it does.
pub fn menu_entries(auto_start: bool) -> (entries: Vec<MenuEntry>)
    ensures
        entries@.len() == 4,
        action_for(entries@[0].id@) == Some(TrayAction::ShowConfig),
        action_for(entries@[1].id@) == Some(TrayAction::ToggleAutoStart),
        action_for(entries@[2].id@) == Some(TrayAction::Reload),
        action_for(entries@[3].id@) == Some(TrayAction::Close),
        entries@[0].id@ == "0"@ && entries@[0].label@ == "Show Config"@,
        entries@[1].id@ == "1"@ && entries@[1].label@ == "Auto Start"@,
        entries@[2].id@ == "2"@ && entries@[2].label@ == "Reload"@,
        entries@[3].id@ == "3"@ && entries@[3].label@ == "Close"@,
        entries@[0].checked is None,
        entries@[1].checked == Some(auto_start),
        entries@[2].checked is None,
        entries@[3].checked is None,
{
    proof {
        reveal_strlit("0");
        reveal_strlit("1");
        reveal_strlit("2");
        reveal_strlit("3");
        assert("0"@[0] == '0' && "1"@[0] == '1' && "2"@[0] == '2' && "3"@[0] == '3');
    }
    let mut entries: Vec<MenuEntry> = Vec::new();
    entries.push(
        MenuEntry { id: "0".to_owned(), label: "Show Config".to_owned(), checked: None },
    );
    entries.push(
        MenuEntry {
            id: "1".to_owned(),
            label: "Auto Start".to_owned(),
            checked: Some(auto_start),
        },
    );
    entries.push(MenuEntry { id: "2".to_owned(), label: "Reload".to_owned(), checked: None });
    entries.push(MenuEntry { id: "3".to_owned(), label: "Close".to_owned(), checked: None });
    entries
}

/// A step of closing the program.
#[derive(Debug, Clone, Copy, PartialEq, Eq, Structural)]
pub enum CloseStep {
    UnhookEvents,
    /// Run the remaining steps on a thread of their own, so that the runtime can still answer those
    /// who wait for it. Where no thread can be started they run at once.
    Coordinate,
    JoinReloadWorker,
    StopServices,
    /// Let the runtime end the borders and the program.
    FinalizeShutdown,
}

/// What closing does at once. `first` says whether the program was not closing already.
pub fn close_steps(first: bool) -> (steps: Vec<CloseStep>)
    ensures
        steps@ == steps_at_once(first),
        steps@ == (if first {
            seq![CloseStep::UnhookEvents, CloseStep::Coordinate]
        } else {
            Seq::empty()
        }),
{
    let mut steps: Vec<CloseStep> = Vec::new();
    if first {
        steps.push(CloseStep::UnhookEvents);
        steps.push(CloseStep::Coordinate);
    }
    assert(steps@ =~= (if first {
        seq![CloseStep::UnhookEvents, CloseStep::Coordinate]
    } else {
        Seq::empty()
    }));
    steps
}

/// What closing does once no new work comes in. Services end after the worker that may restart
/// them, and the runtime ends last.
pub fn coordinated_steps() -> (steps: Vec<CloseStep>)
    ensures
        steps@ == steps_of_coordination(),
        steps@ == seq![
            CloseStep::JoinReloadWorker,
            CloseStep::StopServices,
            CloseStep::FinalizeShutdown,
        ],
{
    let mut steps: Vec<CloseStep> = Vec::new();
    steps.push(CloseStep::JoinReloadWorker);
    steps.push(CloseStep::StopServices);
    steps.push(CloseStep::FinalizeShutdown);
    assert(steps@ =~= seq![
        CloseStep::JoinReloadWorker,
        CloseStep::StopServices,
        CloseStep::FinalizeShutdown,
    ]);
    steps
}

/// Each action has exactly one menu entry, and no other text stands for any.
pub proof fn law_menu_entries_are_told_apart(one: Seq<char>, other: Seq<char>)
    ensures
        action_for(one) is Some && action_for(one) == action_for(other) ==> one == other,
        action_for(one) is Some ==> one.len() == 1,
        action_for(one) == Some(TrayAction::ShowConfig) <==> one == seq!['0'],
        action_for(one) == Some(TrayAction::ToggleAutoStart) <==> one == seq!['1'],
        action_for(one) == Some(TrayAction::Reload) <==> one == seq!['2'],
        action_for(one) == Some(TrayAction::Close) <==> one == seq!['3'],
{
    reveal_strlit("0");
    reveal_strlit("1");
    reveal_strlit("2");
    reveal_strlit("3");
    assert("0"@ =~= seq!['0'] && "1"@ =~= seq!['1'] && "2"@ =~= seq!['2'] && "3"@ =~= seq!['3']);
    assert(seq!['0'][0] == '0' && seq!['1'][0] == '1' && seq!['2'][0] == '2' && seq!['3'][0]
        == '3');
}

/// What closing does at once.
pub open spec fn steps_at_once(first: bool) -> Seq<CloseStep> {
    if first {
        seq![CloseStep::UnhookEvents, CloseStep::Coordinate]
    } else {
        Seq::empty()
    }
}

/// What closing does once no new work comes in.
pub open spec fn steps_of_coordination() -> Seq<CloseStep> {
    seq![CloseStep::JoinReloadWorker, CloseStep::StopServices, CloseStep::FinalizeShutdown]
}

/// Closing happens once. Events stop before anything else does, so that no new work comes in; the
/// worker that may restart services is waited for before they stop; and the runtime ends last, once.
pub proof fn law_closing_happens_once_and_in_order(first: bool)
    ensures
        !first ==> steps_at_once(first).len() == 0,
        first ==> steps_at_once(first)[0] is UnhookEvents && steps_at_once(first).last()
            is Coordinate && steps_at_once(first).len() == 2,
        ({
            let steps = steps_of_coordination();
            &&& steps.len() == 3
            &&& steps.no_duplicates()
            &&& steps.last() is FinalizeShutdown
            &&& forall|i: int, j: int|
                0 <= i < steps.len() && 0 <= j < steps.len() && #[trigger] steps[i]
                    is JoinReloadWorker && #[trigger] steps[j] is StopServices ==> i < j
            &&& steps.contains(CloseStep::JoinReloadWorker)
            &&& steps.contains(CloseStep::StopServices)
        }),
{
    let steps = steps_of_coordination();
    assert(steps[0] == CloseStep::JoinReloadWorker);
    assert(steps[1] == CloseStep::StopServices);
}

} // verus!
