use std::collections::HashMap;
use tacky_borders::json::{parse_slice, Json};
use tacky_borders::komorebi::{
    next_subscribe_action, KomorebiIntegration, NotificationError, NotificationField, SchemaError,
    SubscribeAction, SubscribeEvent, WindowKind,
};

fn parse(text: &str) -> Json {
    parse_slice(text.as_bytes()).expect("test notification should be valid json")
}

fn container(focused: usize, hwnds: &[isize]) -> String {
    let windows: Vec<String> = hwnds.iter().map(|h| format!("{{\"hwnd\":{h}}}")).collect();
    format!(
        "{{\"windows\":{{\"focused\":{focused},\"elements\":[{}]}}}}",
        windows.join(",")
    )
}

fn workspace(monocle: &str, focused: usize, containers: &[String], floating: &[isize]) -> String {
    let floating: Vec<String> = floating
        .iter()
        .map(|h| format!("{{\"hwnd\":{h}}}"))
        .collect();
    format!(
        "{{\"monocle_container\":{monocle},\"containers\":{{\"focused\":{focused},\"elements\":[{}]}},\
         \"floating_windows\":{{\"elements\":[{}]}}}}",
        containers.join(","),
        floating.join(",")
    )
}

fn monitor(focused: usize, workspaces: &[String]) -> String {
    format!(
        "{{\"workspaces\":{{\"focused\":{focused},\"elements\":[{}]}}}}",
        workspaces.join(",")
    )
}

fn notification(focused: usize, monitors: &[String]) -> String {
    format!(
        "{{\"state\":{{\"monitors\":{{\"focused\":{focused},\"elements\":[{}]}}}}}}",
        monitors.join(",")
    )
}

fn build(
    text: &str,
    previous: &HashMap<isize, WindowKind>,
    foreground: isize,
) -> Result<HashMap<isize, WindowKind>, SchemaError> {
    KomorebiIntegration::build_focus_state_from_notification(&parse(text), previous, foreground)
}

#[test]
fn malformed_komorebi_schema_is_rejected_without_mutating_previous_state() {
    let previous = HashMap::from([(0x1234isize, WindowKind::Single)]);
    let notification = parse_slice(br#"{"state":{"monitors":{"focused":0,"elements":[]}}}"#)
        .expect("test notification should be valid json");

    let result =
        KomorebiIntegration::build_focus_state_from_notification(&notification, &previous, 0);

    assert!(result.is_err());
    assert_eq!(previous.get(&0x1234), Some(&WindowKind::Single));
    assert_eq!(
        result,
        Err(SchemaError::OutOfBounds {
            field: NotificationField::FocusedMonitor,
            index: 0,
            count: 0
        })
    );
}

#[test]
fn kinds_depend_on_monitor_container_and_foreground() {
    let text = notification(
        0,
        &[
            monitor(
                0,
                &[workspace(
                    "null",
                    1,
                    &[container(0, &[11]), container(1, &[12, 13])],
                    &[14, 15],
                )],
            ),
            monitor(
                0,
                &[workspace("null", 0, &[container(0, &[21])], &[])],
            ),
        ],
    );
    let next = build(&text, &HashMap::new(), 13).unwrap();
    assert_eq!(next.len(), 5);
    assert_eq!(next[&11], WindowKind::Unfocused);
    assert_eq!(next[&13], WindowKind::Stack);
    assert_eq!(next[&14], WindowKind::Unfocused);
    assert_eq!(next[&15], WindowKind::Unfocused);
    assert_eq!(next[&21], WindowKind::Unfocused);

    let next = build(&text, &HashMap::new(), 15).unwrap();
    assert_eq!(next[&13], WindowKind::Unfocused);
    assert_eq!(next[&15], WindowKind::Floating);

    let next = build(&text, &HashMap::new(), 21).unwrap();
    assert_eq!(next[&21], WindowKind::Unfocused);
}

#[test]
fn lone_window_in_front_is_single() {
    let text = notification(
        0,
        &[monitor(
            0,
            &[workspace("null", 0, &[container(0, &[7])], &[])],
        )],
    );
    assert_eq!(
        build(&text, &HashMap::new(), 7).unwrap(),
        HashMap::from([(7, WindowKind::Single)])
    );
}

#[test]
fn monocle_counts_on_the_focused_monitor_only() {
    let monocle = container(0, &[31, 32]);
    let text = notification(
        1,
        &[
            monitor(0, &[workspace(&monocle, 0, &[], &[])]),
            monitor(
                0,
                &[workspace(&container(0, &[41]), 0, &[], &[])],
            ),
        ],
    );
    let next = build(&text, &HashMap::new(), 0).unwrap();
    assert_eq!(
        next,
        HashMap::from([(31, WindowKind::Unfocused), (41, WindowKind::Monocle)])
    );
}

#[test]
fn monitor_without_workspaces_is_passed_over() {
    let text = notification(0, &[monitor(9, &[])]);
    let previous = HashMap::from([(5, WindowKind::Stack)]);
    assert_eq!(build(&text, &previous, 0).unwrap(), previous);
}

#[test]
fn unnamed_windows_keep_their_kind() {
    let text = notification(
        0,
        &[monitor(
            0,
            &[workspace("null", 0, &[container(0, &[7])], &[])],
        )],
    );
    let previous = HashMap::from([(5, WindowKind::Stack), (7, WindowKind::Monocle)]);
    let next = build(&text, &previous, 0).unwrap();
    assert_eq!(next[&5], WindowKind::Stack);
    assert_eq!(next[&7], WindowKind::Unfocused);
    assert_eq!(build(&text, &next, 0).unwrap(), next);
}

#[test]
fn each_breach_of_the_schema_is_named() {
    let empty = HashMap::new();
    let not_array = |field| Err(SchemaError::NotAnArray(field));
    assert_eq!(
        build("{}", &empty, 0),
        not_array(NotificationField::Monitors)
    );
    assert_eq!(
        build("[]", &empty, 0),
        not_array(NotificationField::Monitors)
    );
    let good = workspace("null", 0, &[], &[]);
    assert_eq!(
        build(
            &format!(
                "{{\"state\":{{\"monitors\":{{\"focused\":-1,\"elements\":[{}]}}}}}}",
                monitor(0, &[good.clone()])
            ),
            &empty,
            0
        ),
        Err(SchemaError::NotUnsigned(NotificationField::FocusedMonitor))
    );
    assert_eq!(
        build(&notification(0, &["{}".to_string()]), &empty, 0),
        not_array(NotificationField::Workspaces)
    );
    assert_eq!(
        build(&notification(0, &[monitor(1, &[good.clone()])]), &empty, 0),
        Err(SchemaError::OutOfBounds {
            field: NotificationField::FocusedWorkspace,
            index: 1,
            count: 1
        })
    );
    let with_workspace = |workspace: String| notification(0, &[monitor(0, &[workspace])]);
    assert_eq!(
        build(
            &with_workspace(workspace("{}", 0, &[], &[])),
            &empty,
            0
        ),
        not_array(NotificationField::MonocleWindows)
    );
    assert_eq!(
        build(
            &with_workspace(workspace(&container(0, &[]), 0, &[], &[])),
            &empty,
            0
        ),
        Err(SchemaError::EmptyMonocle)
    );
    assert_eq!(
        build(
            &with_workspace(workspace(
                "{\"windows\":{\"elements\":[{\"hwnd\":\"x\"}]}}",
                0,
                &[],
                &[]
            )),
            &empty,
            0
        ),
        Err(SchemaError::NotSigned(NotificationField::MonocleHwnd))
    );
    assert_eq!(
        build(&with_workspace("{}".to_string()), &empty, 0),
        not_array(NotificationField::Containers)
    );
    assert_eq!(
        build(
            &with_workspace(workspace("null", 2, &[container(0, &[1])], &[])),
            &empty,
            0
        ),
        Err(SchemaError::OutOfBounds {
            field: NotificationField::FocusedContainer,
            index: 2,
            count: 1
        })
    );
    assert_eq!(
        build(
            &with_workspace(workspace("null", 0, &["{}".to_string()], &[])),
            &empty,
            0
        ),
        not_array(NotificationField::ContainerWindows)
    );
    assert_eq!(
        build(
            &with_workspace(workspace("null", 0, &[container(1, &[1])], &[])),
            &empty,
            0
        ),
        Err(SchemaError::OutOfBounds {
            field: NotificationField::FocusedWindow,
            index: 1,
            count: 1
        })
    );
    assert_eq!(
        build(
            &with_workspace(workspace(
                "null",
                0,
                &["{\"windows\":{\"focused\":0,\"elements\":[{}]}}".to_string()],
                &[]
            )),
            &empty,
            0
        ),
        Err(SchemaError::NotSigned(NotificationField::ContainerHwnd))
    );
    assert_eq!(
        build(
            &with_workspace(
                "{\"containers\":{\"elements\":[]},\"floating_windows\":{}}".to_string()
            ),
            &empty,
            0
        ),
        not_array(NotificationField::FloatingWindows)
    );
    assert_eq!(
        build(
            &with_workspace(
                "{\"containers\":{\"elements\":[]},\"floating_windows\":{\"elements\":[1.5]}}"
                    .to_string()
            ),
            &empty,
            0
        ),
        Err(SchemaError::NotSigned(NotificationField::FloatingHwnd))
    );
}

#[test]
fn numbers_are_read_as_index_or_handle() {
    let field = NotificationField::FocusedMonitor;
    assert_eq!(
        KomorebiIntegration::komorebi_index(Some(&parse("7")), field),
        Ok(7)
    );
    assert_eq!(
        KomorebiIntegration::komorebi_index(Some(&parse("-7")), field),
        Err(SchemaError::NotUnsigned(field))
    );
    assert_eq!(
        KomorebiIntegration::komorebi_index(None, field),
        Err(SchemaError::NotUnsigned(field))
    );
    assert_eq!(
        KomorebiIntegration::komorebi_hwnd(Some(&parse("-7")), field),
        Ok(-7)
    );
    assert_eq!(
        KomorebiIntegration::komorebi_hwnd(Some(&parse("18446744073709551615")), field),
        Err(SchemaError::NotSigned(field))
    );
}

#[test]
fn notification_recolors_exactly_what_looks_different() {
    let mut integration = KomorebiIntegration::new(0);
    integration.focus_state = HashMap::from([
        (5, WindowKind::Stack),
        (7, WindowKind::Single),
        (8, WindowKind::Monocle),
    ]);
    let text = notification(
        0,
        &[monitor(
            0,
            &[workspace(
                "null",
                0,
                &[container(0, &[9]), container(0, &[8]), container(0, &[7])],
                &[],
            )],
        )],
    );
    let mut buffer = text.clone().into_bytes();
    let length = buffer.len() as u32;
    buffer.extend_from_slice(b"leftover of an earlier, longer message");
    let changed = integration
        .process_komorebi_notification(&buffer, length, 9)
        .unwrap();
    // 7 went from single to unfocused, which needs no other color; 5 was not named.
    assert_eq!(changed, vec![8, 9]);
    assert_eq!(integration.focus_state[&5], WindowKind::Stack);
    assert_eq!(integration.focus_state[&9], WindowKind::Single);

    let again = integration
        .process_komorebi_notification(&buffer, length, 9)
        .unwrap();
    assert_eq!(again, Vec::<isize>::new());
}

#[test]
fn refused_notifications_leave_the_focus_state() {
    let mut integration = KomorebiIntegration::new(0);
    integration.focus_state = HashMap::from([(5, WindowKind::Stack)]);
    assert_eq!(
        integration.process_komorebi_notification(b"{}", 3, 0),
        Err(NotificationError::ExceedsBuffer)
    );
    assert_eq!(
        integration.process_komorebi_notification(b"{}", 1, 0),
        Err(NotificationError::NotJson)
    );
    assert_eq!(
        integration.process_komorebi_notification(b"{}", 2, 0),
        Err(NotificationError::Schema(SchemaError::NotAnArray(
            NotificationField::Monitors
        )))
    );
    assert_eq!(
        integration.focus_state,
        HashMap::from([(5, WindowKind::Stack)])
    );
}

#[test]
fn pruning_drops_windows_that_are_gone() {
    let mut integration = KomorebiIntegration::new(1_000);
    integration.focus_state = HashMap::from([
        (1, WindowKind::Single),
        (2, WindowKind::Stack),
        (3, WindowKind::Monocle),
    ]);
    let interval = 600_000_000_000u64;
    assert!(!integration.prune_due(1_000 + interval));
    assert!(integration.prune_due(1_001 + interval));
    assert!(!integration.prune_due(0));

    let mut known = integration.known_windows();
    known.sort();
    assert_eq!(known, vec![1, 2, 3]);
    integration.prune(&vec![3, 9], 5_000);
    assert_eq!(
        integration.focus_state,
        HashMap::from([(3, WindowKind::Monocle)])
    );
    assert_eq!(integration.last_prune_ns, 5_000);
}

#[test]
fn subscription_is_repeated_until_sent_or_stopped() {
    assert_eq!(
        next_subscribe_action(SubscribeEvent::Ready { stopped: false }),
        SubscribeAction::Send
    );
    assert_eq!(
        next_subscribe_action(SubscribeEvent::SendFailed),
        SubscribeAction::Pause {
            for_ns: 15_000_000_000
        }
    );
    assert_eq!(
        next_subscribe_action(SubscribeEvent::Ready { stopped: true }),
        SubscribeAction::Finish
    );
    assert_eq!(
        next_subscribe_action(SubscribeEvent::Sent),
        SubscribeAction::Finish
    );
}

#[test]
fn documents_are_read_as_they_stand() {
    let json = parse("{\"a\":[1,-2,2.5,\"x\\n\",true,null],\"a\":3}");
    let items = json.get("a").unwrap().as_array().unwrap();
    assert_eq!(items.len(), 6);
    assert_eq!(items[0].as_u64(), Some(1));
    assert_eq!(items[0].as_i64(), Some(1));
    assert_eq!(items[1].as_u64(), None);
    assert_eq!(items[1].as_i64(), Some(-2));
    assert_eq!(items[2].as_u64(), None);
    assert_eq!(items[2].as_i64(), None);
    assert_eq!(items[3].as_str().unwrap(), "x\n");
    assert_eq!(items[4].as_bool(), Some(true));
    assert!(items[5].is_null());
    assert!(json.get("b").is_none());
    assert!(items[0].get("a").is_none());
    assert!(json.as_array().is_none());
    assert!(parse_slice(b"{\"a\":}").is_none());
    assert!(parse_slice(b"").is_none());
}
