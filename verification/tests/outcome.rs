use koshi_visual::ids::{ClientId, CommandId, PaneId};
use koshi_visual::outcome::{
    get_command_outcome, list_event_names, CommandResult, Event, RejectReason, Rejection,
    SelectionChanged,
};

#[test]
fn event_names_are_the_variant_names_in_order() {
    assert_eq!(
        list_event_names(&[Event::PaneCreated, Event::LayoutChanged]),
        ["PaneCreated", "LayoutChanged"]
    );
    assert_eq!(list_event_names(&[]), Vec::<&str>::new());
    assert_eq!(
        list_event_names(&[
            Event::InputModeChanged,
            Event::MouseSelectChanged,
            Event::PaneClosing,
            Event::PaneFocused,
            Event::PaneProcessExited,
            Event::PaneRemoved,
            Event::PtyResized,
            Event::Quit,
            Event::Restarting,
            Event::SelectionChanged(SelectionChanged {
                client_id: ClientId { value: 1 },
                pane_id: PaneId { value: 2 },
                selection: None,
            }),
            Event::TabClosed,
            Event::TabCreated,
            Event::TabFocused,
            Event::TabMoved,
        ]),
        [
            "InputModeChanged",
            "MouseSelectChanged",
            "PaneClosing",
            "PaneFocused",
            "PaneProcessExited",
            "PaneRemoved",
            "PtyResized",
            "Quit",
            "Restarting",
            "SelectionChanged",
            "TabClosed",
            "TabCreated",
            "TabFocused",
            "TabMoved",
        ]
    );
}

#[test]
fn an_outcome_leaves_the_command_id_out() {
    let applied = CommandResult::Applied {
        command_id: CommandId { value: 1 },
        emitted_events: vec![Event::PaneFocused, Event::TabFocused],
    };
    assert_eq!(
        get_command_outcome(&applied),
        Ok(vec!["PaneFocused", "TabFocused"])
    );

    let refused = Rejection::from_reason(RejectReason::TargetGone)
        .into_command_result(CommandId { value: 2 });
    assert_eq!(
        refused,
        CommandResult::Rejected {
            command_id: CommandId { value: 2 },
            reason: RejectReason::TargetGone,
            help: None,
        }
    );
    assert_eq!(
        get_command_outcome(&refused),
        Err((RejectReason::TargetGone, None))
    );

    let helped = CommandResult::Rejected {
        command_id: CommandId { value: 3 },
        reason: RejectReason::Unauthorized,
        help: Some("command cannot be issued from the CLI".to_string()),
    };
    assert_eq!(
        get_command_outcome(&helped),
        Err((
            RejectReason::Unauthorized,
            Some("command cannot be issued from the CLI")
        ))
    );
}
