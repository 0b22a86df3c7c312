use koshi_visual::client::Client;
use koshi_visual::command::{
    ClearSelectionArgs, CommandSource, CopyArgs, CopyTarget, GridPosition, Selection,
    SelectionKind, SetSelectionArgs, VisualCommand,
};
use koshi_visual::ids::{ClientId, CommandId, PaneId, PluginId, SessionId};
use koshi_visual::outcome::{CommandResult, Event, RejectReason, SelectionChanged};
use koshi_visual::server::{ClipboardWrite, Server};
use koshi_visual::text_view::{TextCell, TextRow, TextView};

const SESSION: SessionId = SessionId { value: 100 };
const OTHER_SESSION: SessionId = SessionId { value: 101 };
const CLIENT: ClientId = ClientId { value: 1 };
const OTHER_CLIENT: ClientId = ClientId { value: 2 };
const STRANGER: ClientId = ClientId { value: 3 };
const PANE: PaneId = PaneId { value: 10 };
const OTHER_PANE: PaneId = PaneId { value: 11 };
const GONE_PANE: PaneId = PaneId { value: 12 };
const COMMAND: CommandId = CommandId { value: 1000 };

/// The glyphs between the two ends of a highlight, rows joined by line breaks.
fn serialize(text_view: &TextView, selection: &Selection, should_trim: bool) -> String {
    let (first, last) = if selection.anchor.precedes(&selection.cursor) {
        (selection.anchor, selection.cursor)
    } else {
        (selection.cursor, selection.anchor)
    };
    let mut rows = Vec::new();
    for row_index in first.row_index..=last.row_index {
        let mut row = String::new();
        let start = if row_index == first.row_index { first.column_index } else { 0 };
        let end = if row_index == last.row_index {
            last.column_index
        } else {
            text_view.get_column_count() - 1
        };
        for column_index in start..=end {
            if let Some(cell) = text_view.get_cell(row_index, column_index) {
                row.push_str(&cell.text);
            }
        }
        rows.push(if should_trim { row.trim_end().to_string() } else { row });
    }
    rows.join("\n")
}

fn run(server: &mut Server, command_source: CommandSource, command: VisualCommand) -> CommandResult {
    server.dispatch_visual(COMMAND, &command_source, &command, &serialize)
}

fn key(client_id: ClientId) -> CommandSource {
    CommandSource::KeyBinding { client_id }
}

fn set(pane_id: PaneId, selection: Selection) -> VisualCommand {
    VisualCommand::SetSelection(SetSelectionArgs { pane_id, selection })
}

fn clear(pane_id: PaneId) -> VisualCommand {
    VisualCommand::ClearSelection(ClearSelectionArgs { pane_id })
}

fn copy(pane_id: PaneId, should_trim_trailing_whitespace: bool) -> VisualCommand {
    VisualCommand::Copy(CopyArgs {
        pane_id,
        should_trim_trailing_whitespace,
        clipboard_target: CopyTarget::Osc52,
    })
}

fn refused(reason: RejectReason) -> CommandResult {
    CommandResult::Rejected {
        command_id: COMMAND,
        reason,
        help: None,
    }
}

fn applied(client_id: ClientId, pane_id: PaneId, selection: Option<Selection>) -> CommandResult {
    CommandResult::Applied {
        command_id: COMMAND,
        emitted_events: vec![Event::SelectionChanged(SelectionChanged {
            client_id,
            pane_id,
            selection,
        })],
    }
}

fn client_of(server: &Server, client_id: ClientId) -> &Client {
    server.get_client(client_id).expect("client")
}

/// A session with two panes and two clients.
fn build_server() -> Server {
    let mut server = Server::new();
    server.insert_session(SESSION);
    server.register_pane(SESSION, PANE);
    server.register_pane(SESSION, OTHER_PANE);
    server.attach_client(SESSION, CLIENT);
    server.attach_client(SESSION, OTHER_CLIENT);
    server
}

/// A one-cell character highlight, for tests that care which pane a command
/// lands on rather than what it highlights.
fn build_test_selection() -> Selection {
    Selection {
        selection_kind: SelectionKind::Character,
        anchor: GridPosition {
            row_index: 0,
            column_index: 0,
        },
        cursor: GridPosition {
            row_index: 0,
            column_index: 1,
        },
    }
}

/// A pane `column_count` cells wide that shows `texts`, one row and one line
/// each, padded with blanks.
fn build_text_view(column_count: usize, texts: &[&str]) -> TextView {
    let rows = texts
        .iter()
        .enumerate()
        .map(|(row_index, text)| {
            let mut glyphs: Vec<char> = text.chars().collect();
            glyphs.resize(column_count, ' ');
            let is_same_word = |one: usize, other: usize| (glyphs[one] == ' ') == (glyphs[other] == ' ');
            let cells = (0..column_count)
                .map(|column_index| {
                    let mut start = column_index;
                    while start > 0 && is_same_word(start - 1, column_index) {
                        start -= 1;
                    }
                    let mut end = column_index;
                    while end + 1 < column_count && is_same_word(end + 1, column_index) {
                        end += 1;
                    }
                    TextCell {
                        text: glyphs[column_index].to_string(),
                        display_width: 1,
                        is_wide_wrap_spacer: false,
                        word_start: GridPosition { row_index, column_index: start },
                        word_end: GridPosition { row_index, column_index: end },
                    }
                })
                .collect();
            TextRow {
                cells,
                line_start_row_index: row_index,
                line_end_row_index: row_index,
            }
        })
        .collect();
    TextView::new(column_count, rows).expect("the rows are well formed")
}

fn highlight(
    selection_kind: SelectionKind,
    anchor: (usize, usize),
    cursor: (usize, usize),
) -> Selection {
    Selection {
        selection_kind,
        anchor: GridPosition {
            row_index: anchor.0,
            column_index: anchor.1,
        },
        cursor: GridPosition {
            row_index: cursor.0,
            column_index: cursor.1,
        },
    }
}

#[test]
fn selection_from_a_clientless_source_is_stale() {
    let mut server = Server::new();

    // A highlight belongs to the client that made it, so a source naming no
    // client has no highlight to touch, never another client's.
    assert_eq!(
        run(&mut server, CommandSource::Internal, clear(PANE)),
        refused(RejectReason::SourceClientStale)
    );
}

#[test]
fn a_highlight_command_names_its_own_pane_and_ignores_the_focused_one() {
    let mut server = Server::new();
    server.insert_session(SESSION);
    let focused_pane_id = PANE;
    let other_pane_id = OTHER_PANE;
    server.register_pane(SESSION, focused_pane_id);
    server.register_pane(SESSION, other_pane_id);
    server.attach_client(SESSION, CLIENT);

    let selection = build_test_selection();
    assert!(matches!(
        run(&mut server, key(CLIENT), set(other_pane_id, selection)),
        CommandResult::Applied { .. }
    ));

    let client = server.get_client_mut(CLIENT).expect("client");
    assert_eq!(
        client.get_selection(other_pane_id),
        Some(selection),
        "the named pane is highlighted"
    );
    assert_eq!(
        client.get_selection(focused_pane_id),
        None,
        "the focused pane is untouched"
    );
}

#[test]
fn a_highlight_command_for_a_pane_that_is_gone_is_rejected() {
    let mut server = Server::new();
    server.insert_session(SESSION);
    server.register_pane(SESSION, PANE);
    server.attach_client(SESSION, CLIENT);

    // A drag that raced the pane closing names a pane the session no longer has.
    assert_eq!(
        run(&mut server, key(CLIENT), set(GONE_PANE, build_test_selection())),
        refused(RejectReason::TargetGone)
    );
}

#[test]
fn clearing_a_pane_with_no_highlight_is_accepted_and_changes_nothing() {
    let mut server = Server::new();
    server.insert_session(SESSION);
    server.register_pane(SESSION, PANE);
    server.attach_client(SESSION, CLIENT);

    // The ways a highlight ends fire without first checking one was up, so
    // clearing nothing must not be an error.
    assert!(matches!(
        run(&mut server, key(CLIENT), clear(PANE)),
        CommandResult::Applied { .. }
    ));
    assert_eq!(
        server
            .get_client_mut(CLIENT)
            .expect("client")
            .get_selection(PANE),
        None
    );
}

#[test]
fn clearing_a_highlight_in_a_pane_the_session_lost_is_target_gone() {
    let mut server = Server::new();
    server.insert_session(SESSION);
    server.register_pane(SESSION, PANE);
    server.attach_client(SESSION, CLIENT);

    // Setting and clearing a highlight answer one pane the same way: a pane the
    // session does not hold is gone for both.
    assert_eq!(
        run(&mut server, key(CLIENT), clear(GONE_PANE)),
        refused(RejectReason::TargetGone)
    );
}

#[test]
fn copying_a_pane_with_no_highlight_writes_nothing_and_is_not_an_error() {
    // A plain click ends a gesture that highlighted nothing, so the copy it
    // dispatches finds nothing to copy. That is a no-op, not a rejection.
    let mut server = build_server();
    server.put_text_view(PANE, build_text_view(20, &["hello world"]));

    assert_eq!(
        run(
            &mut server,
            CommandSource::Mouse { client_id: CLIENT },
            VisualCommand::Copy(CopyArgs {
                pane_id: PANE,
                should_trim_trailing_whitespace: true,
                clipboard_target: CopyTarget::Osc52,
            })
        ),
        CommandResult::Applied {
            command_id: COMMAND,
            emitted_events: Vec::new(),
        }
    );
    assert_eq!(server.take_host_writes(CLIENT), None);
}

#[test]
fn only_the_client_that_issued_a_command_is_named_by_its_source() {
    let from_pane = |designated_client_id| CommandSource::InSessionCli {
        session_id: SESSION,
        designated_client_id,
        pane_id: PANE,
    };
    assert_eq!(key(CLIENT).find_issuing_client_id(), Some(CLIENT));
    assert_eq!(
        CommandSource::Mouse { client_id: CLIENT }.find_issuing_client_id(),
        Some(CLIENT)
    );
    assert_eq!(from_pane(Some(CLIENT)).find_issuing_client_id(), Some(CLIENT));

    let mut server = build_server();
    for clientless in [
        from_pane(None),
        CommandSource::ExternalCli {
            target_session_id: Some(SESSION),
            target_client_id: Some(CLIENT),
        },
        CommandSource::Plugin {
            plugin_id: PluginId { value: 7 },
        },
        CommandSource::Internal,
    ] {
        for command in [
            set(PANE, build_test_selection()),
            clear(PANE),
            copy(PANE, true),
        ] {
            let rejection = server
                .handle_visual(COMMAND, &clientless, &command, &serialize)
                .expect_err("no client issued it");
            assert_eq!(
                rejection.into_command_result(COMMAND),
                refused(RejectReason::SourceClientStale)
            );
        }
    }
    assert_eq!(server, build_server(), "a refused command changes nothing");
}

#[test]
fn refused_highlight_commands_answer_alike_and_change_nothing() {
    let mut server = build_server();
    server.detach_client(OTHER_CLIENT);
    let mut untouched = build_server();
    untouched.detach_client(OTHER_CLIENT);

    for (client_id, pane_id, reason) in [
        (STRANGER, PANE, RejectReason::SourceClientStale),
        (OTHER_CLIENT, PANE, RejectReason::SourceClientStale),
        (OTHER_CLIENT, GONE_PANE, RejectReason::SourceClientStale),
        (CLIENT, GONE_PANE, RejectReason::TargetGone),
    ] {
        for command in [
            set(pane_id, build_test_selection()),
            clear(pane_id),
            copy(pane_id, false),
        ] {
            assert_eq!(run(&mut server, key(client_id), command), refused(reason));
        }
    }
    assert_eq!(server, untouched);
}

#[test]
fn a_pane_of_another_session_is_gone_for_the_client() {
    let mut server = build_server();
    server.insert_session(OTHER_SESSION);
    server.attach_client(OTHER_SESSION, STRANGER);
    assert_eq!(
        run(&mut server, key(STRANGER), clear(PANE)),
        refused(RejectReason::TargetGone)
    );
}

#[test]
fn a_set_highlight_reads_back_and_touches_no_other() {
    let mut server = build_server();
    let first = highlight(SelectionKind::Block, (1, 2), (3, 4));
    let second = highlight(SelectionKind::Word, (5, 6), (0, 1));
    assert_eq!(
        run(&mut server, key(OTHER_CLIENT), set(PANE, first)),
        applied(OTHER_CLIENT, PANE, Some(first))
    );
    assert_eq!(
        run(&mut server, key(CLIENT), set(OTHER_PANE, first)),
        applied(CLIENT, OTHER_PANE, Some(first))
    );
    // With no terminal text there is nothing to grow onto.
    assert_eq!(
        run(&mut server, key(CLIENT), set(PANE, second)),
        applied(CLIENT, PANE, Some(second))
    );
    assert_eq!(client_of(&server, CLIENT).get_selection(PANE), Some(second));
    assert_eq!(client_of(&server, CLIENT).get_selection(OTHER_PANE), Some(first));
    assert_eq!(client_of(&server, OTHER_CLIENT).get_selection(PANE), Some(first));
    assert_eq!(client_of(&server, OTHER_CLIENT).get_selection(OTHER_PANE), None);

    // A new highlight takes the old one's place.
    run(&mut server, key(CLIENT), set(PANE, first));
    assert_eq!(client_of(&server, CLIENT).get_selection(PANE), Some(first));
}

#[test]
fn a_word_highlight_is_stored_grown_and_announced_grown() {
    let mut server = build_server();
    server.put_text_view(PANE, build_text_view(20, &["hello world"]));
    let grown = highlight(SelectionKind::Word, (0, 0), (0, 10));
    assert_eq!(
        run(
            &mut server,
            key(CLIENT),
            set(PANE, highlight(SelectionKind::Word, (0, 1), (0, 7)))
        ),
        applied(CLIENT, PANE, Some(grown))
    );
    assert_eq!(client_of(&server, CLIENT).get_selection(PANE), Some(grown));

    // A pane that lost its terminal grows nothing.
    let mut bare_server = build_server();
    bare_server.put_text_view(PANE, build_text_view(20, &["hello world"]));
    bare_server.remove_text_view(PANE);
    assert!(bare_server.get_text_view(PANE).is_none());
    let drag = highlight(SelectionKind::Word, (0, 1), (0, 7));
    assert_eq!(bare_server.snap_selection(PANE, drag), drag);
    assert_eq!(server.snap_selection(PANE, drag), grown);

    // Growing the stored pair again changes nothing.
    assert_eq!(
        run(&mut server, key(CLIENT), set(PANE, grown)),
        applied(CLIENT, PANE, Some(grown))
    );
    assert_eq!(client_of(&server, CLIENT).get_selection(PANE), Some(grown));
    assert_eq!(
        server.take_pending_events(),
        vec![
            Event::SelectionChanged(SelectionChanged {
                client_id: CLIENT,
                pane_id: PANE,
                selection: Some(grown),
            }),
            Event::SelectionChanged(SelectionChanged {
                client_id: CLIENT,
                pane_id: PANE,
                selection: Some(grown),
            }),
        ]
    );
    assert_eq!(server.take_pending_events(), Vec::new());
}

#[test]
fn a_highlight_holds_the_view_until_it_is_cleared() {
    let mut server = build_server();
    assert!(!client_of(&server, CLIENT).is_view_held(PANE));
    run(&mut server, key(CLIENT), set(PANE, build_test_selection()));
    assert!(client_of(&server, CLIENT).is_view_held(PANE));
    assert!(!client_of(&server, CLIENT).is_view_held(OTHER_PANE));
    assert!(!client_of(&server, OTHER_CLIENT).is_view_held(PANE));

    assert_eq!(
        run(&mut server, key(CLIENT), clear(PANE)),
        applied(CLIENT, PANE, None)
    );
    assert!(!client_of(&server, CLIENT).is_view_held(PANE));
}

#[test]
fn a_scrolled_view_stays_held_when_its_highlight_is_cleared() {
    let mut server = build_server();
    server
        .get_client_mut(CLIENT)
        .expect("client")
        .set_scroll_offset(PANE, 3);
    run(&mut server, key(CLIENT), set(PANE, build_test_selection()));
    run(&mut server, key(CLIENT), clear(PANE));
    assert_eq!(client_of(&server, CLIENT).get_selection(PANE), None);
    assert_eq!(client_of(&server, CLIENT).get_scroll_offset(PANE), 3);
    assert!(client_of(&server, CLIENT).is_view_held(PANE));
    assert_eq!(client_of(&server, CLIENT).get_scroll_offset(OTHER_PANE), 0);
}

#[test]
fn clearing_undoes_setting() {
    let mut server = build_server();
    run(&mut server, key(CLIENT), set(PANE, build_test_selection()));
    run(&mut server, key(CLIENT), clear(PANE));
    server.take_pending_events();
    assert_eq!(server, build_server());
}

#[test]
fn a_copy_sends_the_highlighted_text_and_leaves_the_highlight_standing() {
    let mut server = build_server();
    server.put_text_view(PANE, build_text_view(20, &["hello world", "again"]));
    let selection = highlight(SelectionKind::Line, (0, 3), (0, 4));
    let stored = highlight(SelectionKind::Line, (0, 0), (0, 19));
    run(&mut server, key(CLIENT), set(PANE, selection));
    server.take_pending_events();

    assert_eq!(
        run(&mut server, key(CLIENT), copy(PANE, true)),
        CommandResult::Applied {
            command_id: COMMAND,
            emitted_events: Vec::new(),
        }
    );
    run(
        &mut server,
        key(CLIENT),
        VisualCommand::Copy(CopyArgs {
            pane_id: PANE,
            should_trim_trailing_whitespace: false,
            clipboard_target: CopyTarget::HostClipboard(4),
        }),
    );
    assert_eq!(client_of(&server, CLIENT).get_selection(PANE), Some(stored));
    assert_eq!(server.take_pending_events(), Vec::new());
    assert_eq!(server.take_host_writes(OTHER_CLIENT), None);
    assert_eq!(
        server.take_host_writes(CLIENT),
        Some(vec![
            ClipboardWrite {
                client_id: CLIENT,
                clipboard_target: CopyTarget::Osc52,
                text: "hello world".to_string(),
            },
            ClipboardWrite {
                client_id: CLIENT,
                clipboard_target: CopyTarget::HostClipboard(4),
                text: "hello world         ".to_string(),
            },
        ])
    );
    assert_eq!(server.take_host_writes(CLIENT), None);
}

#[test]
fn a_copy_of_no_text_writes_nothing() {
    let mut server = build_server();
    let selection = build_test_selection();
    // A highlight over a pane with no terminal text.
    run(&mut server, key(CLIENT), set(OTHER_PANE, selection));
    run(&mut server, key(CLIENT), copy(OTHER_PANE, true));
    assert_eq!(server.take_host_writes(CLIENT), None);

    // A highlight over blanks only, trimmed away.
    server.put_text_view(PANE, build_text_view(20, &[""]));
    run(&mut server, key(CLIENT), set(PANE, selection));
    run(&mut server, key(CLIENT), copy(PANE, true));
    assert_eq!(server.take_host_writes(CLIENT), None);
    run(&mut server, key(CLIENT), copy(PANE, false));
    assert!(server.take_host_writes(CLIENT).is_some());
}

#[test]
fn host_writes_are_taken_for_one_client_in_order() {
    let mut server = build_server();
    for (client_id, text) in [
        (CLIENT, "one"),
        (OTHER_CLIENT, "two"),
        (CLIENT, "three"),
        (OTHER_CLIENT, ""),
    ] {
        let command_result =
            server.finish_copy(COMMAND, client_id, CopyTarget::Osc52, text.to_string());
        assert_eq!(
            command_result,
            CommandResult::Applied {
                command_id: COMMAND,
                emitted_events: Vec::new(),
            }
        );
    }
    let mut list_texts = |client_id| -> Vec<String> {
        server
            .take_host_writes(client_id)
            .unwrap_or_default()
            .into_iter()
            .map(|clipboard_write| clipboard_write.text)
            .collect()
    };
    assert_eq!(list_texts(CLIENT), ["one", "three"]);
    assert_eq!(list_texts(OTHER_CLIENT), ["two"]);
    assert_eq!(list_texts(OTHER_CLIENT), Vec::<String>::new());
}

#[test]
fn a_detached_client_takes_its_highlights_with_it() {
    let mut server = build_server();
    run(&mut server, key(CLIENT), set(PANE, build_test_selection()));
    // Attaching again while attached keeps the highlight.
    server.attach_client(SESSION, CLIENT);
    assert_eq!(
        client_of(&server, CLIENT).get_selection(PANE),
        Some(build_test_selection())
    );

    server.detach_client(CLIENT);
    assert!(server.get_client(CLIENT).is_none());
    assert_eq!(
        run(&mut server, key(CLIENT), clear(PANE)),
        refused(RejectReason::SourceClientStale)
    );
    server.attach_client(SESSION, CLIENT);
    assert_eq!(client_of(&server, CLIENT).get_selection(PANE), None);
    assert_eq!(client_of(&server, CLIENT).get_client_id(), CLIENT);
}

#[test]
fn a_client_that_moves_session_leaves_its_highlights_behind() {
    let mut server = build_server();
    run(&mut server, key(CLIENT), set(PANE, build_test_selection()));
    // A session the server does not run attaches no one.
    server.attach_client(OTHER_SESSION, CLIENT);
    server.register_pane(OTHER_SESSION, PANE);
    assert_eq!(client_of(&server, CLIENT).get_session_id(), SESSION);

    server.insert_session(OTHER_SESSION);
    server.attach_client(OTHER_SESSION, CLIENT);
    assert_eq!(client_of(&server, CLIENT).get_session_id(), OTHER_SESSION);
    assert_eq!(client_of(&server, CLIENT).get_selection(PANE), None);
    assert_eq!(
        run(&mut server, key(CLIENT), set(PANE, build_test_selection())),
        refused(RejectReason::TargetGone)
    );
}

#[test]
fn copy_cannot_be_issued_from_the_cli() {
    let mut server = Server::new();
    let command_source = CommandSource::InSessionCli {
        session_id: SESSION,
        designated_client_id: Some(CLIENT),
        pane_id: PANE,
    };
    assert_eq!(
        run(
            &mut server,
            command_source,
            VisualCommand::Copy(CopyArgs {
                pane_id: PANE,
                should_trim_trailing_whitespace: true,
                clipboard_target: CopyTarget::Osc52,
            })
        ),
        CommandResult::Rejected {
            command_id: COMMAND,
            reason: RejectReason::Unauthorized,
            help: Some("command cannot be issued from the CLI".to_string()),
        }
    );
}

#[test]
fn a_copy_refused_from_the_cli_reads_and_changes_no_state() {
    let build = || {
        let mut server = build_server();
        server.put_text_view(PANE, build_text_view(20, &["hello world"]));
        run(&mut server, key(CLIENT), set(PANE, build_test_selection()));
        server
    };
    let mut server = build();
    for command_source in [
        CommandSource::InSessionCli {
            session_id: SESSION,
            designated_client_id: Some(CLIENT),
            pane_id: PANE,
        },
        CommandSource::ExternalCli {
            target_session_id: None,
            target_client_id: None,
        },
    ] {
        assert!(command_source.is_from_cli());
        assert_eq!(
            run(&mut server, command_source, copy(PANE, true)),
            CommandResult::Rejected {
                command_id: COMMAND,
                reason: RejectReason::Unauthorized,
                help: Some("command cannot be issued from the CLI".to_string()),
            }
        );
    }
    assert_eq!(server, build());

    // A key press of the same client copies.
    assert!(!key(CLIENT).is_from_cli());
    run(&mut server, key(CLIENT), copy(PANE, true));
    assert!(server.take_host_writes(CLIENT).is_some());
}

#[test]
fn close_pane_clears_only_the_gone_panes_view_state() {
    let mut server = Server::new();
    server.insert_session(SESSION);
    let root_pane_id = PANE;
    let split_pane_id = OTHER_PANE;
    server.register_pane(SESSION, root_pane_id);
    server.register_pane(SESSION, split_pane_id);
    server.attach_client(SESSION, CLIENT);

    // Scroll both panes up, and highlight text in the one about to close.
    let scrolled = server.get_client_mut(CLIENT).expect("client");
    scrolled.set_scroll_offset(split_pane_id, 5);
    scrolled.set_scroll_offset(root_pane_id, 3);
    scrolled.set_selection(
        split_pane_id,
        highlight(SelectionKind::Character, (0, 0), (0, 4)),
    );

    server.remove_pane(SESSION, split_pane_id);

    // The closed pane's offset and highlight are dropped. The survivor's offset
    // is untouched.
    let client_after_close = client_of(&server, CLIENT);
    assert_eq!(client_after_close.get_scroll_offset(split_pane_id), 0);
    assert_eq!(client_after_close.get_selection(split_pane_id), None);
    assert!(!client_after_close.is_view_held(split_pane_id));
    assert_eq!(client_after_close.get_scroll_offset(root_pane_id), 3);
    assert!(client_after_close.is_view_held(root_pane_id));
}

#[test]
fn a_drag_that_raced_the_pane_closing_is_target_gone() {
    let mut server = build_server();
    server.put_text_view(PANE, build_text_view(20, &["hello world"]));
    server.put_text_view(OTHER_PANE, build_text_view(20, &["again"]));
    for client_id in [CLIENT, OTHER_CLIENT] {
        run(&mut server, key(client_id), set(PANE, build_test_selection()));
        run(&mut server, key(client_id), set(OTHER_PANE, build_test_selection()));
    }

    // A session that does not hold the pane loses nothing.
    server.insert_session(OTHER_SESSION);
    server.remove_pane(OTHER_SESSION, PANE);
    server.remove_pane(SESSION, GONE_PANE);
    assert!(server.get_text_view(PANE).is_some());
    assert!(client_of(&server, CLIENT).is_view_held(PANE));

    server.remove_pane(SESSION, PANE);
    assert!(server.get_text_view(PANE).is_none());
    assert!(server.get_text_view(OTHER_PANE).is_some());
    for client_id in [CLIENT, OTHER_CLIENT] {
        for command in [
            set(PANE, build_test_selection()),
            clear(PANE),
            copy(PANE, true),
        ] {
            assert_eq!(
                run(&mut server, key(client_id), command),
                refused(RejectReason::TargetGone)
            );
        }
        assert_eq!(client_of(&server, client_id).get_selection(PANE), None);
        assert_eq!(
            client_of(&server, client_id).get_selection(OTHER_PANE),
            Some(build_test_selection())
        );
        assert_eq!(
            run(&mut server, key(client_id), clear(OTHER_PANE)),
            applied(client_id, OTHER_PANE, None)
        );
    }
}

#[test]
fn a_copy_reads_the_same_text_however_far_the_view_is_scrolled() {
    let copied_at = |scroll_offset: Option<usize>| {
        let mut server = build_server();
        server.put_text_view(PANE, build_text_view(20, &["hello world", "again", "and on"]));
        run(
            &mut server,
            key(CLIENT),
            set(PANE, highlight(SelectionKind::Line, (2, 0), (0, 3))),
        );
        if let Some(scroll_offset) = scroll_offset {
            server
                .get_client_mut(CLIENT)
                .expect("client")
                .set_scroll_offset(PANE, scroll_offset);
        }
        run(&mut server, key(CLIENT), copy(PANE, true));
        server.take_host_writes(CLIENT).expect("text was copied")
    };
    let copied = copied_at(None);
    assert_eq!(copied.len(), 1);
    assert_eq!(copied[0].text, "hello world\nagain\nand on");
    assert_eq!(copied_at(Some(0)), copied);
    assert_eq!(copied_at(Some(2)), copied);
}

#[test]
fn a_visual_command_does_what_its_handler_does() {
    let build = || {
        let mut server = build_server();
        server.put_text_view(PANE, build_text_view(20, &["hello world"]));
        run(
            &mut server,
            key(CLIENT),
            set(PANE, highlight(SelectionKind::Word, (0, 7), (0, 8))),
        );
        server
    };
    for pane_id in [PANE, GONE_PANE] {
        let selection = highlight(SelectionKind::Word, (0, 1), (0, 2));
        let (mut routed, mut handled) = (build(), build());
        assert_eq!(
            routed.handle_visual(COMMAND, &key(CLIENT), &set(pane_id, selection), &serialize),
            handled.handle_set_selection(
                COMMAND,
                &key(CLIENT),
                &SetSelectionArgs { pane_id, selection }
            )
        );
        assert_eq!(routed, handled);

        let (mut routed, mut handled) = (build(), build());
        assert_eq!(
            routed.handle_visual(COMMAND, &key(CLIENT), &clear(pane_id), &serialize),
            handled.handle_clear_selection(COMMAND, &key(CLIENT), &ClearSelectionArgs { pane_id })
        );
        assert_eq!(routed, handled);

        let (mut routed, mut handled) = (build(), build());
        assert_eq!(
            routed.handle_visual(COMMAND, &key(CLIENT), &copy(pane_id, true), &serialize),
            handled.handle_copy(
                COMMAND,
                &key(CLIENT),
                &CopyArgs {
                    pane_id,
                    should_trim_trailing_whitespace: true,
                    clipboard_target: CopyTarget::Osc52,
                },
                &serialize
            )
        );
        assert_eq!(routed, handled);
        assert_eq!(routed.take_host_writes(CLIENT).is_some(), pane_id == PANE);
    }
}

#[test]
fn a_command_line_whose_session_is_unknown_is_not_found() {
    let mut server = build_server();
    // The session is looked up before the pane and the client it names.
    let command_source = CommandSource::InSessionCli {
        session_id: OTHER_SESSION,
        designated_client_id: Some(CLIENT),
        pane_id: PANE,
    };
    for command in [set(PANE, build_test_selection()), clear(PANE)] {
        assert_eq!(
            run(&mut server, command_source, command),
            refused(RejectReason::TargetNotFound)
        );
    }
    assert_eq!(server, build_server());
}

#[test]
fn a_command_line_whose_source_pane_is_gone_is_refused() {
    let gone = CommandResult::Rejected {
        command_id: COMMAND,
        reason: RejectReason::TargetGone,
        help: Some("source pane no longer exists".to_string()),
    };
    let from_pane = |session_id, designated_client_id, pane_id| CommandSource::InSessionCli {
        session_id,
        designated_client_id,
        pane_id,
    };
    let build = || {
        let mut server = build_server();
        server.insert_session(OTHER_SESSION);
        server
    };

    let mut server = build();
    for command_source in [
        from_pane(SESSION, Some(CLIENT), GONE_PANE),
        from_pane(SESSION, None, GONE_PANE),
        from_pane(SESSION, Some(STRANGER), GONE_PANE),
        // The pane lives in another session.
        from_pane(OTHER_SESSION, Some(CLIENT), PANE),
    ] {
        // Refused before the target is looked up, whether or not it is there.
        for pane_id in [PANE, GONE_PANE] {
            for command in [set(pane_id, build_test_selection()), clear(pane_id)] {
                assert_eq!(run(&mut server, command_source, command), gone);
            }
        }
    }
    assert_eq!(server, build());

    // From a pane that is still there the command runs.
    let command_source = from_pane(SESSION, Some(CLIENT), OTHER_PANE);
    assert!(server.validate_command(&command_source, &clear(PANE)).is_ok());
    assert_eq!(
        run(&mut server, command_source, set(PANE, build_test_selection())),
        applied(CLIENT, PANE, Some(build_test_selection()))
    );
    assert_eq!(
        run(&mut server, command_source, clear(GONE_PANE)),
        refused(RejectReason::TargetGone)
    );
    assert_eq!(
        run(&mut server, from_pane(SESSION, None, PANE), clear(PANE)),
        refused(RejectReason::SourceClientStale)
    );

    // Once the source pane closes, it is refused.
    server.remove_pane(SESSION, OTHER_PANE);
    assert_eq!(run(&mut server, command_source, clear(PANE)), gone);
}
