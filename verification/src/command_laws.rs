//! What each highlight command answers and leaves behind, over what the server
//! held before it: its sessions, clients, pane texts and outboxes.

use vstd::prelude::*;

use crate::client::ClientModel;
use crate::command::{
    ClearSelectionArgs, CommandSource, CopyArgs, CopyTarget, Selection, SetSelectionArgs,
    VisualCommand,
};
use crate::ids::{ClientId, CommandId};
use crate::outcome::{CommandResult, Event, RejectReason, Rejection, SelectionChanged};
use crate::server::{ClipboardWriteModel, Server, ServerModel};
use crate::text_view::TextView;
use crate::visual::is_copied_text;

verus! {

/// Setting a highlight is refused as stale where its source names no attached
/// client, and as gone where the client's session does not hold the pane; then
/// nothing changes. Otherwise the issuer's highlight in the pane becomes the grown
/// drag, one event tells of it, and nothing else changes.
pub proof fn law_setting_stores_the_grown_drag_for_the_issuer(
    server: &mut Server,
    command_id: CommandId,
    command_source: &CommandSource,
    command_args: &SetSelectionArgs,
    server_before: &Server,
    stored: Selection,
    outcome: Result<CommandResult, Rejection>,
)
    requires
        server_before@ == old(server)@,
        call_ensures(
            Server::snap_selection,
            (server_before, command_args.pane_id, command_args.selection),
            stored,
        ),
        call_ensures(
            Server::handle_set_selection,
            (server, command_id, command_source, command_args),
            outcome,
        ),
    ensures
        ({
            let before = old(server)@;
            let after = final(server)@;
            let issuer = match *command_source {
                CommandSource::KeyBinding { client_id } => Some(client_id),
                CommandSource::Mouse { client_id } => Some(client_id),
                CommandSource::InSessionCli { designated_client_id, .. } => designated_client_id,
                CommandSource::ExternalCli { .. } => None,
                CommandSource::Plugin { .. } => None,
                CommandSource::Internal => None,
            };
            if issuer is None || !before.clients.contains_key(issuer->0.value) {
                &&& outcome == Err::<CommandResult, Rejection>(
                    Rejection { reason: RejectReason::SourceClientStale, help: None },
                )
                &&& after == before
            } else if !(before.sessions.contains_key(
                before.clients[issuer->0.value].session_id.value,
            ) && before.sessions[before.clients[issuer->0.value].session_id.value].contains(
                command_args.pane_id.value,
            )) {
                &&& outcome == Err::<CommandResult, Rejection>(
                    Rejection { reason: RejectReason::TargetGone, help: None },
                )
                &&& after == before
            } else {
                let client_id = issuer->0;
                let client = before.clients[client_id.value];
                let event = Event::SelectionChanged(
                    SelectionChanged {
                        client_id,
                        pane_id: command_args.pane_id,
                        selection: Some(stored),
                    },
                );
                &&& outcome matches Ok(
                    CommandResult::Applied { command_id: answered, emitted_events },
                ) && answered == command_id && emitted_events@ == seq![event]
                &&& after == (ServerModel {
                    clients: before.clients.insert(
                        client_id.value,
                        ClientModel {
                            selections: client.selections.insert(
                                command_args.pane_id.value,
                                stored,
                            ),
                            ..client
                        },
                    ),
                    pending_events: before.pending_events.push(event),
                    ..before
                })
            }
        }),
{
    let before = old(server)@;
    if let Some(client_id) = command_source.issuing_client_id() {
        assert(final(server)@.pending_events =~= before.pending_events || final(server)@.pending_events =~= before.pending_events.push(
            Event::SelectionChanged(
                SelectionChanged {
                    client_id,
                    pane_id: command_args.pane_id,
                    selection: Some(stored),
                },
            ),
        ));
    }
}

/// Clearing a highlight is refused as setting one is. Otherwise the issuer has no
/// highlight in the pane any more, one event tells of it, and nothing else
/// changes.
pub proof fn law_clearing_drops_the_highlight_of_the_issuer(
    server: &mut Server,
    command_id: CommandId,
    command_source: &CommandSource,
    command_args: &ClearSelectionArgs,
    outcome: Result<CommandResult, Rejection>,
)
    requires
        call_ensures(
            Server::handle_clear_selection,
            (server, command_id, command_source, command_args),
            outcome,
        ),
    ensures
        ({
            let before = old(server)@;
            let after = final(server)@;
            let issuer = match *command_source {
                CommandSource::KeyBinding { client_id } => Some(client_id),
                CommandSource::Mouse { client_id } => Some(client_id),
                CommandSource::InSessionCli { designated_client_id, .. } => designated_client_id,
                CommandSource::ExternalCli { .. } => None,
                CommandSource::Plugin { .. } => None,
                CommandSource::Internal => None,
            };
            if issuer is None || !before.clients.contains_key(issuer->0.value) {
                &&& outcome == Err::<CommandResult, Rejection>(
                    Rejection { reason: RejectReason::SourceClientStale, help: None },
                )
                &&& after == before
            } else if !(before.sessions.contains_key(
                before.clients[issuer->0.value].session_id.value,
            ) && before.sessions[before.clients[issuer->0.value].session_id.value].contains(
                command_args.pane_id.value,
            )) {
                &&& outcome == Err::<CommandResult, Rejection>(
                    Rejection { reason: RejectReason::TargetGone, help: None },
                )
                &&& after == before
            } else {
                let client_id = issuer->0;
                let client = before.clients[client_id.value];
                let event = Event::SelectionChanged(
                    SelectionChanged { client_id, pane_id: command_args.pane_id, selection: None },
                );
                &&& outcome matches Ok(
                    CommandResult::Applied { command_id: answered, emitted_events },
                ) && answered == command_id && emitted_events@ == seq![event]
                &&& after == (ServerModel {
                    clients: before.clients.insert(
                        client_id.value,
                        ClientModel {
                            selections: client.selections.remove(command_args.pane_id.value),
                            ..client
                        },
                    ),
                    pending_events: before.pending_events.push(event),
                    ..before
                })
            }
        }),
{
    let before = old(server)@;
    if let Some(client_id) = command_source.issuing_client_id() {
        assert(final(server)@.pending_events =~= before.pending_events || final(server)@.pending_events =~= before.pending_events.push(
            Event::SelectionChanged(
                SelectionChanged { client_id, pane_id: command_args.pane_id, selection: None },
            ),
        ));
    }
}

/// A copy is refused as setting a highlight is. Otherwise it is answered without
/// events. Where the issuer has a highlight in the pane, of whatever kind, and the
/// pane has text, one text that the serializer gives for that text, highlight and
/// flag goes to the clipboard the command names, unless it is empty. Nothing else
/// changes.
pub proof fn law_copying_writes_the_highlighted_text<
    F: Fn(&TextView, &Selection, bool) -> String,
>(
    server: &mut Server,
    command_id: CommandId,
    client_id: ClientId,
    command_source: &CommandSource,
    command_args: &CopyArgs,
    serialize_selection_text: &F,
    outcome: Result<CommandResult, Rejection>,
)
    requires
        match *command_source {
            CommandSource::KeyBinding { client_id: issuer } => issuer == client_id,
            CommandSource::Mouse { client_id: issuer } => issuer == client_id,
            CommandSource::InSessionCli { designated_client_id, .. } => designated_client_id
                == Some(client_id),
            _ => false,
        },
        call_ensures(
            Server::handle_copy::<F>,
            (server, command_id, command_source, command_args, serialize_selection_text),
            outcome,
        ),
    ensures
        ({
            let before = old(server)@;
            let after = final(server)@;
            if !before.clients.contains_key(client_id.value) {
                &&& outcome == Err::<CommandResult, Rejection>(
                    Rejection { reason: RejectReason::SourceClientStale, help: None },
                )
                &&& after == before
            } else if !(before.sessions.contains_key(
                before.clients[client_id.value].session_id.value,
            ) && before.sessions[before.clients[client_id.value].session_id.value].contains(
                command_args.pane_id.value,
            )) {
                &&& outcome == Err::<CommandResult, Rejection>(
                    Rejection { reason: RejectReason::TargetGone, help: None },
                )
                &&& after == before
            } else {
                let client = before.clients[client_id.value];
                &&& outcome matches Ok(
                    CommandResult::Applied { command_id: answered, emitted_events },
                ) && answered == command_id && emitted_events@ == Seq::<Event>::empty()
                &&& if client.selections.contains_key(command_args.pane_id.value)
                    && before.text_views.contains_key(command_args.pane_id.value) {
                    exists|text_view: TextView, text: String|
                        {
                            &&& text_view@ == before.text_views[command_args.pane_id.value]
                            &&& #[trigger] call_ensures(
                                *serialize_selection_text,
                                (
                                    &text_view,
                                    &client.selections[command_args.pane_id.value],
                                    command_args.should_trim_trailing_whitespace,
                                ),
                                text,
                            )
                            &&& text@.len() == 0 ==> after == before
                            &&& text@.len() > 0 ==> after == (ServerModel {
                                clipboard_writes: before.clipboard_writes.push(
                                    ClipboardWriteModel {
                                        client_id,
                                        clipboard_target: command_args.clipboard_target,
                                        text: text@,
                                    },
                                ),
                                ..before
                            })
                        }
                } else {
                    after == before
                }
            }
        }),
{
    let before = old(server)@;
    let after = final(server)@;
    if before.refusal(*command_source, command_args.pane_id) is None && before.has_text_to_copy(
        client_id,
        command_args.pane_id,
    ) {
        let written = choose|text: Seq<char>| #[trigger]
            is_copied_text(
                before,
                client_id,
                *command_args,
                *serialize_selection_text,
                text,
            ) && after == before.with_copied_text(
                client_id,
                command_args.clipboard_target,
                text,
            );
        assert(is_copied_text(
            before,
            client_id,
            *command_args,
            *serialize_selection_text,
            written,
        ));
    }
}

/// A visual command that sets a highlight sets it, as the handler for setting
/// does.
pub proof fn law_a_routed_set_stores_the_grown_drag_for_the_issuer<
    F: Fn(&TextView, &Selection, bool) -> String,
>(
    server: &mut Server,
    command_id: CommandId,
    command_source: &CommandSource,
    command_args: &SetSelectionArgs,
    serialize_selection_text: &F,
    server_before: &Server,
    stored: Selection,
    outcome: Result<CommandResult, Rejection>,
)
    requires
        server_before@ == old(server)@,
        call_ensures(
            Server::snap_selection,
            (server_before, command_args.pane_id, command_args.selection),
            stored,
        ),
        call_ensures(
            Server::handle_visual::<F>,
            (
                server,
                command_id,
                command_source,
                &VisualCommand::SetSelection(*command_args),
                serialize_selection_text,
            ),
            outcome,
        ),
    ensures
        ({
            let before = old(server)@;
            let after = final(server)@;
            let issuer = match *command_source {
                CommandSource::KeyBinding { client_id } => Some(client_id),
                CommandSource::Mouse { client_id } => Some(client_id),
                CommandSource::InSessionCli { designated_client_id, .. } => designated_client_id,
                CommandSource::ExternalCli { .. } => None,
                CommandSource::Plugin { .. } => None,
                CommandSource::Internal => None,
            };
            if issuer is None || !before.clients.contains_key(issuer->0.value) {
                &&& outcome == Err::<CommandResult, Rejection>(
                    Rejection { reason: RejectReason::SourceClientStale, help: None },
                )
                &&& after == before
            } else if !(before.sessions.contains_key(
                before.clients[issuer->0.value].session_id.value,
            ) && before.sessions[before.clients[issuer->0.value].session_id.value].contains(
                command_args.pane_id.value,
            )) {
                &&& outcome == Err::<CommandResult, Rejection>(
                    Rejection { reason: RejectReason::TargetGone, help: None },
                )
                &&& after == before
            } else {
                let client_id = issuer->0;
                let client = before.clients[client_id.value];
                let event = Event::SelectionChanged(
                    SelectionChanged {
                        client_id,
                        pane_id: command_args.pane_id,
                        selection: Some(stored),
                    },
                );
                &&& outcome matches Ok(
                    CommandResult::Applied { command_id: answered, emitted_events },
                ) && answered == command_id && emitted_events@ == seq![event]
                &&& after == (ServerModel {
                    clients: before.clients.insert(
                        client_id.value,
                        ClientModel {
                            selections: client.selections.insert(
                                command_args.pane_id.value,
                                stored,
                            ),
                            ..client
                        },
                    ),
                    pending_events: before.pending_events.push(event),
                    ..before
                })
            }
        }),
{
    let before = old(server)@;
    if let Some(client_id) = command_source.issuing_client_id() {
        assert(final(server)@.pending_events =~= before.pending_events || final(server)@.pending_events =~= before.pending_events.push(
            Event::SelectionChanged(
                SelectionChanged {
                    client_id,
                    pane_id: command_args.pane_id,
                    selection: Some(stored),
                },
            ),
        ));
    }
}

/// A visual command that clears a highlight clears it, as the handler for
/// clearing does.
pub proof fn law_a_routed_clear_drops_the_highlight_of_the_issuer<
    F: Fn(&TextView, &Selection, bool) -> String,
>(
    server: &mut Server,
    command_id: CommandId,
    command_source: &CommandSource,
    command_args: &ClearSelectionArgs,
    serialize_selection_text: &F,
    outcome: Result<CommandResult, Rejection>,
)
    requires
        call_ensures(
            Server::handle_visual::<F>,
            (
                server,
                command_id,
                command_source,
                &VisualCommand::ClearSelection(*command_args),
                serialize_selection_text,
            ),
            outcome,
        ),
    ensures
        ({
            let before = old(server)@;
            let after = final(server)@;
            let issuer = match *command_source {
                CommandSource::KeyBinding { client_id } => Some(client_id),
                CommandSource::Mouse { client_id } => Some(client_id),
                CommandSource::InSessionCli { designated_client_id, .. } => designated_client_id,
                CommandSource::ExternalCli { .. } => None,
                CommandSource::Plugin { .. } => None,
                CommandSource::Internal => None,
            };
            if issuer is None || !before.clients.contains_key(issuer->0.value) {
                &&& outcome == Err::<CommandResult, Rejection>(
                    Rejection { reason: RejectReason::SourceClientStale, help: None },
                )
                &&& after == before
            } else if !(before.sessions.contains_key(
                before.clients[issuer->0.value].session_id.value,
            ) && before.sessions[before.clients[issuer->0.value].session_id.value].contains(
                command_args.pane_id.value,
            )) {
                &&& outcome == Err::<CommandResult, Rejection>(
                    Rejection { reason: RejectReason::TargetGone, help: None },
                )
                &&& after == before
            } else {
                let client_id = issuer->0;
                let client = before.clients[client_id.value];
                let event = Event::SelectionChanged(
                    SelectionChanged { client_id, pane_id: command_args.pane_id, selection: None },
                );
                &&& outcome matches Ok(
                    CommandResult::Applied { command_id: answered, emitted_events },
                ) && answered == command_id && emitted_events@ == seq![event]
                &&& after == (ServerModel {
                    clients: before.clients.insert(
                        client_id.value,
                        ClientModel {
                            selections: client.selections.remove(command_args.pane_id.value),
                            ..client
                        },
                    ),
                    pending_events: before.pending_events.push(event),
                    ..before
                })
            }
        }),
{
    let before = old(server)@;
    if let Some(client_id) = command_source.issuing_client_id() {
        assert(final(server)@.pending_events =~= before.pending_events || final(server)@.pending_events =~= before.pending_events.push(
            Event::SelectionChanged(
                SelectionChanged {
                    client_id,
                    pane_id: command_args.pane_id,
                    selection: None,
                },
            ),
        ));
    }
}

/// A visual command that copies copies, as the handler for copying does.
pub proof fn law_a_routed_copy_writes_the_highlighted_text<
    F: Fn(&TextView, &Selection, bool) -> String,
>(
    server: &mut Server,
    command_id: CommandId,
    client_id: ClientId,
    command_source: &CommandSource,
    command_args: &CopyArgs,
    serialize_selection_text: &F,
    outcome: Result<CommandResult, Rejection>,
)
    requires
        match *command_source {
            CommandSource::KeyBinding { client_id: issuer } => issuer == client_id,
            CommandSource::Mouse { client_id: issuer } => issuer == client_id,
            CommandSource::InSessionCli { designated_client_id, .. } => designated_client_id
                == Some(client_id),
            _ => false,
        },
        call_ensures(
            Server::handle_visual::<F>,
            (
                server,
                command_id,
                command_source,
                &VisualCommand::Copy(*command_args),
                serialize_selection_text,
            ),
            outcome,
        ),
    ensures
        ({
            let before = old(server)@;
            let after = final(server)@;
            if !before.clients.contains_key(client_id.value) {
                &&& outcome == Err::<CommandResult, Rejection>(
                    Rejection { reason: RejectReason::SourceClientStale, help: None },
                )
                &&& after == before
            } else if !(before.sessions.contains_key(
                before.clients[client_id.value].session_id.value,
            ) && before.sessions[before.clients[client_id.value].session_id.value].contains(
                command_args.pane_id.value,
            )) {
                &&& outcome == Err::<CommandResult, Rejection>(
                    Rejection { reason: RejectReason::TargetGone, help: None },
                )
                &&& after == before
            } else {
                let client = before.clients[client_id.value];
                &&& outcome matches Ok(
                    CommandResult::Applied { command_id: answered, emitted_events },
                ) && answered == command_id && emitted_events@ == Seq::<Event>::empty()
                &&& if client.selections.contains_key(command_args.pane_id.value)
                    && before.text_views.contains_key(command_args.pane_id.value) {
                    exists|text_view: TextView, text: String|
                        {
                            &&& text_view@ == before.text_views[command_args.pane_id.value]
                            &&& #[trigger] call_ensures(
                                *serialize_selection_text,
                                (
                                    &text_view,
                                    &client.selections[command_args.pane_id.value],
                                    command_args.should_trim_trailing_whitespace,
                                ),
                                text,
                            )
                            &&& text@.len() == 0 ==> after == before
                            &&& text@.len() > 0 ==> after == (ServerModel {
                                clipboard_writes: before.clipboard_writes.push(
                                    ClipboardWriteModel {
                                        client_id,
                                        clipboard_target: command_args.clipboard_target,
                                        text: text@,
                                    },
                                ),
                                ..before
                            })
                        }
                } else {
                    after == before
                }
            }
        }),
{
    let before = old(server)@;
    let after = final(server)@;
    if before.refusal(*command_source, command_args.pane_id) is None && before.has_text_to_copy(
        client_id,
        command_args.pane_id,
    ) {
        let written = choose|text: Seq<char>| #[trigger]
            is_copied_text(
                before,
                client_id,
                *command_args,
                *serialize_selection_text,
                text,
            ) && after == before.with_copied_text(
                client_id,
                command_args.clipboard_target,
                text,
            );
        assert(is_copied_text(
            before,
            client_id,
            *command_args,
            *serialize_selection_text,
            written,
        ));
    }
}

/// A dispatched command that sets a highlight sets it, unless it came from a
/// command line whose session or pane is gone.
pub proof fn law_a_dispatched_set_stores_the_grown_drag_for_the_issuer<
    F: Fn(&TextView, &Selection, bool) -> String,
>(
    server: &mut Server,
    command_id: CommandId,
    command_source: &CommandSource,
    command_args: &SetSelectionArgs,
    serialize_selection_text: &F,
    server_before: &Server,
    stored: Selection,
    answer: CommandResult,
)
    requires
        *command_source matches CommandSource::InSessionCli { session_id, pane_id, .. } ==> old(server)@.sessions.contains_key(session_id.value) && old(server)@.sessions[session_id.value].contains(pane_id.value),
        server_before@ == old(server)@,
        call_ensures(
            Server::snap_selection,
            (server_before, command_args.pane_id, command_args.selection),
            stored,
        ),
        call_ensures(
            Server::dispatch_visual::<F>,
            (
                server,
                command_id,
                command_source,
                &VisualCommand::SetSelection(*command_args),
                serialize_selection_text,
            ),
            answer,
        ),
    ensures
        ({
            let before = old(server)@;
            let after = final(server)@;
            let issuer = match *command_source {
                CommandSource::KeyBinding { client_id } => Some(client_id),
                CommandSource::Mouse { client_id } => Some(client_id),
                CommandSource::InSessionCli { designated_client_id, .. } => designated_client_id,
                CommandSource::ExternalCli { .. } => None,
                CommandSource::Plugin { .. } => None,
                CommandSource::Internal => None,
            };
            if issuer is None || !before.clients.contains_key(issuer->0.value) {
                &&& answer == (CommandResult::Rejected {
                    command_id,
                    reason: RejectReason::SourceClientStale,
                    help: None,
                })
                &&& after == before
            } else if !(before.sessions.contains_key(
                before.clients[issuer->0.value].session_id.value,
            ) && before.sessions[before.clients[issuer->0.value].session_id.value].contains(
                command_args.pane_id.value,
            )) {
                &&& answer == (CommandResult::Rejected {
                    command_id,
                    reason: RejectReason::TargetGone,
                    help: None,
                })
                &&& after == before
            } else {
                let client_id = issuer->0;
                let client = before.clients[client_id.value];
                let event = Event::SelectionChanged(
                    SelectionChanged {
                        client_id,
                        pane_id: command_args.pane_id,
                        selection: Some(stored),
                    },
                );
                &&& answer matches CommandResult::Applied { command_id: answered, emitted_events }
                    && answered == command_id && emitted_events@ == seq![event]
                &&& after == (ServerModel {
                    clients: before.clients.insert(
                        client_id.value,
                        ClientModel {
                            selections: client.selections.insert(
                                command_args.pane_id.value,
                                stored,
                            ),
                            ..client
                        },
                    ),
                    pending_events: before.pending_events.push(event),
                    ..before
                })
            }
        }),
{
    let before = old(server)@;
    if let Some(client_id) = command_source.issuing_client_id() {
        assert(final(server)@.pending_events =~= before.pending_events || final(server)@.pending_events =~= before.pending_events.push(
            Event::SelectionChanged(
                SelectionChanged {
                    client_id,
                    pane_id: command_args.pane_id,
                    selection: Some(stored),
                },
            ),
        ));
    }
}

/// A dispatched command that clears a highlight clears it, unless it came from a
/// command line whose session or pane is gone.
pub proof fn law_a_dispatched_clear_drops_the_highlight_of_the_issuer<
    F: Fn(&TextView, &Selection, bool) -> String,
>(
    server: &mut Server,
    command_id: CommandId,
    command_source: &CommandSource,
    command_args: &ClearSelectionArgs,
    serialize_selection_text: &F,
    answer: CommandResult,
)
    requires
        *command_source matches CommandSource::InSessionCli { session_id, pane_id, .. } ==> old(server)@.sessions.contains_key(session_id.value) && old(server)@.sessions[session_id.value].contains(pane_id.value),
        call_ensures(
            Server::dispatch_visual::<F>,
            (
                server,
                command_id,
                command_source,
                &VisualCommand::ClearSelection(*command_args),
                serialize_selection_text,
            ),
            answer,
        ),
    ensures
        ({
            let before = old(server)@;
            let after = final(server)@;
            let issuer = match *command_source {
                CommandSource::KeyBinding { client_id } => Some(client_id),
                CommandSource::Mouse { client_id } => Some(client_id),
                CommandSource::InSessionCli { designated_client_id, .. } => designated_client_id,
                CommandSource::ExternalCli { .. } => None,
                CommandSource::Plugin { .. } => None,
                CommandSource::Internal => None,
            };
            if issuer is None || !before.clients.contains_key(issuer->0.value) {
                &&& answer == (CommandResult::Rejected {
                    command_id,
                    reason: RejectReason::SourceClientStale,
                    help: None,
                })
                &&& after == before
            } else if !(before.sessions.contains_key(
                before.clients[issuer->0.value].session_id.value,
            ) && before.sessions[before.clients[issuer->0.value].session_id.value].contains(
                command_args.pane_id.value,
            )) {
                &&& answer == (CommandResult::Rejected {
                    command_id,
                    reason: RejectReason::TargetGone,
                    help: None,
                })
                &&& after == before
            } else {
                let client_id = issuer->0;
                let client = before.clients[client_id.value];
                let event = Event::SelectionChanged(
                    SelectionChanged { client_id, pane_id: command_args.pane_id, selection: None },
                );
                &&& answer matches CommandResult::Applied { command_id: answered, emitted_events }
                    && answered == command_id && emitted_events@ == seq![event]
                &&& after == (ServerModel {
                    clients: before.clients.insert(
                        client_id.value,
                        ClientModel {
                            selections: client.selections.remove(command_args.pane_id.value),
                            ..client
                        },
                    ),
                    pending_events: before.pending_events.push(event),
                    ..before
                })
            }
        }),
{
    let before = old(server)@;
    if let Some(client_id) = command_source.issuing_client_id() {
        assert(final(server)@.pending_events =~= before.pending_events || final(server)@.pending_events =~= before.pending_events.push(
            Event::SelectionChanged(
                SelectionChanged {
                    client_id,
                    pane_id: command_args.pane_id,
                    selection: None,
                },
            ),
        ));
    }
}

/// A dispatched copy from a client's keys or mouse copies.
pub proof fn law_a_dispatched_copy_writes_the_highlighted_text<
    F: Fn(&TextView, &Selection, bool) -> String,
>(
    server: &mut Server,
    command_id: CommandId,
    client_id: ClientId,
    command_source: &CommandSource,
    command_args: &CopyArgs,
    serialize_selection_text: &F,
    answer: CommandResult,
)
    requires
        *command_source == (CommandSource::KeyBinding { client_id }) || *command_source == (
        CommandSource::Mouse { client_id }),
        call_ensures(
            Server::dispatch_visual::<F>,
            (
                server,
                command_id,
                command_source,
                &VisualCommand::Copy(*command_args),
                serialize_selection_text,
            ),
            answer,
        ),
    ensures
        ({
            let before = old(server)@;
            let after = final(server)@;
            if !before.clients.contains_key(client_id.value) {
                &&& answer == (CommandResult::Rejected {
                    command_id,
                    reason: RejectReason::SourceClientStale,
                    help: None,
                })
                &&& after == before
            } else if !(before.sessions.contains_key(
                before.clients[client_id.value].session_id.value,
            ) && before.sessions[before.clients[client_id.value].session_id.value].contains(
                command_args.pane_id.value,
            )) {
                &&& answer == (CommandResult::Rejected {
                    command_id,
                    reason: RejectReason::TargetGone,
                    help: None,
                })
                &&& after == before
            } else {
                let client = before.clients[client_id.value];
                &&& answer matches CommandResult::Applied { command_id: answered, emitted_events }
                    && answered == command_id && emitted_events@ == Seq::<Event>::empty()
                &&& if client.selections.contains_key(command_args.pane_id.value)
                    && before.text_views.contains_key(command_args.pane_id.value) {
                    exists|text_view: TextView, text: String|
                        {
                            &&& text_view@ == before.text_views[command_args.pane_id.value]
                            &&& #[trigger] call_ensures(
                                *serialize_selection_text,
                                (
                                    &text_view,
                                    &client.selections[command_args.pane_id.value],
                                    command_args.should_trim_trailing_whitespace,
                                ),
                                text,
                            )
                            &&& text@.len() == 0 ==> after == before
                            &&& text@.len() > 0 ==> after == (ServerModel {
                                clipboard_writes: before.clipboard_writes.push(
                                    ClipboardWriteModel {
                                        client_id,
                                        clipboard_target: command_args.clipboard_target,
                                        text: text@,
                                    },
                                ),
                                ..before
                            })
                        }
                } else {
                    after == before
                }
            }
        }),
{
    let before = old(server)@;
    let after = final(server)@;
    if before.refusal(*command_source, command_args.pane_id) is None && before.has_text_to_copy(
        client_id,
        command_args.pane_id,
    ) {
        let written = choose|text: Seq<char>| #[trigger]
            is_copied_text(
                before,
                client_id,
                *command_args,
                *serialize_selection_text,
                text,
            ) && after == before.with_copied_text(
                client_id,
                command_args.clipboard_target,
                text,
            );
        assert(is_copied_text(
            before,
            client_id,
            *command_args,
            *serialize_selection_text,
            written,
        ));
    }
}

/// Whatever an attached client does with its keys or its mouse in a pane that its
/// session holds is applied, whichever of the commands it is.
pub proof fn law_a_gesture_of_an_attached_client_is_applied<
    F: Fn(&TextView, &Selection, bool) -> String,
>(
    server: &mut Server,
    command_id: CommandId,
    client_id: ClientId,
    command_source: &CommandSource,
    visual_command: &VisualCommand,
    serialize_selection_text: &F,
    answer: CommandResult,
)
    requires
        *command_source == (CommandSource::KeyBinding { client_id }) || *command_source == (
        CommandSource::Mouse { client_id }),
        old(server)@.clients.contains_key(client_id.value),
        ({
            let session_id = old(server)@.clients[client_id.value].session_id;
            let pane_id = match *visual_command {
                VisualCommand::SetSelection(command_args) => command_args.pane_id,
                VisualCommand::ClearSelection(command_args) => command_args.pane_id,
                VisualCommand::Copy(command_args) => command_args.pane_id,
            };
            old(server)@.sessions.contains_key(session_id.value) && old(server)@.sessions[session_id.value].contains(pane_id.value)
        }),
        call_ensures(
            Server::dispatch_visual::<F>,
            (server, command_id, command_source, visual_command, serialize_selection_text),
            answer,
        ),
    ensures
        answer matches CommandResult::Applied { command_id: answered, .. } && answered == command_id,
{
}

/// A command is unauthorized exactly where it is a copy and comes from a command
/// line, run inside a pane or outside every session. It then changes nothing.
pub proof fn law_only_a_copy_from_the_command_line_is_unauthorized<
    F: Fn(&TextView, &Selection, bool) -> String,
>(
    server: &mut Server,
    command_id: CommandId,
    command_source: &CommandSource,
    visual_command: &VisualCommand,
    serialize_selection_text: &F,
    answer: CommandResult,
)
    requires
        call_ensures(
            Server::dispatch_visual::<F>,
            (server, command_id, command_source, visual_command, serialize_selection_text),
            answer,
        ),
    ensures
        answer is Rejected && answer->reason == RejectReason::Unauthorized <==> (*command_source is InSessionCli
            || *command_source is ExternalCli) && *visual_command is Copy,
        (*command_source is InSessionCli || *command_source is ExternalCli)
            && *visual_command is Copy ==> {
            &&& answer->Rejected_command_id == command_id
            &&& answer->help matches Some(text) && text@
                == "command cannot be issued from the CLI"@
            &&& final(server)@ == old(server)@
        },
{
}

/// A command line whose session does not run here finds no target, and one whose
/// pane its session does not hold is gone, whichever client and pane its highlight
/// command names. Nothing changes.
pub proof fn law_a_command_line_in_a_gone_place_is_refused<
    F: Fn(&TextView, &Selection, bool) -> String,
>(
    server: &mut Server,
    command_id: CommandId,
    command_source: &CommandSource,
    visual_command: &VisualCommand,
    serialize_selection_text: &F,
    answer: CommandResult,
)
    requires
        *command_source is InSessionCli,
        !(*visual_command is Copy),
        call_ensures(
            Server::dispatch_visual::<F>,
            (server, command_id, command_source, visual_command, serialize_selection_text),
            answer,
        ),
    ensures
        ({
            let session_id = command_source->InSessionCli_session_id;
            let pane_id = command_source->InSessionCli_pane_id;
            let sessions = old(server)@.sessions;
            &&& !sessions.contains_key(session_id.value) ==> answer == (CommandResult::Rejected {
                command_id,
                reason: RejectReason::TargetNotFound,
                help: None,
            }) && final(server)@ == old(server)@
            &&& sessions.contains_key(session_id.value) && !sessions[session_id.value].contains(
                pane_id.value,
            ) ==> {
                &&& answer is Rejected
                &&& answer->Rejected_command_id == command_id
                &&& answer->reason == RejectReason::TargetGone
                &&& answer->help matches Some(text) && text@ == "source pane no longer exists"@
                &&& final(server)@ == old(server)@
            }
        }),
{
}

/// A command is applied exactly where it is valid. One that is not is refused
/// with the reason and the help that validation gives.
pub proof fn law_a_validated_command_is_applied_and_no_other<
    F: Fn(&TextView, &Selection, bool) -> String,
>(
    server_before: &Server,
    server: &mut Server,
    command_id: CommandId,
    command_source: &CommandSource,
    visual_command: &VisualCommand,
    serialize_selection_text: &F,
    validated: Result<(), Rejection>,
    answer: CommandResult,
)
    requires
        server_before@ == old(server)@,
        call_ensures(
            Server::validate_command,
            (server_before, command_source, visual_command),
            validated,
        ),
        call_ensures(
            Server::dispatch_visual::<F>,
            (server, command_id, command_source, visual_command, serialize_selection_text),
            answer,
        ),
    ensures
        validated is Ok <==> answer is Applied,
        validated matches Err(rejection) ==> {
            &&& answer matches CommandResult::Rejected { command_id: answered, reason, help }
                && answered == command_id && reason == rejection.reason && match (
                help,
                rejection.help,
            ) {
                (Some(text), Some(other_text)) => text@ == other_text@,
                (None, None) => true,
                _ => false,
            }
            &&& final(server)@ == old(server)@
        },
{
}

/// A command that no client issued has no highlight to touch: it is refused as
/// stale and changes nothing, whatever it asks for.
pub proof fn law_a_source_without_a_client_is_stale<
    F: Fn(&TextView, &Selection, bool) -> String,
>(
    server: &mut Server,
    command_id: CommandId,
    command_source: &CommandSource,
    visual_command: &VisualCommand,
    serialize_selection_text: &F,
    outcome: Result<CommandResult, Rejection>,
)
    requires
        match *command_source {
            CommandSource::InSessionCli { designated_client_id, .. } => designated_client_id is None,
            CommandSource::ExternalCli { .. } => true,
            CommandSource::Plugin { .. } => true,
            CommandSource::Internal => true,
            _ => false,
        },
        call_ensures(
            Server::handle_visual::<F>,
            (server, command_id, command_source, visual_command, serialize_selection_text),
            outcome,
        ),
    ensures
        outcome == Err::<CommandResult, Rejection>(
            Rejection { reason: RejectReason::SourceClientStale, help: None },
        ),
        final(server)@ == old(server)@,
{
}

/// A copy that no client issued is refused as stale and changes nothing.
pub proof fn law_a_copy_without_a_client_is_stale<
    F: Fn(&TextView, &Selection, bool) -> String,
>(
    server: &mut Server,
    command_id: CommandId,
    command_source: &CommandSource,
    command_args: &CopyArgs,
    serialize_selection_text: &F,
    outcome: Result<CommandResult, Rejection>,
)
    requires
        match *command_source {
            CommandSource::InSessionCli { designated_client_id, .. } => designated_client_id is None,
            CommandSource::ExternalCli { .. } => true,
            CommandSource::Plugin { .. } => true,
            CommandSource::Internal => true,
            _ => false,
        },
        call_ensures(
            Server::handle_copy::<F>,
            (server, command_id, command_source, command_args, serialize_selection_text),
            outcome,
        ),
    ensures
        outcome == Err::<CommandResult, Rejection>(
            Rejection { reason: RejectReason::SourceClientStale, help: None },
        ),
        final(server)@ == old(server)@,
{
}

/// A dispatched command of a plugin or of the server itself, and one that sets or
/// clears from outside every session, is refused as stale and changes nothing.
pub proof fn law_a_dispatched_command_without_a_client_is_stale<
    F: Fn(&TextView, &Selection, bool) -> String,
>(
    server: &mut Server,
    command_id: CommandId,
    command_source: &CommandSource,
    visual_command: &VisualCommand,
    serialize_selection_text: &F,
    answer: CommandResult,
)
    requires
        *command_source is Plugin || *command_source is Internal || (
        *command_source is ExternalCli && !(*visual_command is Copy)),
        call_ensures(
            Server::dispatch_visual::<F>,
            (server, command_id, command_source, visual_command, serialize_selection_text),
            answer,
        ),
    ensures
        answer == (CommandResult::Rejected {
            command_id,
            reason: RejectReason::SourceClientStale,
            help: None,
        }),
        final(server)@ == old(server)@,
{
}

/// A copy that read some text sends it on for its client to the clipboard it
/// names, and one that read none sends nothing.
pub proof fn law_finishing_a_copy_writes_any_text_and_no_other(
    server: &mut Server,
    command_id: CommandId,
    client_id: ClientId,
    clipboard_target: CopyTarget,
    copied_text: String,
    answer: CommandResult,
)
    requires
        call_ensures(
            Server::finish_copy,
            (server, command_id, client_id, clipboard_target, copied_text),
            answer,
        ),
    ensures
        answer matches CommandResult::Applied { command_id: answered, emitted_events } && answered
            == command_id && emitted_events@.len() == 0,
        copied_text@.len() == 0 ==> final(server)@ == old(server)@,
        copied_text@.len() > 0 ==> final(server)@ == (ServerModel {
            clipboard_writes: old(server)@.clipboard_writes.push(
                ClipboardWriteModel { client_id, clipboard_target, text: copied_text@ },
            ),
            ..old(server)@
        }),
{
}

/// Every command is answered, whatever it holds and wherever it comes from, as long
/// as the serializer can be called.
pub proof fn law_every_command_is_answered<F: Fn(&TextView, &Selection, bool) -> String>(
    server: &mut Server,
    server_before: &Server,
    command_id: CommandId,
    command_source: &CommandSource,
    visual_command: &VisualCommand,
    set_args: &SetSelectionArgs,
    clear_args: &ClearSelectionArgs,
    copy_args: &CopyArgs,
    serialize_selection_text: &F,
)
    requires
        forall|text_view: &TextView, selection: &Selection, should_trim: bool|
            call_requires(*serialize_selection_text, (text_view, selection, should_trim)),
    ensures
        call_requires(
            Server::handle_set_selection,
            (server, command_id, command_source, set_args),
        ),
        call_requires(
            Server::handle_clear_selection,
            (server, command_id, command_source, clear_args),
        ),
        call_requires(
            Server::handle_copy::<F>,
            (server, command_id, command_source, copy_args, serialize_selection_text),
        ),
        call_requires(
            Server::handle_visual::<F>,
            (server, command_id, command_source, visual_command, serialize_selection_text),
        ),
        call_requires(
            Server::dispatch_visual::<F>,
            (server, command_id, command_source, visual_command, serialize_selection_text),
        ),
        call_requires(Server::validate_command, (server_before, command_source, visual_command)),
{
}

} // verus!
