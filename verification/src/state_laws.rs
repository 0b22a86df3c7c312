//! What clients and the server remember: what is read back after each change, and
//! what each change leaves alone.

use vstd::prelude::*;

use crate::client::{Client, ClientModel};
use crate::command::{CommandSource, CopyTarget, GridPosition, Selection, VisualCommand};
use crate::ids::{ClientId, CommandId, PaneId, SessionId};
use crate::outcome::{CommandResult, Event, RejectReason, Rejection};
use crate::server::{ClipboardWrite, ClipboardWriteModel, EventBus, Server, ServerModel};
use crate::text_view::TextView;

verus! {

/// A client answers for a pane with the highlight and the scroll offset it has
/// there, none and zero where it has neither, and its view of the pane is held
/// exactly where it has a highlight or has scrolled up.
pub proof fn law_a_client_answers_with_what_it_has_in_the_pane(
    client: &Client,
    pane_id: PaneId,
    selection: Option<Selection>,
    scroll_offset: usize,
    is_held: bool,
)
    requires
        call_ensures(Client::get_selection, (client, pane_id), selection),
        call_ensures(Client::get_scroll_offset, (client, pane_id), scroll_offset),
        call_ensures(Client::is_view_held, (client, pane_id), is_held),
    ensures
        client@.selections.contains_key(pane_id.value) ==> selection == Some(
            client@.selections[pane_id.value],
        ),
        !client@.selections.contains_key(pane_id.value) ==> selection is None,
        client@.scroll_offsets.contains_key(pane_id.value) ==> scroll_offset
            == client@.scroll_offsets[pane_id.value],
        !client@.scroll_offsets.contains_key(pane_id.value) ==> scroll_offset == 0,
        is_held <==> selection is Some || scroll_offset > 0,
{
}

/// A new client is the one asked for, and has nothing highlighted or scrolled in
/// any pane.
pub proof fn law_a_new_client_has_nothing_anywhere(
    client_id: ClientId,
    session_id: SessionId,
    client: &Client,
    pane_id: PaneId,
    selection: Option<Selection>,
    scroll_offset: usize,
    is_held: bool,
)
    requires
        call_ensures(Client::new, (client_id, session_id), *client),
        call_ensures(Client::get_selection, (client, pane_id), selection),
        call_ensures(Client::get_scroll_offset, (client, pane_id), scroll_offset),
        call_ensures(Client::is_view_held, (client, pane_id), is_held),
    ensures
        client@.client_id == client_id,
        client@.session_id == session_id,
        selection is None,
        scroll_offset == 0,
        !is_held,
{
}

/// A highlight that was set reads back in its pane. In every other pane the
/// client keeps its highlight, and everywhere its scroll offset.
pub proof fn law_a_set_highlight_reads_back(
    client: &mut Client,
    pane_id: PaneId,
    selection: Selection,
    later: &Client,
    read_pane_id: PaneId,
    read: Option<Selection>,
)
    requires
        call_ensures(Client::set_selection, (client, pane_id, selection), ()),
        later@ == final(client)@,
        call_ensures(Client::get_selection, (later, read_pane_id), read),
    ensures
        read_pane_id == pane_id ==> read == Some(selection),
        read_pane_id != pane_id ==> read == (if old(client)@.selections.contains_key(
            read_pane_id.value,
        ) {
            Some(old(client)@.selections[read_pane_id.value])
        } else {
            None
        }),
        final(client)@ == (ClientModel { selections: final(client)@.selections, ..old(client)@ }),
{
}

/// A highlight that was cleared is gone from its pane. In every other pane the
/// client keeps its highlight, and everywhere its scroll offset.
pub proof fn law_a_cleared_highlight_is_gone(
    client: &mut Client,
    pane_id: PaneId,
    later: &Client,
    read_pane_id: PaneId,
    read: Option<Selection>,
)
    requires
        call_ensures(Client::clear_selection, (client, pane_id), ()),
        later@ == final(client)@,
        call_ensures(Client::get_selection, (later, read_pane_id), read),
    ensures
        read_pane_id == pane_id ==> read is None,
        read_pane_id != pane_id ==> read == (if old(client)@.selections.contains_key(
            read_pane_id.value,
        ) {
            Some(old(client)@.selections[read_pane_id.value])
        } else {
            None
        }),
        final(client)@ == (ClientModel { selections: final(client)@.selections, ..old(client)@ }),
{
}

/// A scroll offset that was set reads back in its pane. In every other pane the
/// client keeps its scroll offset, and everywhere its highlight.
pub proof fn law_a_set_scroll_offset_reads_back(
    client: &mut Client,
    pane_id: PaneId,
    scroll_offset: usize,
    later: &Client,
    read_pane_id: PaneId,
    read: usize,
)
    requires
        call_ensures(Client::set_scroll_offset, (client, pane_id, scroll_offset), ()),
        later@ == final(client)@,
        call_ensures(Client::get_scroll_offset, (later, read_pane_id), read),
    ensures
        read_pane_id == pane_id ==> read == scroll_offset,
        read_pane_id != pane_id ==> read == (if old(client)@.scroll_offsets.contains_key(
            read_pane_id.value,
        ) {
            old(client)@.scroll_offsets[read_pane_id.value]
        } else {
            0
        }),
        final(client)@ == (ClientModel {
            scroll_offsets: final(client)@.scroll_offsets,
            ..old(client)@
        }),
{
}

/// A pane that a client forgot holds nothing of it, and in every other pane the
/// client keeps what it had.
pub proof fn law_a_forgotten_pane_holds_nothing(
    client: &mut Client,
    pane_id: PaneId,
    other_pane: u128,
)
    requires
        call_ensures(Client::forget_pane, (client, pane_id), ()),
        other_pane != pane_id.value,
    ensures
        !final(client)@.selections.contains_key(pane_id.value),
        !final(client)@.scroll_offsets.contains_key(pane_id.value),
        final(client)@.selections.contains_key(other_pane) <==> old(
            client)@.selections.contains_key(other_pane),
        final(client)@.selections.contains_key(other_pane) ==> final(client)@.selections[other_pane]
            == old(client)@.selections[other_pane],
        final(client)@.scroll_offsets.contains_key(other_pane) <==> old(
            client)@.scroll_offsets.contains_key(other_pane),
        final(client)@.scroll_offsets.contains_key(other_pane) ==> final(
            client)@.scroll_offsets[other_pane] == old(client)@.scroll_offsets[other_pane],
        final(client)@.client_id == old(client)@.client_id,
        final(client)@.session_id == old(client)@.session_id,
{
}

/// A client is handed out exactly where it is attached, and as it is.
pub proof fn law_an_attached_client_is_handed_out(
    server: &Server,
    client_id: ClientId,
    found: Option<&Client>,
)
    requires
        call_ensures(Server::get_client, (server, client_id), found),
    ensures
        found is Some <==> server@.clients.contains_key(client_id.value),
        found matches Some(client) ==> client@ == server@.clients[client_id.value],
{
}

/// A client handed out for change is the attached one, and what it becomes is
/// what the server holds of it. Nothing else of the server changes.
pub proof fn law_a_client_is_changed_in_place(
    server: &mut Server,
    client_id: ClientId,
    found: Option<&mut Client>,
)
    requires
        call_ensures(Server::get_client_mut, (server, client_id), found),
    ensures
        found is Some <==> old(server)@.clients.contains_key(client_id.value),
        found matches Some(client) ==> client@ == old(server)@.clients[client_id.value] && final(
            server)@ == (ServerModel {
            clients: old(server)@.clients.insert(client_id.value, final(client)@),
            ..old(server)@
        }),
        found is None ==> final(server)@ == old(server)@,
{
}

/// A new server runs no session, and has no client, no text and nothing to send.
pub proof fn law_a_new_server_has_nothing(server: &Server)
    requires
        call_ensures(Server::new, (), *server),
    ensures
        server@.sessions =~= Map::<u128, Set<u128>>::empty(),
        server@.clients =~= Map::<u128, ClientModel>::empty(),
        server@.text_views.dom() =~= Set::<u128>::empty(),
        server@.pending_events.len() == 0,
        server@.clipboard_writes.len() == 0,
{
}

/// Whether a session holds a pane is answered for the sessions that run, and for
/// no others.
pub proof fn law_a_session_answers_for_its_panes(
    server: &Server,
    session_id: SessionId,
    pane_id: PaneId,
    found: Option<bool>,
)
    requires
        call_ensures(Server::is_pane_in_session, (server, session_id, pane_id), found),
    ensures
        found is Some <==> server@.sessions.contains_key(session_id.value),
        found matches Some(is_held) ==> is_held == server@.sessions[session_id.value].contains(
            pane_id.value,
        ),
{
}

/// A session that was started runs without panes. Every other session, and the
/// rest of the server, stays as it was.
pub proof fn law_a_started_session_runs_without_panes(
    server: &mut Server,
    session_id: SessionId,
    later: &Server,
    read_session_id: SessionId,
    read_pane_id: PaneId,
    found: Option<bool>,
)
    requires
        call_ensures(Server::insert_session, (server, session_id), ()),
        later@ == final(server)@,
        call_ensures(Server::is_pane_in_session, (later, read_session_id, read_pane_id), found),
    ensures
        read_session_id == session_id ==> found == Some(false),
        read_session_id != session_id ==> found == (if old(server)@.sessions.contains_key(
            read_session_id.value,
        ) {
            Some(old(server)@.sessions[read_session_id.value].contains(read_pane_id.value))
        } else {
            None
        }),
        final(server)@ == (ServerModel { sessions: final(server)@.sessions, ..old(server)@ }),
{
}

/// A registered pane is held by its session where that runs. What every other
/// session holds, every other pane, and the rest of the server stay as they were.
pub proof fn law_a_registered_pane_is_held(
    server: &mut Server,
    session_id: SessionId,
    pane_id: PaneId,
    later: &Server,
    read_session_id: SessionId,
    read_pane_id: PaneId,
    found: Option<bool>,
)
    requires
        call_ensures(Server::register_pane, (server, session_id, pane_id), ()),
        later@ == final(server)@,
        call_ensures(Server::is_pane_in_session, (later, read_session_id, read_pane_id), found),
    ensures
        found is Some <==> old(server)@.sessions.contains_key(read_session_id.value),
        found matches Some(is_held) ==> (is_held <==> old(
            server)@.sessions[read_session_id.value].contains(read_pane_id.value) || (
        read_session_id == session_id && read_pane_id == pane_id)),
        final(server)@ == (ServerModel { sessions: final(server)@.sessions, ..old(server)@ }),
{
}

/// A pane that a session held and that was removed is held no more, has no text,
/// and no client has anything in it. Every other pane, its text and what any
/// client has in it stay, and so do the outboxes.
pub proof fn law_a_removed_pane_leaves_nothing_behind(
    server: &mut Server,
    session_id: SessionId,
    pane_id: PaneId,
    client_id: u128,
    other_session: u128,
    other_pane: u128,
)
    requires
        call_ensures(Server::remove_pane, (server, session_id, pane_id), ()),
        old(server)@.sessions.contains_key(session_id.value),
        old(server)@.sessions[session_id.value].contains(pane_id.value),
        other_pane != pane_id.value,
    ensures
        ({
            let before = old(server)@;
            let after = final(server)@;
            &&& !after.sessions[session_id.value].contains(pane_id.value)
            &&& after.sessions[session_id.value].contains(other_pane)
                <==> before.sessions[session_id.value].contains(other_pane)
            &&& after.sessions.contains_key(other_session) <==> before.sessions.contains_key(
                other_session,
            )
            &&& other_session != session_id.value ==> after.sessions[other_session]
                == before.sessions[other_session]
            &&& !after.text_views.contains_key(pane_id.value)
            &&& after.text_views.contains_key(other_pane) <==> before.text_views.contains_key(
                other_pane,
            )
            &&& after.text_views[other_pane] == before.text_views[other_pane]
            &&& after.clients.contains_key(client_id) <==> before.clients.contains_key(client_id)
            &&& before.clients.contains_key(client_id) ==> {
                let client = after.clients[client_id];
                let client_before = before.clients[client_id];
                &&& client.client_id == client_before.client_id
                &&& client.session_id == client_before.session_id
                &&& !client.selections.contains_key(pane_id.value)
                &&& !client.scroll_offsets.contains_key(pane_id.value)
                &&& client.selections.contains_key(other_pane)
                    <==> client_before.selections.contains_key(other_pane)
                &&& client.selections[other_pane] == client_before.selections[other_pane]
                &&& client.scroll_offsets.contains_key(other_pane)
                    <==> client_before.scroll_offsets.contains_key(other_pane)
                &&& client.scroll_offsets[other_pane] == client_before.scroll_offsets[other_pane]
            }
            &&& after.pending_events == before.pending_events
            &&& after.clipboard_writes == before.clipboard_writes
        }),
{
}

/// Removing a pane that its session does not hold changes nothing.
pub proof fn law_removing_a_pane_that_is_not_held_changes_nothing(
    server: &mut Server,
    session_id: SessionId,
    pane_id: PaneId,
)
    requires
        call_ensures(Server::remove_pane, (server, session_id, pane_id), ()),
        !(old(server)@.sessions.contains_key(session_id.value) && old(
            server)@.sessions[session_id.value].contains(pane_id.value)),
    ensures
        final(server)@ == old(server)@,
{
}

/// A client that attaches to a running session is attached to it, afresh unless it
/// already was. One that attaches to a session that does not run stays where it
/// was. Every other client, and the rest of the server, stays as it was.
pub proof fn law_an_attaching_client_is_attached(
    server: &mut Server,
    session_id: SessionId,
    client_id: ClientId,
    later: &Server,
    read_client_id: ClientId,
    found: Option<&Client>,
)
    requires
        call_ensures(Server::attach_client, (server, session_id, client_id), ()),
        later@ == final(server)@,
        call_ensures(Server::get_client, (later, read_client_id), found),
    ensures
        ({
            let before = old(server)@;
            let was_attached = before.clients.contains_key(read_client_id.value);
            &&& final(server)@ == (ServerModel { clients: final(server)@.clients, ..before })
            &&& if read_client_id != client_id || !before.sessions.contains_key(session_id.value)
                || (was_attached && before.clients[client_id.value].session_id == session_id) {
                &&& found is Some <==> was_attached
                &&& found matches Some(client) ==> client@ == before.clients[read_client_id.value]
            } else {
                &&& found is Some
                &&& found->0@.client_id == client_id
                &&& found->0@.session_id == session_id
                &&& found->0@.selections =~= Map::<u128, Selection>::empty()
                &&& found->0@.scroll_offsets =~= Map::<u128, usize>::empty()
            }
        }),
{
}

/// A client that detaches is attached no more. Every other client, and the rest
/// of the server, stays as it was.
pub proof fn law_a_detached_client_is_gone(
    server: &mut Server,
    client_id: ClientId,
    later: &Server,
    read_client_id: ClientId,
    found: Option<&Client>,
)
    requires
        call_ensures(Server::detach_client, (server, client_id), ()),
        later@ == final(server)@,
        call_ensures(Server::get_client, (later, read_client_id), found),
    ensures
        read_client_id == client_id ==> found is None,
        read_client_id != client_id ==> (found is Some <==> old(server)@.clients.contains_key(
            read_client_id.value,
        )),
        found matches Some(client) ==> client@ == old(server)@.clients[read_client_id.value],
        final(server)@ == (ServerModel { clients: final(server)@.clients, ..old(server)@ }),
{
}

/// The text that was put in a pane is handed out for it. Every other pane keeps
/// its text, and the rest of the server stays as it was.
pub proof fn law_the_text_of_a_pane_is_handed_out(
    server: &mut Server,
    pane_id: PaneId,
    text_view: TextView,
    later: &Server,
    read_pane_id: PaneId,
    found: Option<&TextView>,
)
    requires
        call_ensures(Server::put_text_view, (server, pane_id, text_view), ()),
        later@ == final(server)@,
        call_ensures(Server::get_text_view, (later, read_pane_id), found),
    ensures
        found is Some <==> read_pane_id == pane_id || old(server)@.text_views.contains_key(
            read_pane_id.value,
        ),
        found matches Some(found_view) ==> found_view@ == (if read_pane_id == pane_id {
            text_view@
        } else {
            old(server)@.text_views[read_pane_id.value]
        }),
        final(server)@ == (ServerModel { text_views: final(server)@.text_views, ..old(server)@ }),
{
}

/// The text that was taken from a pane is gone. Every other pane keeps its text,
/// and the rest of the server stays as it was.
pub proof fn law_the_text_taken_from_a_pane_is_gone(
    server: &mut Server,
    pane_id: PaneId,
    later: &Server,
    read_pane_id: PaneId,
    found: Option<&TextView>,
)
    requires
        call_ensures(Server::remove_text_view, (server, pane_id), ()),
        later@ == final(server)@,
        call_ensures(Server::get_text_view, (later, read_pane_id), found),
    ensures
        found is Some <==> read_pane_id != pane_id && old(server)@.text_views.contains_key(
            read_pane_id.value,
        ),
        found matches Some(found_view) ==> found_view@ == old(
            server)@.text_views[read_pane_id.value],
        final(server)@ == (ServerModel { text_views: final(server)@.text_views, ..old(server)@ }),
{
}

/// Clients are sound exactly where each is recorded under its own id and attached
/// to a session that runs.
pub proof fn law_sound_clients_are_under_their_ids_in_running_sessions(
    server: ServerModel,
    client_id: u128,
)
    requires
        server.clients.contains_key(client_id),
    ensures
        server.has_sound_clients() ==> server.clients[client_id].client_id.value == client_id
            && server.sessions.contains_key(server.clients[client_id].session_id.value),
        !server.has_sound_clients() ==> exists|other: u128| #[trigger]
            server.clients.contains_key(other) && (server.clients[other].client_id.value != other
                || !server.sessions.contains_key(server.clients[other].session_id.value)),
{
}

/// A new bus holds nothing, what is published goes last, and what is taken is all
/// that the bus held, once.
pub proof fn law_a_bus_hands_out_what_was_published_in_order(
    made: &EventBus,
    bus: &mut EventBus,
    taking: &mut EventBus,
    event: Event,
    taken: Vec<Event>,
)
    requires
        call_ensures(EventBus::new, (), *made),
        call_ensures(EventBus::publish, (bus, event), ()),
        old(taking)@ == final(bus)@,
        call_ensures(EventBus::take_pending_events, (taking,), taken),
    ensures
        made@.len() == 0,
        taken@.len() == old(bus)@.len() + 1,
        taken@.drop_last() == old(bus)@,
        taken@.last() == event,
        final(taking)@.len() == 0,
{
    assert(taken@.drop_last() =~= old(bus)@);
}

/// Committed events wait behind those that waited before, in order, and are what
/// the command answers. Taking what waits hands out all of it once.
pub proof fn law_committed_events_wait_in_order(
    server: &mut Server,
    taking: &mut Server,
    command_id: CommandId,
    events: Vec<Event>,
    answer: CommandResult,
    taken: Vec<Event>,
)
    requires
        call_ensures(Server::commit_events, (server, command_id, events), answer),
        old(taking)@ == final(server)@,
        call_ensures(Server::take_pending_events, (taking,), taken),
    ensures
        answer == (CommandResult::Applied { command_id, emitted_events: events }),
        taken@ == old(server)@.pending_events + events@,
        final(taking)@.pending_events.len() == 0,
        final(server)@ == (ServerModel {
            pending_events: final(server)@.pending_events,
            ..old(server)@
        }),
        final(taking)@ == (ServerModel {
            pending_events: final(taking)@.pending_events,
            ..old(taking)@
        }),
{
}

/// Text sent to a clipboard waits behind what waited before, for its client and
/// its clipboard. Nothing else changes.
pub proof fn law_text_for_a_clipboard_waits_last(
    server: &mut Server,
    client_id: ClientId,
    clipboard_target: CopyTarget,
    text: String,
)
    requires
        call_ensures(Server::copy_to_clipboard, (server, client_id, clipboard_target, text), ()),
    ensures
        ({
            let before = old(server)@.clipboard_writes;
            let after = final(server)@.clipboard_writes;
            &&& after.len() == before.len() + 1
            &&& after.drop_last() == before
            &&& after.last().client_id == client_id
            &&& after.last().clipboard_target == clipboard_target
            &&& after.last().text == text@
            &&& final(server)@ == (ServerModel { clipboard_writes: after, ..old(server)@ })
        }),
{
    assert(final(server)@.clipboard_writes.drop_last() =~= old(server)@.clipboard_writes);
}

/// A client takes out what waits for it, all of it, in the order it was sent, and
/// leaves what waits for others in the order it was sent.
pub proof fn law_a_client_takes_its_own_writes_in_order(
    server: &mut Server,
    client_id: ClientId,
    taken: Option<Vec<ClipboardWrite>>,
)
    requires
        call_ensures(Server::take_host_writes, (server, client_id), taken),
    ensures
        ({
            let waiting = old(server)@.clipboard_writes;
            let own = waiting.filter(
                |waiting_write: ClipboardWriteModel| waiting_write.client_id == client_id,
            );
            let others = waiting.filter(
                |waiting_write: ClipboardWriteModel| waiting_write.client_id != client_id,
            );
            &&& taken is None <==> own.len() == 0
            &&& taken matches Some(writes) ==> {
                &&& writes@.len() == own.len()
                &&& forall|i: int|
                    0 <= i < own.len() ==> (#[trigger] writes@[i]).client_id == client_id
                        && writes@[i].clipboard_target == own[i].clipboard_target
                        && writes@[i].text@ == own[i].text
            }
            &&& final(server)@ == (ServerModel { clipboard_writes: others, ..old(server)@ })
        }),
{
    let waiting = old(server)@.clipboard_writes;
    let own = waiting.filter(
        |waiting_write: ClipboardWriteModel| waiting_write.client_id == client_id,
    );
    if let Some(writes) = taken {
        let said = crate::server::model_of_writes(writes@);
        assert(said == own);
        assert forall|i: int| 0 <= i < own.len() implies (#[trigger] writes@[i]).client_id
            == client_id && writes@[i].clipboard_target == own[i].clipboard_target
            && writes@[i].text@ == own[i].text by {
            assert(said[i] == writes@[i]@);
            waiting.lemma_filter_contains_rev(
                |waiting_write: ClipboardWriteModel| waiting_write.client_id == client_id,
                own[i],
            );
        }
    }
}

/// A key press or a mouse gesture is its client's. A command line inside a pane
/// is that of the client designated for it, and no other source is any client's.
pub proof fn law_a_source_names_the_client_behind_it(
    command_source: &CommandSource,
    found: Option<ClientId>,
    resolved: Result<ClientId, Rejection>,
    is_from_cli: bool,
)
    requires
        call_ensures(CommandSource::find_issuing_client_id, (command_source,), found),
        call_ensures(Server::resolve_issuing_client_id, (command_source,), resolved),
        call_ensures(CommandSource::is_from_cli, (command_source,), is_from_cli),
    ensures
        match *command_source {
            CommandSource::KeyBinding { client_id } => found == Some(client_id) && !is_from_cli,
            CommandSource::Mouse { client_id } => found == Some(client_id) && !is_from_cli,
            CommandSource::InSessionCli { designated_client_id, .. } => found
                == designated_client_id && is_from_cli,
            CommandSource::ExternalCli { .. } => found is None && is_from_cli,
            CommandSource::Plugin { .. } => found is None && !is_from_cli,
            CommandSource::Internal => found is None && !is_from_cli,
        },
        found matches Some(client_id) ==> resolved == Ok::<ClientId, Rejection>(client_id),
        found is None ==> resolved == Err::<ClientId, Rejection>(
            Rejection { reason: RejectReason::SourceClientStale, help: None },
        ),
{
}

/// A command names the pane in its arguments.
pub proof fn law_a_command_names_its_own_pane(visual_command: &VisualCommand, pane_id: PaneId)
    requires
        call_ensures(VisualCommand::get_pane_id, (visual_command,), pane_id),
    ensures
        match *visual_command {
            VisualCommand::SetSelection(command_args) => pane_id == command_args.pane_id,
            VisualCommand::ClearSelection(command_args) => pane_id == command_args.pane_id,
            VisualCommand::Copy(command_args) => pane_id == command_args.pane_id,
        },
{
}

/// A client's pane is there where the client is attached and its session holds
/// the pane. A client that is not attached is stale, and a pane that its session
/// does not hold is gone.
pub proof fn law_a_pane_is_looked_up_in_the_session_of_the_client(
    server: &Server,
    client_id: ClientId,
    pane_id: PaneId,
    validated: Result<(), Rejection>,
)
    requires
        call_ensures(Server::validate_pane_exists, (server, client_id, pane_id), validated),
    ensures
        ({
            let session = server@.clients[client_id.value].session_id.value;
            if !server@.clients.contains_key(client_id.value) {
                validated == Err::<(), Rejection>(
                    Rejection { reason: RejectReason::SourceClientStale, help: None },
                )
            } else if server@.sessions.contains_key(session) && server@.sessions[session].contains(
                pane_id.value,
            ) {
                validated == Ok::<(), Rejection>(())
            } else {
                validated == Err::<(), Rejection>(
                    Rejection { reason: RejectReason::TargetGone, help: None },
                )
            }
        }),
{
}

/// Only a command line inside a pane can be gone: its session may not run, or not
/// hold its pane.
pub proof fn law_a_source_is_looked_up_where_it_runs(
    server: &Server,
    command_source: &CommandSource,
    validated: Result<(), Rejection>,
)
    requires
        call_ensures(Server::validate_source_exists, (server, command_source), validated),
    ensures
        *command_source matches CommandSource::InSessionCli { session_id, pane_id, .. } ==> {
            if !server@.sessions.contains_key(session_id.value) {
                validated == Err::<(), Rejection>(
                    Rejection { reason: RejectReason::TargetNotFound, help: None },
                )
            } else if server@.sessions[session_id.value].contains(pane_id.value) {
                validated == Ok::<(), Rejection>(())
            } else {
                &&& validated is Err
                &&& validated->Err_0.reason == RejectReason::TargetGone
                &&& validated->Err_0.help matches Some(text) && text@
                    == "source pane no longer exists"@
            }
        },
        !(*command_source is InSessionCli) ==> validated == Ok::<(), Rejection>(()),
{
}

/// The command line has a word for every command but a copy, and every other
/// source may issue them all.
pub proof fn law_only_a_copy_has_no_word_on_the_command_line(
    command_source: &CommandSource,
    visual_command: &VisualCommand,
    validated: Result<(), Rejection>,
)
    requires
        call_ensures(
            Server::validate_cli_admission,
            (command_source, visual_command),
            validated,
        ),
    ensures
        validated is Err <==> (*command_source is InSessionCli || *command_source is ExternalCli)
            && *visual_command is Copy,
        validated matches Err(rejection) ==> rejection.reason == RejectReason::Unauthorized && (
        rejection.help matches Some(text) && text@ == "command cannot be issued from the CLI"@),
{
}

/// Cells stand in reading order: one row after the other, and within a row from
/// left to right. Of two cells one precedes the other, both only where they are
/// one.
pub proof fn law_cells_stand_in_reading_order(
    one: &GridPosition,
    other: &GridPosition,
    one_first: bool,
    other_first: bool,
)
    requires
        call_ensures(GridPosition::precedes, (one, other), one_first),
        call_ensures(GridPosition::precedes, (other, one), other_first),
    ensures
        one.row_index < other.row_index ==> one_first && !other_first,
        one.row_index == other.row_index && one.column_index < other.column_index ==> one_first
            && !other_first,
        *one == *other ==> one_first && other_first,
        one_first || other_first,
        one_first && other_first ==> *one == *other,
{
}

} // verus!
