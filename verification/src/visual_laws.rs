//! What holds of highlight commands across clients, panes and repeated calls.

use vstd::prelude::*;

use crate::client::ClientModel;
use crate::command::{
    ClearSelectionArgs, CommandSource, CopyArgs, Selection, SetSelectionArgs, VisualCommand,
};
use crate::ids::{ClientId, CommandId, PaneId, SessionId};
use crate::outcome::{is_same_answer, CommandResult, RejectReason, Rejection};
use crate::server::ServerModel;
use crate::snap_laws::{is_line_drag_over_one_glyph, law_snapping_again_changes_nothing};
use crate::text_view::TextView;
use crate::visual::{
    is_after_copy, is_clear_selection_outcome, is_copied_text, is_copy_outcome,
    is_function_of_text, is_set_selection_outcome, is_visual_outcome,
};

verus! {

/// Nothing but the highlight of `client_id` in `pane_id`, and the events waiting
/// to be handed out, differs between two servers.
pub open spec fn differs_in_one_highlight_only(
    before: ServerModel,
    after: ServerModel,
    client_id: ClientId,
    pane_id: PaneId,
) -> bool {
    &&& after.sessions == before.sessions
    &&& after.text_views == before.text_views
    &&& after.clipboard_writes == before.clipboard_writes
    &&& forall|other: ClientId| #[trigger] after.has_client(other) <==> before.has_client(other)
    &&& forall|other: ClientId| #[trigger]
        after.client(other).session_id == before.client(other).session_id
    &&& forall|other: ClientId, other_pane_id: PaneId| #[trigger]
        after.client(other).scroll_offset(other_pane_id) == before.client(other).scroll_offset(
            other_pane_id,
        )
    &&& forall|other: ClientId, other_pane_id: PaneId|
        other != client_id || other_pane_id != pane_id ==> #[trigger] after.client(
            other,
        ).selection(other_pane_id) == before.client(other).selection(other_pane_id)
}

/// Setting a highlight moves the issuer's highlight in the one pane. Its
/// highlights in other panes, every other client's, every scroll offset and the
/// rest of the server stay as they were.
pub proof fn law_setting_a_highlight_touches_nothing_else(
    server: ServerModel,
    client_id: ClientId,
    pane_id: PaneId,
    selection: Selection,
)
    requires
        server.client_refusal(client_id, pane_id) is None,
    ensures
        differs_in_one_highlight_only(
            server,
            server.after_set_selection(client_id, pane_id, selection),
            client_id,
            pane_id,
        ),
{
}

/// Clearing a highlight drops the issuer's highlight in the one pane and touches
/// nothing else.
pub proof fn law_clearing_a_highlight_touches_nothing_else(
    server: ServerModel,
    client_id: ClientId,
    pane_id: PaneId,
)
    requires
        server.client_refusal(client_id, pane_id) is None,
    ensures
        differs_in_one_highlight_only(
            server,
            server.after_clear_selection(client_id, pane_id),
            client_id,
            pane_id,
        ),
{
}

/// A highlight that was set reads back as it was stored, and holds the client's
/// view of the pane.
pub proof fn law_a_set_highlight_reads_back_and_holds_the_view(
    server: ServerModel,
    client_id: ClientId,
    pane_id: PaneId,
    selection: Selection,
)
    requires
        server.client_refusal(client_id, pane_id) is None,
    ensures
        ({
            let client = server.after_set_selection(client_id, pane_id, selection).client(
                client_id,
            );
            &&& client.selection(pane_id) == Some(server.stored_selection(pane_id, selection))
            &&& client.is_view_held(pane_id)
        }),
{
}

/// A cleared highlight is gone. The view of the pane stays held exactly where
/// the client had also scrolled up.
pub proof fn law_a_cleared_highlight_is_gone_and_releases_the_view(
    server: ServerModel,
    client_id: ClientId,
    pane_id: PaneId,
)
    requires
        server.client_refusal(client_id, pane_id) is None,
    ensures
        ({
            let client = server.after_clear_selection(client_id, pane_id).client(client_id);
            &&& client.selection(pane_id) is None
            &&& client.is_view_held(pane_id) <==> server.client(client_id).scroll_offset(pane_id)
                != 0
        }),
{
}

/// Clearing a pane with no highlight changes no client.
pub proof fn law_clearing_no_highlight_changes_no_client(
    server: ServerModel,
    client_id: ClientId,
    pane_id: PaneId,
)
    requires
        server.client_refusal(client_id, pane_id) is None,
        server.client(client_id).selection(pane_id) is None,
    ensures
        server.after_clear_selection(client_id, pane_id).clients == server.clients,
{
    let after = server.after_clear_selection(client_id, pane_id);
    assert(after.client(client_id).selections =~= server.client(client_id).selections);
    assert(after.clients =~= server.clients);
}

/// Clearing undoes setting where the pane had no highlight before.
pub proof fn law_clearing_undoes_setting(
    server: ServerModel,
    client_id: ClientId,
    pane_id: PaneId,
    selection: Selection,
)
    requires
        server.client_refusal(client_id, pane_id) is None,
        server.client(client_id).selection(pane_id) is None,
    ensures
        server.after_set_selection(client_id, pane_id, selection).after_clear_selection(
            client_id,
            pane_id,
        ).clients == server.clients,
{
    let set = server.after_set_selection(client_id, pane_id, selection);
    let after = set.after_clear_selection(client_id, pane_id);
    assert(after.client(client_id).selections =~= server.client(client_id).selections);
    assert(after.clients =~= server.clients);
}

/// A second highlight in the same pane replaces the first.
pub proof fn law_a_new_highlight_replaces_the_old(
    server: ServerModel,
    client_id: ClientId,
    pane_id: PaneId,
    old_selection: Selection,
    new_selection: Selection,
)
    requires
        server.client_refusal(client_id, pane_id) is None,
    ensures
        server.after_set_selection(client_id, pane_id, old_selection).after_set_selection(
            client_id,
            pane_id,
            new_selection,
        ).clients == server.after_set_selection(client_id, pane_id, new_selection).clients,
{
    let once = server.after_set_selection(client_id, pane_id, new_selection);
    let twice = server.after_set_selection(client_id, pane_id, old_selection).after_set_selection(
        client_id,
        pane_id,
        new_selection,
    );
    assert(twice.client(client_id).selections =~= once.client(client_id).selections);
    assert(twice.clients =~= once.clients);
}

/// Setting a stored highlight again changes no client: a grown pair grows no
/// further. The one drag left out is [`is_line_drag_over_one_glyph`].
pub proof fn law_setting_a_stored_highlight_again_changes_no_client(
    server: ServerModel,
    client_id: ClientId,
    pane_id: PaneId,
    selection: Selection,
)
    requires
        server.client_refusal(client_id, pane_id) is None,
        server.text_views.contains_key(pane_id.value) ==> {
            &&& server.text_views[pane_id.value].is_well_formed()
            &&& !is_line_drag_over_one_glyph(server.text_views[pane_id.value], selection)
        },
    ensures
        ({
            let set = server.after_set_selection(client_id, pane_id, selection);
            let stored = set.client(client_id).selection(pane_id).unwrap();
            set.after_set_selection(client_id, pane_id, stored).clients == set.clients
        }),
{
    let set = server.after_set_selection(client_id, pane_id, selection);
    let stored = server.stored_selection(pane_id, selection);
    let again = set.after_set_selection(client_id, pane_id, stored);
    if server.text_views.contains_key(pane_id.value) {
        law_snapping_again_changes_nothing(server.text_views[pane_id.value], selection);
    }
    assert(again.client(client_id).selections =~= set.client(client_id).selections);
    assert(again.clients =~= set.clients);
}

/// A copy leaves every highlight standing, and changes nothing but the text on
/// its way to a clipboard.
pub proof fn law_copying_leaves_every_highlight_standing<
    F: Fn(&TextView, &Selection, bool) -> String,
>(
    before: ServerModel,
    after: ServerModel,
    client_id: ClientId,
    command_args: CopyArgs,
    serialize_selection_text: F,
)
    requires
        is_after_copy(before, after, client_id, command_args, serialize_selection_text),
    ensures
        after.clients == before.clients,
        after.sessions == before.sessions,
        after.text_views == before.text_views,
        after.pending_events == before.pending_events,
{
}

/// A pane with no highlight copies nothing.
pub proof fn law_copying_no_highlight_writes_nothing<
    F: Fn(&TextView, &Selection, bool) -> String,
>(
    before: ServerModel,
    after: ServerModel,
    client_id: ClientId,
    command_args: CopyArgs,
    serialize_selection_text: F,
)
    requires
        before.client(client_id).selection(command_args.pane_id) is None,
        is_after_copy(before, after, client_id, command_args, serialize_selection_text),
    ensures
        after == before,
{
}

/// Every highlight command answers one pane the same way: two of them from one
/// source on one pane are both applied, or both refused with the same refusal.
pub proof fn law_highlight_commands_are_refused_alike<
    F: Fn(&TextView, &Selection, bool) -> String,
>(
    server: ServerModel,
    command_source: CommandSource,
    one_id: CommandId,
    other_id: CommandId,
    one: VisualCommand,
    other: VisualCommand,
    serialize_selection_text: F,
    one_outcome: Result<CommandResult, Rejection>,
    other_outcome: Result<CommandResult, Rejection>,
    after_one: ServerModel,
    after_other: ServerModel,
)
    requires
        one.pane_id() == other.pane_id(),
        is_visual_outcome(
            server,
            one_id,
            command_source,
            one,
            serialize_selection_text,
            one_outcome,
            after_one,
        ),
        is_visual_outcome(
            server,
            other_id,
            command_source,
            other,
            serialize_selection_text,
            other_outcome,
            after_other,
        ),
    ensures
        one_outcome is Ok <==> other_outcome is Ok,
        one_outcome matches Err(rejection) ==> other_outcome == Err::<CommandResult, Rejection>(
            rejection,
        ),
{
}

/// A command that no attached client issued is refused as stale, whatever pane it
/// names, and an attached client's command is refused only where its session
/// does not hold the pane.
pub proof fn law_refusals(server: ServerModel, command_source: CommandSource, pane_id: PaneId)
    ensures
        server.refusal(command_source, pane_id) == Some(RejectReason::SourceClientStale) <==> (
        command_source.issuing_client_id() is None || !server.has_client(
            command_source.issuing_client_id().unwrap(),
        )),
        server.refusal(command_source, pane_id) == Some(RejectReason::TargetGone) <==> (
        command_source.issuing_client_id() is Some && server.has_client(
            command_source.issuing_client_id().unwrap(),
        ) && !server.session_has_pane(
            server.client(command_source.issuing_client_id().unwrap()).session_id,
            pane_id,
        )),
        server.refusal(command_source, pane_id) matches Some(reason) ==> reason
            == RejectReason::SourceClientStale || reason == RejectReason::TargetGone,
{
}

/// A detached client takes its highlights with it: its commands are refused as
/// stale, and attaching again starts it with no highlight and a view that
/// follows output.
pub proof fn law_a_detached_client_takes_its_highlights_with_it(
    server: ServerModel,
    client_id: ClientId,
    session_id: SessionId,
    pane_id: PaneId,
)
    ensures
        ({
            let detached = ServerModel { clients: server.clients.remove(client_id.value), ..server
            };
            let reattached = detached.with_client(
                client_id,
                ClientModel::fresh(client_id, session_id),
            );
            &&& detached.client_refusal(client_id, pane_id) == Some(
                RejectReason::SourceClientStale,
            )
            &&& reattached.client(client_id).selection(pane_id) is None
            &&& !reattached.client(client_id).is_view_held(pane_id)
        }),
{
}

/// Nothing but how far clients have scrolled differs between two servers.
pub open spec fn differs_in_scroll_offsets_only(one: ServerModel, other: ServerModel) -> bool {
    &&& one.sessions == other.sessions
    &&& one.text_views == other.text_views
    &&& one.pending_events == other.pending_events
    &&& one.clipboard_writes == other.clipboard_writes
    &&& one.clients.dom() == other.clients.dom()
    &&& forall|client_id: u128| #[trigger]
        one.clients.contains_key(client_id) ==> {
            &&& one.clients[client_id].client_id == other.clients[client_id].client_id
            &&& one.clients[client_id].session_id == other.clients[client_id].session_id
            &&& one.clients[client_id].selections == other.clients[client_id].selections
        }
}

/// A client that scrolls in a pane changes scroll offsets only.
pub proof fn law_scrolling_changes_scroll_offsets_only(
    server: ServerModel,
    client_id: ClientId,
    pane_id: PaneId,
    scroll_offset: usize,
)
    requires
        server.has_client(client_id),
    ensures
        differs_in_scroll_offsets_only(
            server,
            server.with_client(
                client_id,
                server.client(client_id).with_scroll_offset(pane_id, scroll_offset),
            ),
        ),
{
    let scrolled = server.with_client(
        client_id,
        server.client(client_id).with_scroll_offset(pane_id, scroll_offset),
    );
    assert(scrolled.clients.dom() =~= server.clients.dom());
}

/// What a copy may do does not depend on scrolling, whatever the serializer: on
/// two servers that differ in scroll offsets only, the highlight reads as the
/// same texts, and what a copy may answer and send to the clipboard on one, it
/// may on the other.
pub proof fn law_what_a_copy_may_do_does_not_depend_on_scrolling<
    F: Fn(&TextView, &Selection, bool) -> String,
>(
    one: ServerModel,
    other: ServerModel,
    command_id: CommandId,
    command_source: CommandSource,
    command_args: CopyArgs,
    serialize_selection_text: F,
    outcome: Result<CommandResult, Rejection>,
    after: ServerModel,
)
    requires
        differs_in_scroll_offsets_only(one, other),
        is_copy_outcome(
            one,
            command_id,
            command_source,
            command_args,
            serialize_selection_text,
            outcome,
            after,
        ),
    ensures
        forall|client_id: ClientId, text: Seq<char>|
            one.has_client(client_id) ==> (#[trigger] is_copied_text(
                one,
                client_id,
                command_args,
                serialize_selection_text,
                text,
            ) <==> is_copied_text(
                other,
                client_id,
                command_args,
                serialize_selection_text,
                text,
            )),
        is_copy_outcome(
            other,
            command_id,
            command_source,
            command_args,
            serialize_selection_text,
            outcome,
            ServerModel { clients: other.clients, ..after },
        ),
{
    assert forall|client_id: ClientId| one.has_client(client_id) implies other.has_client(client_id)
        && #[trigger] one.client(client_id).selections == other.client(client_id).selections by {
        assert(one.clients.contains_key(client_id.value));
        assert(other.clients.dom().contains(client_id.value));
    }
    assert forall|client_id: ClientId, text: Seq<char>|
        one.has_client(client_id) implies (#[trigger] is_copied_text(
        one,
        client_id,
        command_args,
        serialize_selection_text,
        text,
    ) <==> is_copied_text(other, client_id, command_args, serialize_selection_text, text)) by {
        assert(one.client(client_id).selections == other.client(client_id).selections);
    }
    if let Some(client_id) = command_source.issuing_client_id() {
        assert(one.clients.dom().contains(client_id.value) <==> other.clients.dom().contains(
            client_id.value,
        ));
        if one.has_client(client_id) {
            assert(one.client(client_id).selections == other.client(client_id).selections);
            assert(ServerModel { clients: other.clients, ..one } == other);
            if one.refusal(command_source, command_args.pane_id) is None
                && one.has_text_to_copy(client_id, command_args.pane_id) {
                let text = choose|text: Seq<char>| #[trigger]
                    is_copied_text(one, client_id, command_args, serialize_selection_text, text)
                        && after == one.with_copied_text(
                        client_id,
                        command_args.clipboard_target,
                        text,
                    );
                assert(is_copied_text(
                    other,
                    client_id,
                    command_args,
                    serialize_selection_text,
                    text,
                ));
            }
        }
    }
}

/// What a copy puts on the clipboard is read from the pane's own lines, not from
/// what is on screen: on two servers that differ in scroll offsets only, the
/// same copy gets the same answer and puts the same text on the clipboard. The
/// serializer is one that gives one text for one highlight over one pane's text.
pub proof fn law_a_copy_does_not_depend_on_scrolling<
    F: Fn(&TextView, &Selection, bool) -> String,
>(
    one: ServerModel,
    other: ServerModel,
    command_id: CommandId,
    command_source: CommandSource,
    command_args: CopyArgs,
    serialize_selection_text: F,
    one_outcome: Result<CommandResult, Rejection>,
    other_outcome: Result<CommandResult, Rejection>,
    after_one: ServerModel,
    after_other: ServerModel,
)
    requires
        is_function_of_text(serialize_selection_text),
        differs_in_scroll_offsets_only(one, other),
        is_copy_outcome(
            one,
            command_id,
            command_source,
            command_args,
            serialize_selection_text,
            one_outcome,
            after_one,
        ),
        is_copy_outcome(
            other,
            command_id,
            command_source,
            command_args,
            serialize_selection_text,
            other_outcome,
            after_other,
        ),
    ensures
        is_same_answer(one_outcome, other_outcome),
        after_one.clipboard_writes == after_other.clipboard_writes,
        differs_in_scroll_offsets_only(after_one, after_other),
{
    if let Some(client_id) = command_source.issuing_client_id() {
        assert(one.has_client(client_id) <==> other.has_client(client_id)) by {
            assert(one.clients.dom().contains(client_id.value) <==> other.clients.dom().contains(
                client_id.value,
            ));
        }
    }
}

/// A visual command may answer and do exactly what its handler may, whatever the
/// serializer.
pub proof fn law_a_visual_command_may_do_what_its_handler_may<
    F: Fn(&TextView, &Selection, bool) -> String,
>(
    server: ServerModel,
    command_id: CommandId,
    command_source: CommandSource,
    visual_command: VisualCommand,
    serialize_selection_text: F,
    outcome: Result<CommandResult, Rejection>,
    after: ServerModel,
)
    ensures
        is_visual_outcome(
            server,
            command_id,
            command_source,
            visual_command,
            serialize_selection_text,
            outcome,
            after,
        ) <==> match visual_command {
            VisualCommand::SetSelection(command_args) => is_set_selection_outcome(
                server,
                command_id,
                command_source,
                command_args,
                outcome,
                after,
            ),
            VisualCommand::ClearSelection(command_args) => is_clear_selection_outcome(
                server,
                command_id,
                command_source,
                command_args,
                outcome,
                after,
            ),
            VisualCommand::Copy(command_args) => is_copy_outcome(
                server,
                command_id,
                command_source,
                command_args,
                serialize_selection_text,
                outcome,
                after,
            ),
        },
{
}

/// A visual command that sets a highlight is answered as its handler answers it,
/// and leaves the server that its handler leaves.
pub proof fn law_a_visual_command_sets_as_its_handler_does<
    F: Fn(&TextView, &Selection, bool) -> String,
>(
    server: ServerModel,
    command_id: CommandId,
    command_source: CommandSource,
    command_args: SetSelectionArgs,
    serialize_selection_text: F,
    routed: Result<CommandResult, Rejection>,
    handled: Result<CommandResult, Rejection>,
    after_routed: ServerModel,
    after_handled: ServerModel,
)
    requires
        is_visual_outcome(
            server,
            command_id,
            command_source,
            VisualCommand::SetSelection(command_args),
            serialize_selection_text,
            routed,
            after_routed,
        ),
        is_set_selection_outcome(
            server,
            command_id,
            command_source,
            command_args,
            handled,
            after_handled,
        ),
    ensures
        is_same_answer(routed, handled),
        after_routed == after_handled,
{
}

/// A visual command that clears a highlight is answered as its handler answers
/// it, and leaves the server that its handler leaves.
pub proof fn law_a_visual_command_clears_as_its_handler_does<
    F: Fn(&TextView, &Selection, bool) -> String,
>(
    server: ServerModel,
    command_id: CommandId,
    command_source: CommandSource,
    command_args: ClearSelectionArgs,
    serialize_selection_text: F,
    routed: Result<CommandResult, Rejection>,
    handled: Result<CommandResult, Rejection>,
    after_routed: ServerModel,
    after_handled: ServerModel,
)
    requires
        is_visual_outcome(
            server,
            command_id,
            command_source,
            VisualCommand::ClearSelection(command_args),
            serialize_selection_text,
            routed,
            after_routed,
        ),
        is_clear_selection_outcome(
            server,
            command_id,
            command_source,
            command_args,
            handled,
            after_handled,
        ),
    ensures
        is_same_answer(routed, handled),
        after_routed == after_handled,
{
}

/// A visual command that copies is answered as its handler answers it, and leaves
/// the server that its handler leaves. The serializer is one that gives one text
/// for one highlight over one pane's text.
pub proof fn law_a_visual_command_copies_as_its_handler_does<
    F: Fn(&TextView, &Selection, bool) -> String,
>(
    server: ServerModel,
    command_id: CommandId,
    command_source: CommandSource,
    command_args: CopyArgs,
    serialize_selection_text: F,
    routed: Result<CommandResult, Rejection>,
    handled: Result<CommandResult, Rejection>,
    after_routed: ServerModel,
    after_handled: ServerModel,
)
    requires
        is_function_of_text(serialize_selection_text),
        is_visual_outcome(
            server,
            command_id,
            command_source,
            VisualCommand::Copy(command_args),
            serialize_selection_text,
            routed,
            after_routed,
        ),
        is_copy_outcome(
            server,
            command_id,
            command_source,
            command_args,
            serialize_selection_text,
            handled,
            after_handled,
        ),
    ensures
        is_same_answer(routed, handled),
        after_routed == after_handled,
{
}

/// A pane that a session lost is gone for good: no client has anything
/// highlighted or scrolled in it, no view of it is held, and a command of the
/// session's clients on it is refused. In other panes every client keeps what it
/// had.
pub proof fn law_a_removed_pane_takes_its_highlights_with_it(
    server: ServerModel,
    session_id: SessionId,
    pane_id: PaneId,
    client_id: ClientId,
    other_pane_id: PaneId,
)
    requires
        server.session_has_pane(session_id, pane_id),
        server.has_client(client_id),
        other_pane_id != pane_id,
    ensures
        ({
            let after = server.without_pane(session_id, pane_id);
            let client = after.client(client_id);
            &&& after.has_client(client_id)
            &&& client.selection(pane_id) is None
            &&& client.scroll_offset(pane_id) == 0
            &&& !client.is_view_held(pane_id)
            &&& client.selection(other_pane_id) == server.client(client_id).selection(other_pane_id)
            &&& client.scroll_offset(other_pane_id) == server.client(client_id).scroll_offset(
                other_pane_id,
            )
            &&& server.client(client_id).session_id == session_id ==> after.client_refusal(
                client_id,
                pane_id,
            ) == Some(RejectReason::TargetGone)
            &&& after.client_refusal(client_id, other_pane_id) == server.client_refusal(
                client_id,
                other_pane_id,
            )
        }),
{
}

/// Setting a highlight leaves every client under its own id and in a running
/// session.
pub proof fn law_setting_a_highlight_keeps_the_clients_sound(
    server: ServerModel,
    client_id: ClientId,
    pane_id: PaneId,
    selection: Selection,
)
    requires
        server.has_sound_clients(),
        server.client_refusal(client_id, pane_id) is None,
    ensures
        server.after_set_selection(client_id, pane_id, selection).has_sound_clients(),
{
    server.lemma_with_client_keeps_clients_sound(
        client_id,
        server.client(client_id).with_selection(
            pane_id,
            server.stored_selection(pane_id, selection),
        ),
    );
}

/// Clearing a highlight leaves every client under its own id and in a running
/// session.
pub proof fn law_clearing_a_highlight_keeps_the_clients_sound(
    server: ServerModel,
    client_id: ClientId,
    pane_id: PaneId,
)
    requires
        server.has_sound_clients(),
        server.client_refusal(client_id, pane_id) is None,
    ensures
        server.after_clear_selection(client_id, pane_id).has_sound_clients(),
{
    server.lemma_with_client_keeps_clients_sound(
        client_id,
        server.client(client_id).without_selection(pane_id),
    );
}

/// A copy leaves every client under its own id and in a running session.
pub proof fn law_copying_keeps_the_clients_sound<
    F: Fn(&TextView, &Selection, bool) -> String,
>(
    before: ServerModel,
    after: ServerModel,
    client_id: ClientId,
    command_args: CopyArgs,
    serialize_selection_text: F,
)
    requires
        before.has_sound_clients(),
        is_after_copy(before, after, client_id, command_args, serialize_selection_text),
    ensures
        after.has_sound_clients(),
{
}

} // verus!
