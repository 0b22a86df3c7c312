//! Selection command handlers: the commands of visual mode.

use vstd::prelude::*;

use crate::command::{
    ClearSelectionArgs, CommandSource, CopyArgs, CopyTarget, Selection, SetSelectionArgs,
    VisualCommand,
};
use crate::ids::{ClientId, CommandId, PaneId};
use crate::outcome::{CommandResult, Event, RejectReason, Rejection, SelectionChanged};
use crate::server::{Server, ServerModel};
use crate::snap::snap_to_text;
use crate::text_view::TextView;

verus! {

/// The event that tells of a client's highlight in a pane.
pub open spec fn selection_event(
    client_id: ClientId,
    pane_id: PaneId,
    selection: Option<Selection>,
) -> Event {
    Event::SelectionChanged(SelectionChanged { client_id, pane_id, selection })
}

impl ServerModel {
    /// The server after `client_id` highlighted `selection` in `pane_id`.
    pub open spec fn after_set_selection(
        self,
        client_id: ClientId,
        pane_id: PaneId,
        selection: Selection,
    ) -> ServerModel {
        let stored = self.stored_selection(pane_id, selection);
        self.with_client(
            client_id,
            self.client(client_id).with_selection(pane_id, stored),
        ).with_events(seq![selection_event(client_id, pane_id, Some(stored))])
    }

    /// The server after `client_id` dropped its highlight in `pane_id`.
    pub open spec fn after_clear_selection(
        self,
        client_id: ClientId,
        pane_id: PaneId,
    ) -> ServerModel {
        self.with_client(
            client_id,
            self.client(client_id).without_selection(pane_id),
        ).with_events(seq![selection_event(client_id, pane_id, None)])
    }

    /// A copy reads text: the client has a highlight in the pane, and the pane
    /// has text.
    pub open spec fn has_text_to_copy(self, client_id: ClientId, pane_id: PaneId) -> bool {
        self.client(client_id).selection(pane_id) is Some && self.text_views.contains_key(
            pane_id.value,
        )
    }
}

/// `text` is what `serialize_selection_text` gives for the client's highlight in
/// the pane and the pane's text.
pub open spec fn is_copied_text<F: Fn(&TextView, &Selection, bool) -> String>(
    server: ServerModel,
    client_id: ClientId,
    command_args: CopyArgs,
    serialize_selection_text: F,
    text: Seq<char>,
) -> bool {
    exists|text_view: TextView, copied_text: String|
        {
            &&& text_view@ == server.text_views[command_args.pane_id.value]
            &&& #[trigger] call_ensures(
                serialize_selection_text,
                (
                    &text_view,
                    &server.client(client_id).selection(command_args.pane_id).unwrap(),
                    command_args.should_trim_trailing_whitespace,
                ),
                copied_text,
            )
            &&& copied_text@ == text
        }
}

/// `serialize_selection_text` gives one text for one highlight over one pane's
/// text.
pub open spec fn is_function_of_text<F: Fn(&TextView, &Selection, bool) -> String>(
    serialize_selection_text: F,
) -> bool {
    forall|
        one: TextView,
        other: TextView,
        selection: Selection,
        should_trim: bool,
        one_text: String,
        other_text: String,
    |
        one@ == other@ && #[trigger] call_ensures(
            serialize_selection_text,
            (&one, &selection, should_trim),
            one_text,
        ) && #[trigger] call_ensures(
            serialize_selection_text,
            (&other, &selection, should_trim),
            other_text,
        ) ==> one_text@ == other_text@
}

/// What a copy that is not refused does to the server: the highlighted text goes
/// to the clipboard the command names, and nothing else changes.
pub open spec fn is_after_copy<F: Fn(&TextView, &Selection, bool) -> String>(
    before: ServerModel,
    after: ServerModel,
    client_id: ClientId,
    command_args: CopyArgs,
    serialize_selection_text: F,
) -> bool {
    if before.has_text_to_copy(client_id, command_args.pane_id) {
        exists|text: Seq<char>| #[trigger]
            is_copied_text(before, client_id, command_args, serialize_selection_text, text)
                && after == before.with_copied_text(client_id, command_args.clipboard_target, text)
    } else {
        after == before
    }
}

/// A refused command is answered with the reason alone and changes nothing.
pub open spec fn is_refused_outcome(
    before: ServerModel,
    reason: RejectReason,
    outcome: Result<CommandResult, Rejection>,
    after: ServerModel,
) -> bool {
    &&& outcome == Err::<CommandResult, Rejection>(Rejection { reason, help: None })
    &&& after == before
}

/// What setting a highlight answers, and the server it leaves.
pub open spec fn is_set_selection_outcome(
    before: ServerModel,
    command_id: CommandId,
    command_source: CommandSource,
    command_args: SetSelectionArgs,
    outcome: Result<CommandResult, Rejection>,
    after: ServerModel,
) -> bool {
    let pane_id = command_args.pane_id;
    match before.refusal(command_source, pane_id) {
        Some(reason) => is_refused_outcome(before, reason, outcome, after),
        None => {
            let client_id = command_source.issuing_client_id().unwrap();
            let stored = before.stored_selection(pane_id, command_args.selection);
            &&& outcome matches Ok(command_result) && command_result.is_applied(
                command_id,
                seq![selection_event(client_id, pane_id, Some(stored))],
            )
            &&& after == before.after_set_selection(client_id, pane_id, command_args.selection)
        },
    }
}

/// What clearing a highlight answers, and the server it leaves.
pub open spec fn is_clear_selection_outcome(
    before: ServerModel,
    command_id: CommandId,
    command_source: CommandSource,
    command_args: ClearSelectionArgs,
    outcome: Result<CommandResult, Rejection>,
    after: ServerModel,
) -> bool {
    let pane_id = command_args.pane_id;
    match before.refusal(command_source, pane_id) {
        Some(reason) => is_refused_outcome(before, reason, outcome, after),
        None => {
            let client_id = command_source.issuing_client_id().unwrap();
            &&& outcome matches Ok(command_result) && command_result.is_applied(
                command_id,
                seq![selection_event(client_id, pane_id, None)],
            )
            &&& after == before.after_clear_selection(client_id, pane_id)
        },
    }
}

/// What a copy answers, and the server it leaves.
pub open spec fn is_copy_outcome<F: Fn(&TextView, &Selection, bool) -> String>(
    before: ServerModel,
    command_id: CommandId,
    command_source: CommandSource,
    command_args: CopyArgs,
    serialize_selection_text: F,
    outcome: Result<CommandResult, Rejection>,
    after: ServerModel,
) -> bool {
    match before.refusal(command_source, command_args.pane_id) {
        Some(reason) => is_refused_outcome(before, reason, outcome, after),
        None => {
            let client_id = command_source.issuing_client_id().unwrap();
            &&& outcome matches Ok(command_result) && command_result.is_applied(
                command_id,
                Seq::empty(),
            )
            &&& is_after_copy(before, after, client_id, command_args, serialize_selection_text)
        },
    }
}

/// What a visual command answers, and the server it leaves.
pub open spec fn is_visual_outcome<F: Fn(&TextView, &Selection, bool) -> String>(
    before: ServerModel,
    command_id: CommandId,
    command_source: CommandSource,
    visual_command: VisualCommand,
    serialize_selection_text: F,
    outcome: Result<CommandResult, Rejection>,
    after: ServerModel,
) -> bool {
    match visual_command {
        VisualCommand::SetSelection(command_args) => is_set_selection_outcome(
            before,
            command_id,
            command_source,
            command_args,
            outcome,
            after,
        ),
        VisualCommand::ClearSelection(command_args) => is_clear_selection_outcome(
            before,
            command_id,
            command_source,
            command_args,
            outcome,
            after,
        ),
        VisualCommand::Copy(command_args) => is_copy_outcome(
            before,
            command_id,
            command_source,
            command_args,
            serialize_selection_text,
            outcome,
            after,
        ),
    }
}

/// The command line has no word for the command.
pub open spec fn is_refused_from_cli(
    command_source: CommandSource,
    visual_command: VisualCommand,
) -> bool {
    command_source.is_cli() && visual_command is Copy
}

impl ServerModel {
    /// Why a command from `command_source` is refused whatever it asks for, and
    /// the help text that goes with it. A command line run inside a pane speaks
    /// for that pane: its session must run here and still hold the pane.
    pub open spec fn source_refusal(self, command_source: CommandSource) -> Option<
        (RejectReason, Option<Seq<char>>),
    > {
        match command_source {
            CommandSource::InSessionCli { session_id, pane_id, .. } => {
                if !self.sessions.contains_key(session_id.value) {
                    Some((RejectReason::TargetNotFound, None))
                } else if !self.session_has_pane(session_id, pane_id) {
                    Some((RejectReason::TargetGone, Some("source pane no longer exists"@)))
                } else {
                    None
                }
            },
            _ => None,
        }
    }

    /// Why a visual command is refused, if it is, and the help text that goes with
    /// it. What the command line has no word for is refused before any state is
    /// read, and a source that is gone before the command's own target is looked
    /// up.
    pub open spec fn command_refusal(
        self,
        command_source: CommandSource,
        visual_command: VisualCommand,
    ) -> Option<(RejectReason, Option<Seq<char>>)> {
        if is_refused_from_cli(command_source, visual_command) {
            Some((RejectReason::Unauthorized, Some("command cannot be issued from the CLI"@)))
        } else if self.source_refusal(command_source) is Some {
            self.source_refusal(command_source)
        } else {
            match self.refusal(command_source, visual_command.pane_id()) {
                Some(reason) => Some((reason, None)),
                None => None,
            }
        }
    }
}

/// What a dispatched visual command answers, and the server it leaves: the refusal
/// and an unchanged server, or what its handler gives.
pub open spec fn is_dispatch_outcome<F: Fn(&TextView, &Selection, bool) -> String>(
    before: ServerModel,
    command_id: CommandId,
    command_source: CommandSource,
    visual_command: VisualCommand,
    serialize_selection_text: F,
    command_result: CommandResult,
    after: ServerModel,
) -> bool {
    match before.command_refusal(command_source, visual_command) {
        Some((reason, help)) => {
            &&& command_result.is_rejected(command_id, reason, help)
            &&& after == before
        },
        None => is_visual_outcome(
            before,
            command_id,
            command_source,
            visual_command,
            serialize_selection_text,
            Ok(command_result),
            after,
        ),
    }
}

impl Server {
    /// Answer a visual command: refuse it where it may not run, and hand it to
    /// [`Server::handle_visual`] otherwise.
    pub fn dispatch_visual<F: Fn(&TextView, &Selection, bool) -> String>(
        &mut self,
        command_id: CommandId,
        command_source: &CommandSource,
        visual_command: &VisualCommand,
        serialize_selection_text: &F,
    ) -> (r: CommandResult)
        requires
            forall|text_view: &TextView, selection: &Selection, should_trim: bool|
                call_requires(*serialize_selection_text, (text_view, selection, should_trim)),
        ensures
            is_dispatch_outcome(
                old(self)@,
                command_id,
                *command_source,
                *visual_command,
                *serialize_selection_text,
                r,
                final(self)@,
            ),
    {
        if let Err(rejection) = self.validate_command(command_source, visual_command) {
            return rejection.into_command_result(command_id);
        }
        match self.handle_visual(
            command_id,
            command_source,
            visual_command,
            serialize_selection_text,
        ) {
            Ok(command_result) => command_result,
            Err(rejection) => rejection.into_command_result(command_id),
        }
    }

    /// Confirm that the command may run: that it may come from its source, that
    /// the source is still there, that the source names an attached client, and
    /// that the client's session holds the pane the command names.
    pub fn validate_command(
        &self,
        command_source: &CommandSource,
        visual_command: &VisualCommand,
    ) -> (r: Result<(), Rejection>)
        ensures
            match self@.command_refusal(*command_source, *visual_command) {
                Some((reason, help)) => r matches Err(rejection) && rejection.is_for(reason, help),
                None => r == Ok::<(), Rejection>(()),
            },
    {
        if let Err(rejection) = Self::validate_cli_admission(command_source, visual_command) {
            return Err(rejection);
        }
        if let Err(rejection) = self.validate_source_exists(command_source) {
            return Err(rejection);
        }
        match Self::resolve_issuing_client_id(command_source) {
            Ok(client_id) => self.validate_pane_exists(client_id, visual_command.get_pane_id()),
            Err(rejection) => Err(rejection),
        }
    }

    /// Confirm that the command may come from its source: the command line has no
    /// word for a copy.
    pub fn validate_cli_admission(
        command_source: &CommandSource,
        visual_command: &VisualCommand,
    ) -> (r: Result<(), Rejection>)
        ensures
            if is_refused_from_cli(*command_source, *visual_command) {
                r matches Err(rejection) && rejection.is_for(
                    RejectReason::Unauthorized,
                    Some("command cannot be issued from the CLI"@),
                )
            } else {
                r == Ok::<(), Rejection>(())
            },
    {
        match visual_command {
            VisualCommand::Copy(_) if command_source.is_from_cli() => Err(
                Rejection {
                    reason: RejectReason::Unauthorized,
                    help: Some("command cannot be issued from the CLI".to_string()),
                },
            ),
            _ => Ok(()),
        }
    }

    /// Confirm that the session and the pane that an in-session command line was
    /// run in are still there.
    pub fn validate_source_exists(&self, command_source: &CommandSource) -> (r: Result<
        (),
        Rejection,
    >)
        ensures
            match self@.source_refusal(*command_source) {
                Some((reason, help)) => r matches Err(rejection) && rejection.is_for(reason, help),
                None => r == Ok::<(), Rejection>(()),
            },
    {
        match command_source {
            CommandSource::InSessionCli { session_id, pane_id, .. } => {
                match self.is_pane_in_session(*session_id, *pane_id) {
                    Some(true) => Ok(()),
                    Some(false) => Err(
                        Rejection {
                            reason: RejectReason::TargetGone,
                            help: Some("source pane no longer exists".to_string()),
                        },
                    ),
                    None => Err(Rejection::from_reason(RejectReason::TargetNotFound)),
                }
            },
            _ => Ok(()),
        }
    }

    /// Route a visual command to its handler.
    ///
    /// Every variant acts on the issuing client's own highlights: a highlight
    /// belongs to one client, and a gone issuer takes its highlights with it.
    /// `serialize_selection_text` reads the text under a highlight out of a
    /// pane's text, with or without the blanks that pad each row.
    pub fn handle_visual<F: Fn(&TextView, &Selection, bool) -> String>(
        &mut self,
        command_id: CommandId,
        command_source: &CommandSource,
        visual_command: &VisualCommand,
        serialize_selection_text: &F,
    ) -> (r: Result<CommandResult, Rejection>)
        requires
            forall|text_view: &TextView, selection: &Selection, should_trim: bool|
                call_requires(*serialize_selection_text, (text_view, selection, should_trim)),
        ensures
            is_visual_outcome(
                old(self)@,
                command_id,
                *command_source,
                *visual_command,
                *serialize_selection_text,
                r,
                final(self)@,
            ),
    {
        match visual_command {
            VisualCommand::SetSelection(command_args) => self.handle_set_selection(
                command_id,
                command_source,
                command_args,
            ),
            VisualCommand::ClearSelection(command_args) => self.handle_clear_selection(
                command_id,
                command_source,
                command_args,
            ),
            VisualCommand::Copy(command_args) => self.handle_copy(
                command_id,
                command_source,
                command_args,
                serialize_selection_text,
            ),
        }
    }

    /// Highlight `command_args.selection` in `command_args.pane_id` for the
    /// issuing client, replacing any highlight it had there.
    ///
    /// Only this client's highlight in this one pane moves: its highlights in
    /// other panes, and every other client's, are untouched. Highlighting also
    /// holds this client's view of the pane, so output arriving underneath
    /// cannot drag the highlighted text off the screen.
    ///
    /// A word or line highlight is grown here, not by the caller. The pointer
    /// names two cells. Both ends grow away from each other, so the pair covers
    /// the text between them however the drag runs.
    ///
    /// A pane that the client's session does not hold is
    /// [`RejectReason::TargetGone`].
    pub fn handle_set_selection(
        &mut self,
        command_id: CommandId,
        command_source: &CommandSource,
        command_args: &SetSelectionArgs,
    ) -> (r: Result<CommandResult, Rejection>)
        ensures
            is_set_selection_outcome(
                old(self)@,
                command_id,
                *command_source,
                *command_args,
                r,
                final(self)@,
            ),
    {
        let client_id = match Self::resolve_issuing_client_id(command_source) {
            Ok(client_id) => client_id,
            Err(rejection) => {
                return Err(rejection);
            },
        };
        if let Err(rejection) = self.validate_pane_exists(client_id, command_args.pane_id) {
            return Err(rejection);
        }
        let selection = self.snap_selection(command_args.pane_id, command_args.selection);
        match self.get_client_mut(client_id) {
            Some(client) => client.set_selection(command_args.pane_id, selection),
            None => {
                return Err(Rejection::from_reason(RejectReason::SourceClientStale));
            },
        }
        let selection_changed = SelectionChanged {
            client_id,
            pane_id: command_args.pane_id,
            selection: Some(selection),
        };
        let events: Vec<Event> = vec![Event::SelectionChanged(selection_changed)];
        assert(events@ =~= seq![selection_event(client_id, command_args.pane_id, Some(selection))]);
        Ok(self.commit_events(command_id, events))
    }

    /// `selection` with each end pulled onto the cell its glyph really lives in,
    /// and then, for a word or line selection, grown outward to whole words or
    /// whole lines. A pane with no terminal text comes back untouched.
    pub fn snap_selection(&self, pane_id: PaneId, selection: Selection) -> (r: Selection)
        ensures
            r == self@.stored_selection(pane_id, selection),
    {
        match self.get_text_view(pane_id) {
            Some(text_view) => snap_to_text(text_view, selection),
            None => selection,
        }
    }

    /// Put the issuing client's highlight in `command_args.pane_id` on the
    /// clipboard, leaving the highlight standing.
    ///
    /// The text is read at this instant from the pane's own lines, not from what
    /// is on screen, so a highlight running off the top of the view copies
    /// whole. `command_args.clipboard_target` says which clipboard receives it.
    ///
    /// A pane with no highlight, or one whose highlight covers no text, copies
    /// nothing and is not an error.
    pub fn handle_copy<F: Fn(&TextView, &Selection, bool) -> String>(
        &mut self,
        command_id: CommandId,
        command_source: &CommandSource,
        command_args: &CopyArgs,
        serialize_selection_text: &F,
    ) -> (r: Result<CommandResult, Rejection>)
        requires
            forall|text_view: &TextView, selection: &Selection, should_trim: bool|
                call_requires(*serialize_selection_text, (text_view, selection, should_trim)),
        ensures
            is_copy_outcome(
                old(self)@,
                command_id,
                *command_source,
                *command_args,
                *serialize_selection_text,
                r,
                final(self)@,
            ),
    {
        let client_id = match Self::resolve_issuing_client_id(command_source) {
            Ok(client_id) => client_id,
            Err(rejection) => {
                return Err(rejection);
            },
        };
        if let Err(rejection) = self.validate_pane_exists(client_id, command_args.pane_id) {
            return Err(rejection);
        }
        let selection = match self.get_client(client_id) {
            Some(client) => client.get_selection(command_args.pane_id),
            None => {
                return Err(Rejection::from_reason(RejectReason::SourceClientStale));
            },
        };
        let copied_text = match (selection, self.get_text_view(command_args.pane_id)) {
            (Some(selection), Some(text_view)) => {
                let copied_text = serialize_selection_text(
                    text_view,
                    &selection,
                    command_args.should_trim_trailing_whitespace,
                );
                assert(is_copied_text(
                    old(self)@,
                    client_id,
                    *command_args,
                    *serialize_selection_text,
                    copied_text@,
                ));
                copied_text
            },
            _ => String::new(),
        };
        Ok(self.finish_copy(command_id, client_id, command_args.clipboard_target, copied_text))
    }

    /// Answer a copy whose highlight reads `copied_text`: any text goes to the
    /// clipboard, and none goes nowhere.
    pub fn finish_copy(
        &mut self,
        command_id: CommandId,
        client_id: ClientId,
        clipboard_target: CopyTarget,
        copied_text: String,
    ) -> (r: CommandResult)
        ensures
            r.is_applied(command_id, Seq::empty()),
            final(self)@ == old(self)@.with_copied_text(client_id, clipboard_target, copied_text@),
    {
        if !copied_text.as_str().is_empty() {
            self.copy_to_clipboard(client_id, clipboard_target, copied_text);
        }
        self.commit_events(command_id, vec![])
    }

    /// Drop the issuing client's highlight in `command_args.pane_id`, leaving
    /// visual mode for that pane.
    ///
    /// Clearing a pane with no highlight changes no highlight and is not an
    /// error.
    ///
    /// Dropping the highlight releases the hold it had on the view, so a view at
    /// the live bottom follows new output again. A view that had also been
    /// scrolled up stays held by the offset.
    ///
    /// A pane that the client's session does not hold is
    /// [`RejectReason::TargetGone`].
    pub fn handle_clear_selection(
        &mut self,
        command_id: CommandId,
        command_source: &CommandSource,
        command_args: &ClearSelectionArgs,
    ) -> (r: Result<CommandResult, Rejection>)
        ensures
            is_clear_selection_outcome(
                old(self)@,
                command_id,
                *command_source,
                *command_args,
                r,
                final(self)@,
            ),
    {
        let client_id = match Self::resolve_issuing_client_id(command_source) {
            Ok(client_id) => client_id,
            Err(rejection) => {
                return Err(rejection);
            },
        };
        if let Err(rejection) = self.validate_pane_exists(client_id, command_args.pane_id) {
            return Err(rejection);
        }
        match self.get_client_mut(client_id) {
            Some(client) => client.clear_selection(command_args.pane_id),
            None => {
                return Err(Rejection::from_reason(RejectReason::SourceClientStale));
            },
        }
        let selection_changed = SelectionChanged {
            client_id,
            pane_id: command_args.pane_id,
            selection: None,
        };
        let events: Vec<Event> = vec![Event::SelectionChanged(selection_changed)];
        assert(events@ =~= seq![selection_event(client_id, command_args.pane_id, None)]);
        Ok(self.commit_events(command_id, events))
    }
}

} // verus!
