//! What a command answers: the events it committed, or why it was refused.

use vstd::prelude::*;

use crate::command::Selection;
use crate::ids::{ClientId, CommandId, PaneId};

verus! {

/// A client's highlight in one pane is now `selection`, or is gone.
#[derive(Clone, Copy, Debug, PartialEq, Eq, Structural)]
pub struct SelectionChanged {
    pub client_id: ClientId,
    pub pane_id: PaneId,
    pub selection: Option<Selection>,
}

/// Something that happened in a session. Of the events that no highlight command
/// emits, only that they happened is kept here.
#[derive(Clone, Copy, Debug, PartialEq, Eq, Structural)]
pub enum Event {
    InputModeChanged,
    LayoutChanged,
    MouseSelectChanged,
    PaneClosing,
    PaneCreated,
    PaneFocused,
    PaneProcessExited,
    PaneRemoved,
    PtyResized,
    Quit,
    Restarting,
    SelectionChanged(SelectionChanged),
    TabClosed,
    TabCreated,
    TabFocused,
    TabMoved,
}

impl Event {
    /// The name of the event's variant.
    pub open spec fn event_name(self) -> Seq<char> {
        match self {
            Event::InputModeChanged => "InputModeChanged"@,
            Event::LayoutChanged => "LayoutChanged"@,
            Event::MouseSelectChanged => "MouseSelectChanged"@,
            Event::PaneClosing => "PaneClosing"@,
            Event::PaneCreated => "PaneCreated"@,
            Event::PaneFocused => "PaneFocused"@,
            Event::PaneProcessExited => "PaneProcessExited"@,
            Event::PaneRemoved => "PaneRemoved"@,
            Event::PtyResized => "PtyResized"@,
            Event::Quit => "Quit"@,
            Event::Restarting => "Restarting"@,
            Event::SelectionChanged(_) => "SelectionChanged"@,
            Event::TabClosed => "TabClosed"@,
            Event::TabCreated => "TabCreated"@,
            Event::TabFocused => "TabFocused"@,
            Event::TabMoved => "TabMoved"@,
        }
    }

    /// The name of the event's variant.
    pub fn get_event_name(&self) -> (r: &'static str)
        ensures
            r@ == self.event_name(),
    {
        match self {
            Event::InputModeChanged => "InputModeChanged",
            Event::LayoutChanged => "LayoutChanged",
            Event::MouseSelectChanged => "MouseSelectChanged",
            Event::PaneClosing => "PaneClosing",
            Event::PaneCreated => "PaneCreated",
            Event::PaneFocused => "PaneFocused",
            Event::PaneProcessExited => "PaneProcessExited",
            Event::PaneRemoved => "PaneRemoved",
            Event::PtyResized => "PtyResized",
            Event::Quit => "Quit",
            Event::Restarting => "Restarting",
            Event::SelectionChanged(_) => "SelectionChanged",
            Event::TabClosed => "TabClosed",
            Event::TabCreated => "TabCreated",
            Event::TabFocused => "TabFocused",
            Event::TabMoved => "TabMoved",
        }
    }
}

/// Why a command was refused.
#[derive(Clone, Copy, Debug, PartialEq, Eq, Structural)]
pub enum RejectReason {
    InvalidState,
    MinSize,
    SourceClientStale,
    TargetAmbiguous,
    TargetGone,
    TargetNotFound,
    Unauthorized,
}

/// A refusal, before it is matched to the command it answers.
#[derive(Debug, PartialEq, Eq)]
pub struct Rejection {
    pub reason: RejectReason,
    pub help: Option<String>,
}

/// A help text says `help`, or there is none on either side.
pub open spec fn is_help(text: Option<String>, help: Option<Seq<char>>) -> bool {
    match text {
        Some(text) => help == Some(text@),
        None => help is None,
    }
}

impl Rejection {
    /// The refusal gives that reason and that help text.
    pub open spec fn is_for(self, reason: RejectReason, help: Option<Seq<char>>) -> bool {
        self.reason == reason && is_help(self.help, help)
    }

    /// A refusal that carries no help text.
    pub fn from_reason(reason: RejectReason) -> (r: Rejection)
        ensures
            r == (Rejection { reason, help: None }),
    {
        Rejection { reason, help: None }
    }

    /// The refusal as the answer to the command `command_id`.
    pub fn into_command_result(self, command_id: CommandId) -> (r: CommandResult)
        ensures
            r == (CommandResult::Rejected { command_id, reason: self.reason, help: self.help }),
    {
        CommandResult::Rejected { command_id, reason: self.reason, help: self.help }
    }
}

/// The answer to a command.
#[derive(Debug, PartialEq, Eq)]
pub enum CommandResult {
    /// The command applied and emitted these events, in order.
    Applied { command_id: CommandId, emitted_events: Vec<Event> },
    /// The command was refused.
    Rejected { command_id: CommandId, reason: RejectReason, help: Option<String> },
}

impl CommandResult {
    /// The command `command_id` applied and emitted `events`, in order.
    pub open spec fn is_applied(self, command_id: CommandId, events: Seq<Event>) -> bool {
        self matches CommandResult::Applied { command_id: answered, emitted_events } && answered
            == command_id && emitted_events@ == events
    }

    /// The command `command_id` was refused for that reason, with that help text.
    pub open spec fn is_rejected(
        self,
        command_id: CommandId,
        reason: RejectReason,
        help: Option<Seq<char>>,
    ) -> bool {
        self matches CommandResult::Rejected { command_id: answered, reason: given, help: text }
            && answered == command_id && given == reason && is_help(text, help)
    }
}

/// Two outcomes are the same answer: the same refusal, or the same events for
/// the same command.
pub open spec fn is_same_answer(
    one: Result<CommandResult, Rejection>,
    other: Result<CommandResult, Rejection>,
) -> bool {
    match (one, other) {
        (
            Ok(CommandResult::Applied { command_id, emitted_events }),
            Ok(CommandResult::Applied { command_id: other_id, emitted_events: other_events }),
        ) => command_id == other_id && emitted_events@ == other_events@,
        _ => one == other,
    }
}

/// The variant name of each event in `event_records`, in order: a created pane
/// and a changed layout give `["PaneCreated", "LayoutChanged"]`.
pub fn list_event_names(event_records: &[Event]) -> (r: Vec<&'static str>)
    ensures
        r@.map_values(|name: &'static str| name@) == event_records@.map_values(
            |event: Event| event.event_name(),
        ),
{
    let mut event_names: Vec<&'static str> = Vec::new();
    let mut index: usize = 0;
    while index < event_records.len()
        invariant
            index <= event_records@.len(),
            event_names@.len() == index,
            forall|i: int|
                0 <= i < index ==> (#[trigger] event_names@[i])@ == event_records@[i].event_name(),
        decreases event_records@.len() - index,
    {
        event_names.push(event_records[index].get_event_name());
        index = index + 1;
    }
    assert(event_names@.map_values(|name: &'static str| name@) =~= event_records@.map_values(
        |event: Event| event.event_name(),
    ));
    event_names
}

/// What a command answered, without the ids that differ between two servers:
/// the names of the emitted events in order when it applied, or the reason and
/// help text when it was refused.
pub fn get_command_outcome(command_result: &CommandResult) -> (r: Result<
    Vec<&'static str>,
    (RejectReason, Option<&str>),
>)
    ensures
        match *command_result {
            CommandResult::Applied { emitted_events, .. } => r matches Ok(event_names)
                && event_names@.map_values(|name: &'static str| name@)
                == emitted_events@.map_values(|event: Event| event.event_name()),
            CommandResult::Rejected { reason, help, .. } => r matches Err(refusal) && refusal.0
                == reason && match help {
                Some(help_text) => refusal.1 matches Some(text) && text@ == help_text@,
                None => refusal.1 is None,
            },
        },
{
    match command_result {
        CommandResult::Applied { emitted_events, .. } => Ok(
            list_event_names(emitted_events.as_slice()),
        ),
        CommandResult::Rejected { reason, help, .. } => {
            let help_text = match help {
                Some(help_text) => Some(help_text.as_str()),
                None => None,
            };
            Err((*reason, help_text))
        },
    }
}

} // verus!
