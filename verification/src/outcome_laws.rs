//! What answers and events say of themselves.

use vstd::prelude::*;

use crate::ids::CommandId;
use crate::outcome::{
    get_command_outcome, list_event_names, CommandResult, Event, RejectReason, Rejection,
};

verus! {

/// An event goes by the name of its variant, whatever it carries.
pub proof fn law_an_event_goes_by_the_name_of_its_variant(event: &Event, name: &'static str)
    requires
        call_ensures(Event::get_event_name, (event,), name),
    ensures
        match *event {
            Event::InputModeChanged => name@ == "InputModeChanged"@,
            Event::LayoutChanged => name@ == "LayoutChanged"@,
            Event::MouseSelectChanged => name@ == "MouseSelectChanged"@,
            Event::PaneClosing => name@ == "PaneClosing"@,
            Event::PaneCreated => name@ == "PaneCreated"@,
            Event::PaneFocused => name@ == "PaneFocused"@,
            Event::PaneProcessExited => name@ == "PaneProcessExited"@,
            Event::PaneRemoved => name@ == "PaneRemoved"@,
            Event::PtyResized => name@ == "PtyResized"@,
            Event::Quit => name@ == "Quit"@,
            Event::Restarting => name@ == "Restarting"@,
            Event::SelectionChanged(_) => name@ == "SelectionChanged"@,
            Event::TabClosed => name@ == "TabClosed"@,
            Event::TabCreated => name@ == "TabCreated"@,
            Event::TabFocused => name@ == "TabFocused"@,
            Event::TabMoved => name@ == "TabMoved"@,
        },
{
}

/// The names of a run of events are the names of each, in order.
pub proof fn law_events_are_named_one_for_one(
    event_records: &[Event],
    event_names: Vec<&'static str>,
    index: int,
    name: &'static str,
)
    requires
        call_ensures(list_event_names, (event_records,), event_names),
        0 <= index < event_records@.len(),
        call_ensures(Event::get_event_name, (&event_records@[index],), name),
    ensures
        event_names@.len() == event_records@.len(),
        event_names@[index]@ == name@,
{
    let said = event_names@.map_values(|said_name: &'static str| said_name@);
    assert(said.len() == event_records@.len());
    assert(said[index] == event_names@[index]@);
}

/// No events have no names.
pub proof fn law_no_events_have_no_names(event_records: &[Event], event_names: Vec<&'static str>)
    requires
        call_ensures(list_event_names, (event_records,), event_names),
        event_records@.len() == 0,
    ensures
        event_names@.len() == 0,
{
    let said = event_names@.map_values(|said_name: &'static str| said_name@);
    assert(said.len() == 0);
}

/// What an applied command comes to is the names of its events, in order, and what
/// a refused one comes to is its reason and help. Which command it was plays no
/// part.
pub proof fn law_an_outcome_is_the_answer_without_its_command(
    command_result: &CommandResult,
    outcome: Result<Vec<&'static str>, (RejectReason, Option<&str>)>,
    index: int,
    name: &'static str,
)
    requires
        call_ensures(get_command_outcome, (command_result,), outcome),
    ensures
        match *command_result {
            CommandResult::Applied { emitted_events, .. } => {
                &&& outcome is Ok
                &&& outcome->Ok_0@.len() == emitted_events@.len()
                &&& 0 <= index < emitted_events@.len() && call_ensures(
                    Event::get_event_name,
                    (&emitted_events@[index],),
                    name,
                ) ==> outcome->Ok_0@[index]@ == name@
            },
            CommandResult::Rejected { reason, help, .. } => {
                &&& outcome is Err
                &&& outcome->Err_0.0 == reason
                &&& help is Some <==> outcome->Err_0.1 is Some
                &&& help is Some ==> outcome->Err_0.1->0@ == help->0@
            },
        },
{
    if let CommandResult::Applied { emitted_events, .. } = *command_result {
        let said = outcome->Ok_0@.map_values(|said_name: &'static str| said_name@);
        assert(said.len() == emitted_events@.len());
        if 0 <= index < emitted_events@.len() {
            assert(said[index] == outcome->Ok_0@[index]@);
        }
    }
}

/// A refusal without help answers its command with that reason and no help.
pub proof fn law_a_refusal_answers_its_command(
    reason: RejectReason,
    rejection: Rejection,
    command_id: CommandId,
    answer: CommandResult,
)
    requires
        call_ensures(Rejection::from_reason, (reason,), rejection),
        call_ensures(Rejection::into_command_result, (rejection, command_id), answer),
    ensures
        answer == (CommandResult::Rejected { command_id, reason, help: None }),
{
}

} // verus!
