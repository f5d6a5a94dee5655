//! The lifecycle events of a run, for whoever reports them.
use crate::model::TaAction;
use vstd::prelude::*;

verus! {

/// Something that happened in the office.
#[derive(Clone, Copy, Debug, PartialEq, Eq, Structural)]
pub enum Event {
    /// The student arrived and asked for a chair.
    Arrival(usize),
    /// The student got a chair.
    Admitted(usize),
    /// The student found no chair and left.
    Rejected(usize),
    /// The TA started a session with the student.
    SessionStart(usize),
    /// The TA ended its session with the student.
    SessionEnd(usize),
    /// Every student has had all its sessions.
    AllDone,
}

/// The events of an admission attempt, in order.
pub open spec fn admission_events_of(student_id: usize, admitted: bool) -> Seq<Event> {
    seq![
        Event::Arrival(student_id),
        if admitted {
            Event::Admitted(student_id)
        } else {
            Event::Rejected(student_id)
        },
    ]
}

/// The event of a step of the TA, if the step is one to report.
pub open spec fn ta_event_of(action: TaAction) -> Option<Event> {
    match action {
        TaAction::Help(id) => Some(Event::SessionStart(id)),
        TaAction::Dismiss(id) => Some(Event::SessionEnd(id)),
        TaAction::Finish => Some(Event::AllDone),
        TaAction::Sleep => None,
    }
}

/// The events of an admission attempt, in order: the arrival, then the
/// admission or the rejection.
pub fn admission_events(student_id: usize, admitted: bool) -> (events: Vec<Event>)
    ensures
        events@ == admission_events_of(student_id, admitted),
{
    let mut events: Vec<Event> = Vec::new();
    events.push(Event::Arrival(student_id));
    if admitted {
        events.push(Event::Admitted(student_id));
    } else {
        events.push(Event::Rejected(student_id));
    }
    assert(events@ =~= admission_events_of(student_id, admitted));
    events
}

/// The event of a step of the TA: a session's start, a session's end, or
/// that all are done. Falling asleep is not reported.
pub fn ta_event(action: TaAction) -> (event: Option<Event>)
    ensures
        event == ta_event_of(action),
{
    match action {
        TaAction::Help(id) => Some(Event::SessionStart(id)),
        TaAction::Dismiss(id) => Some(Event::SessionEnd(id)),
        TaAction::Finish => Some(Event::AllDone),
        TaAction::Sleep => None,
    }
}

} // verus!
