//! What holds of every office, in every run.
//!
//! Each law is stated over the mathematical state machine, for every well
//! formed state and every step, and so for every state that any interleaving
//! of students and TA can reach from a fresh office.
use crate::model::{holds_chair, OfficeView, Step, StudentState, TaAction, TaState};
use crate::safety::{lemma_init_wf, lemma_next_wf, lemma_run_wf, lemma_ta_step_wf};
use vstd::prelude::*;

verus! {

/// Chairs are conserved: those free and those taken add up to the capacity.
/// So the students who occupy a chair or are being served never outnumber the
/// chairs, and the queue, the student in session and those about to leave are
/// the ones who hold them.
pub proof fn lemma_occupancy_bounded(s: OfficeView)
    requires
        s.wf(),
    ensures
        s.occupancy() == s.capacity - s.chairs_available,
        s.occupancy() == s.waiting.len() + s.in_session() + s.leaving().len(),
        s.waiting.len() + s.in_session() <= s.occupancy() <= s.capacity,
        s.occupancy() < s.capacity + 1,
{
}

/// In every run from a fresh office, at every instant, the students who
/// occupy a chair or are being served never outnumber the chairs.
pub proof fn lemma_occupancy_bounded_in_every_run(
    roster_size: usize,
    capacity: usize,
    sessions_required: usize,
    steps: Seq<Step>,
)
    ensures
        OfficeView::init(roster_size, capacity, sessions_required).run(steps).wf(),
        OfficeView::init(roster_size, capacity, sessions_required).run(steps).occupancy()
            <= capacity,
        OfficeView::init(roster_size, capacity, sessions_required).run(steps).waiting.len()
            <= capacity,
{
    let start = OfficeView::init(roster_size, capacity, sessions_required);
    lemma_init_wf(roster_size, capacity, sessions_required);
    lemma_run_wf(start, steps);
    lemma_configuration_is_fixed_in_run(start, steps);
    lemma_occupancy_bounded(start.run(steps));
}

/// No step changes the number of chairs, the roster, or what a student needs.
pub proof fn lemma_configuration_is_fixed(s: OfficeView, step: Step)
    requires
        s.wf(),
    ensures
        s.next(step).capacity == s.capacity,
        s.next(step).sessions_required == s.sessions_required,
        s.next(step).students.len() == s.students.len(),
        s.next(step).sessions_done.len() == s.sessions_done.len(),
{
}

/// No run changes the number of chairs, the roster, or what a student needs.
pub proof fn lemma_configuration_is_fixed_in_run(s: OfficeView, steps: Seq<Step>)
    requires
        s.wf(),
    ensures
        s.run(steps).capacity == s.capacity,
        s.run(steps).sessions_required == s.sessions_required,
        s.run(steps).students.len() == s.students.len(),
        s.run(steps).sessions_done.len() == s.sessions_done.len(),
    decreases steps.len(),
{
    if steps.len() > 0 {
        lemma_configuration_is_fixed_in_run(s, steps.drop_last());
        lemma_run_wf(s, steps.drop_last());
        lemma_configuration_is_fixed(s.run(steps.drop_last()), steps.last());
    }
}

/// No step takes a session away from a student, a step adds at most one, and
/// no student ever has more sessions than it needs.
pub proof fn lemma_sessions_monotone(s: OfficeView, step: Step, id: int)
    requires
        s.wf(),
        0 <= id < s.roster_size(),
    ensures
        s.next(step).roster_size() == s.roster_size(),
        s.next(step).sessions_required == s.sessions_required,
        s.sessions_done[id] <= s.next(step).sessions_done[id] <= s.sessions_done[id] + 1,
        s.next(step).sessions_done[id] <= s.sessions_required,
{
    lemma_next_wf(s, step);
    assert(s.ledger_matches(id));
    assert(s.next(step).ledger_matches(id));
    match step {
        Step::TaWork => {
            match s.ta {
                TaState::Helping(who) => {
                    assert(s.ledger_matches(who as int));
                },
                _ => {},
            }
        },
        _ => {},
    }
}

/// Over a whole run the session count of a student never goes down and never
/// passes what the student needs.
pub proof fn lemma_sessions_monotone_in_run(s: OfficeView, steps: Seq<Step>, id: int)
    requires
        s.wf(),
        0 <= id < s.roster_size(),
    ensures
        s.run(steps).roster_size() == s.roster_size(),
        s.run(steps).sessions_required == s.sessions_required,
        s.sessions_done[id] <= s.run(steps).sessions_done[id] <= s.sessions_required,
    decreases steps.len(),
{
    assert(s.ledger_matches(id));
    if steps.len() > 0 {
        lemma_sessions_monotone_in_run(s, steps.drop_last(), id);
        lemma_run_wf(s, steps.drop_last());
        lemma_sessions_monotone(s.run(steps.drop_last()), steps.last(), id);
    }
}

/// Once the TA has finished, every student has exactly the sessions it needs.
pub proof fn lemma_finished_means_exact(s: OfficeView, id: int)
    requires
        s.wf(),
        s.ta == TaState::Finished,
        0 <= id < s.roster_size(),
    ensures
        s.sessions_done[id] == s.sessions_required,
{
    assert(s.ledger_matches(id));
    assert(s.sessions_done[id] >= s.sessions_required);
}

/// A student that is done has exactly the sessions it needs.
pub proof fn lemma_done_means_exact(s: OfficeView, id: int)
    requires
        s.wf(),
        0 <= id < s.roster_size(),
        s.students[id] == StudentState::Done || s.is_done(id),
    ensures
        s.sessions_done[id] == s.sessions_required,
{
    assert(s.ledger_matches(id));
}

/// While the TA sleeps nobody is queued and nobody is in session.
pub proof fn lemma_asleep_means_nobody_waits(s: OfficeView)
    requires
        s.wf(),
        s.ta == TaState::Asleep,
    ensures
        s.waiting.len() == 0,
        s.serving() is None,
{
}

/// The TA falls asleep only by its own step, and only with an empty queue.
pub proof fn lemma_sleeps_only_on_empty_queue(s: OfficeView, step: Step)
    requires
        s.wf(),
        s.ta != TaState::Asleep,
        s.next(step).ta == TaState::Asleep,
    ensures
        step == Step::TaWork,
        s.waiting.len() == 0,
        s.next(step).waiting.len() == 0,
{
}

/// An admission wakes a sleeping TA: after it the TA is awake, the student
/// sits at the back of the queue, and the TA's next step is not to fall
/// asleep.
pub proof fn lemma_admission_wakes_ta(s: OfficeView, id: usize)
    requires
        s.wf(),
        s.can_admit(id),
    ensures
        s.seek_help(id).ta_awake(),
        s.seek_help(id).waiting.last() == id,
        s.seek_help(id).ta_step().ta != TaState::Asleep,
{
}

/// First admitted, first served: read in order, the admissions are the
/// session starts followed by the queue. So the student admitted in place
/// `i` is the one whose session starts in place `i`, and of two students who
/// have both been called, the one admitted earlier started earlier.
pub proof fn lemma_fifo(s: OfficeView)
    requires
        s.wf(),
    ensures
        s.admitted == s.started + s.waiting,
        s.started.len() <= s.admitted.len(),
        forall|i: int| 0 <= i < s.started.len() ==> #[trigger] s.started[i] == s.admitted[i],
        forall|i: int|
            0 <= i < s.waiting.len() ==> #[trigger] s.waiting[i] == s.admitted[s.started.len()
                + i],
{
}

/// A step records an admission exactly when it admits, at the back, and a
/// session start exactly when the TA calls the front of the queue.
pub proof fn lemma_history_records_steps(s: OfficeView, step: Step)
    requires
        s.wf(),
    ensures
        s.next(step).admitted == match step {
            Step::SeekHelp(id) if s.can_admit(id) => s.admitted.push(id),
            _ => s.admitted,
        },
        s.next(step).started == match step {
            Step::TaWork if s.ta == TaState::Scanning && s.waiting.len() > 0 => s.started.push(
                s.waiting[0],
            ),
            _ => s.started,
        },
{
}

/// A student's turn is over exactly after a full session of its own: the
/// only step that lets a student leave is the TA's step that ends the session
/// with that very student, and that step adds one to the student's count.
pub proof fn lemma_turn_ends_with_own_session(s: OfficeView, step: Step, id: usize)
    requires
        s.wf(),
        !s.can_leave(id),
        s.next(step).can_leave(id),
    ensures
        step == Step::TaWork,
        s.ta == TaState::Helping(id),
        s.next(step).sessions_done[id as int] == s.sessions_done[id as int] + 1,
        s.next(step).serving() is None,
{
    match step {
        Step::TaWork => {
            match s.ta {
                TaState::Helping(who) => {
                    assert(s.ledger_matches(who as int));
                },
                _ => {},
            }
        },
        _ => {},
    }
}

/// A chair is given back once: the student who leaves adds one free chair,
/// and cannot leave again before it has been admitted and helped anew.
pub proof fn lemma_chair_is_released_once(s: OfficeView, id: usize)
    requires
        s.wf(),
        s.can_leave(id),
    ensures
        s.leave(id).chairs_available == s.chairs_available + 1,
        !s.leave(id).can_leave(id),
        s.leave(id).leave(id) == s.leave(id),
        !holds_chair(s.leave(id).students[id as int]),
{
}

/// A student that is turned away leaves no trace, and so does one that asks
/// while it is queued, in session, about to leave, done, or off the roster.
pub proof fn lemma_rejection_changes_nothing(s: OfficeView, id: usize)
    requires
        !s.can_admit(id),
    ensures
        s.seek_help(id) == s,
{
}

/// A student that has had all its sessions is never admitted again.
pub proof fn lemma_done_student_is_not_admitted(s: OfficeView, id: usize)
    requires
        s.wf(),
        s.is_done(id as int),
    ensures
        !s.can_admit(id),
        s.seek_help(id) == s,
{
    assert(s.ledger_matches(id as int));
}

/// What a student does in one go is one step of the protocol.
pub proof fn lemma_student_step_is_a_step(s: OfficeView, id: usize)
    ensures
        s.student_step(id) == if (id as int) < s.students.len() && s.students[id as int]
            == StudentState::Helped {
            s.next(Step::Leave(id))
        } else {
            s.next(Step::SeekHelp(id))
        },
{
}

/// Stepping first and running then is running the longer sequence.
pub proof fn lemma_run_after_step(s: OfficeView, step: Step, steps: Seq<Step>)
    ensures
        s.next(step).run(steps) == s.run(seq![step] + steps),
    decreases steps.len(),
{
    let all = seq![step] + steps;
    if steps.len() == 0 {
        assert(all.drop_last() =~= Seq::<Step>::empty());
        assert(s.run(all.drop_last()) == s);
    } else {
        lemma_run_after_step(s, step, steps.drop_last());
        assert(all.drop_last() =~= seq![step] + steps.drop_last());
    }
}

/// What the TA does until it rests is a run of steps of the TA.
pub proof fn lemma_ta_run_is_a_run(s: OfficeView) -> (steps: Seq<Step>)
    ensures
        s.ta_run() == s.run(steps),
        forall|i: int| 0 <= i < steps.len() ==> steps[i] == Step::TaWork,
    decreases 2 * s.waiting.len() + s.in_session(),
{
    if s.ta_rests() {
        let steps = seq![Step::TaWork];
        assert(steps.drop_last() =~= Seq::<Step>::empty());
        assert(s.run(steps.drop_last()) == s);
        steps
    } else {
        let rest = lemma_ta_run_is_a_run(s.ta_step());
        lemma_run_after_step(s, Step::TaWork, rest);
        seq![Step::TaWork] + rest
    }
}

/// Once a student is done it stays done, whatever happens next.
pub proof fn lemma_done_is_stable(s: OfficeView, step: Step, id: int)
    requires
        s.wf(),
        s.is_done(id),
    ensures
        s.next(step).is_done(id),
{
    lemma_sessions_monotone(s, step, id);
    lemma_next_wf(s, step);
}

/// Once a student is done it stays done through every run.
pub proof fn lemma_done_is_stable_in_run(s: OfficeView, steps: Seq<Step>, id: int)
    requires
        s.wf(),
        s.is_done(id),
    ensures
        s.run(steps).is_done(id),
{
    lemma_sessions_monotone_in_run(s, steps, id);
    lemma_run_wf(s, steps);
}

/// When everybody is done nobody is queued or in session, so a TA that
/// stops leaves no student behind.
pub proof fn lemma_all_done_means_nobody_waits(s: OfficeView)
    requires
        s.wf(),
        s.all_done(),
    ensures
        s.waiting.len() == 0,
        s.serving() is None,
{
    if s.waiting.len() > 0 {
        let id = s.waiting[0];
        assert(s.ledger_matches(id as int));
        assert(s.sessions_done[id as int] >= s.sessions_required);
    }
    match s.ta {
        TaState::Helping(id) => {
            assert(s.ledger_matches(id as int));
            assert(s.sessions_done[id as int] >= s.sessions_required);
        },
        _ => {},
    }
}

/// A TA that works until it rests serves the whole queue in order: it ends
/// up asleep or finished with nobody queued, the sessions it started are
/// those of the students who were queued, front first, and nobody was
/// admitted or left meanwhile.
pub proof fn lemma_ta_run_serves_queue_in_order(s: OfficeView)
    requires
        s.wf(),
    ensures
        s.ta_run().wf(),
        s.ta_run().waiting.len() == 0,
        s.ta_run().started == s.started + s.waiting,
        s.ta_run().admitted == s.admitted,
        s.ta_run().ta == TaState::Asleep || s.ta_run().ta == TaState::Finished,
        s.ta_run_action() == if s.ta_run().ta == TaState::Finished {
            TaAction::Finish
        } else {
            TaAction::Sleep
        },
    decreases 2 * s.waiting.len() + s.in_session(),
{
    lemma_ta_step_wf(s);
    if s.ta_rests() {
        if s.ta == TaState::Finished {
            lemma_all_done_means_nobody_waits(s);
        }
        assert(s.started + s.waiting =~= s.started);
    } else {
        let t = s.ta_step();
        lemma_ta_run_serves_queue_in_order(t);
        assert(t.started + t.waiting =~= s.started + s.waiting);
    }
}

} // verus!
