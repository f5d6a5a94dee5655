//! Every step keeps the office well formed.
use crate::model::{holds_chair, is_helped, students_in, OfficeView, Step, StudentState, TaState};
use vstd::prelude::*;
use vstd::set_lib::*;

verus! {

/// The students picked by state are finitely many, no more than the roster.
pub proof fn lemma_students_in_finite(
    students: Seq<StudentState>,
    pick: spec_fn(StudentState) -> bool,
)
    ensures
        students_in(students, pick).finite(),
        students_in(students, pick).len() <= students.len(),
{
    lemma_int_range(0, students.len() as int);
    lemma_len_subset(students_in(students, pick), set_int_range(0, students.len() as int));
}

/// When one student changes state, the number of picked students changes by
/// what that student contributed before and contributes after.
pub proof fn lemma_students_in_update(
    students: Seq<StudentState>,
    id: int,
    state: StudentState,
    pick: spec_fn(StudentState) -> bool,
)
    requires
        0 <= id < students.len(),
    ensures
        students_in(students.update(id, state), pick).len() + (if pick(students[id]) {
            1int
        } else {
            0
        }) == students_in(students, pick).len() + (if pick(state) {
            1int
        } else {
            0
        }),
{
    let before = students_in(students, pick);
    let after = students_in(students.update(id, state), pick);
    lemma_students_in_finite(students, pick);
    lemma_students_in_finite(students.update(id, state), pick);
    if pick(state) {
        assert(after =~= before.insert(id));
    } else {
        assert(after =~= before.remove(id));
    }
}

/// Whether all are done depends on the ledger alone.
pub proof fn lemma_all_done_by_ledger(s: OfficeView, t: OfficeView)
    requires
        s.sessions_done == t.sessions_done,
        s.sessions_required == t.sessions_required,
    ensures
        s.all_done() == t.all_done(),
{
    if s.all_done() {
        assert forall|id: int| 0 <= id < t.sessions_done.len() implies #[trigger] t.sessions_done[id]
            >= t.sessions_required by {
            assert(s.sessions_done[id] >= s.sessions_required);
        }
    }
    if t.all_done() {
        assert forall|id: int| 0 <= id < s.sessions_done.len() implies #[trigger] s.sessions_done[id]
            >= s.sessions_required by {
            assert(t.sessions_done[id] >= t.sessions_required);
        }
    }
}

/// A fresh office is well formed.
pub proof fn lemma_init_wf(roster_size: usize, capacity: usize, sessions_required: usize)
    ensures
        OfficeView::init(roster_size, capacity, sessions_required).wf(),
{
    let s = OfficeView::init(roster_size, capacity, sessions_required);
    assert(s.seated() =~= Set::empty());
    assert(s.leaving() =~= Set::empty());
    assert(s.admitted =~= s.started + s.waiting);
    assert forall|id: int| 0 <= id < s.students.len() implies #[trigger] s.ledger_matches(id) by {}
}

/// An admission attempt keeps the office well formed.
pub proof fn lemma_seek_help_wf(s: OfficeView, id: usize)
    requires
        s.wf(),
    ensures
        s.seek_help(id).wf(),
{
    if s.can_admit(id) {
        let t = s.seek_help(id);
        lemma_students_in_update(
            s.students,
            id as int,
            StudentState::Waiting,
            |state: StudentState| holds_chair(state),
        );
        lemma_students_in_update(
            s.students,
            id as int,
            StudentState::Waiting,
            |state: StudentState| is_helped(state),
        );
        assert(t.waiting.no_duplicates());
        assert forall|who: int|
            0 <= who < t.students.len() && #[trigger] t.students[who]
                == StudentState::Waiting implies t.queued(who) by {
            if who == id {
                assert(t.waiting[s.waiting.len() as int] == id);
            } else {
                assert(s.queued(who));
                let i = choose|i: int| 0 <= i < s.waiting.len() && #[trigger] s.waiting[i] == who;
                assert(t.waiting[i] == who);
            }
        }
        assert forall|who: int| 0 <= who < t.students.len() implies #[trigger] t.ledger_matches(
            who,
        ) by {
            assert(s.ledger_matches(who));
        }
        assert(t.admitted =~= t.started + t.waiting);
        lemma_all_done_by_ledger(s, t);
    }
}

/// Calling the next student keeps the office well formed.
pub proof fn lemma_call_next_wf(s: OfficeView)
    requires
        s.wf(),
        s.ta == TaState::Scanning,
        s.waiting.len() > 0,
    ensures
        s.call_next().wf(),
{
    let t = s.call_next();
    let id = s.waiting[0];
    lemma_students_in_update(
        s.students,
        id as int,
        StudentState::BeingHelped,
        |state: StudentState| holds_chair(state),
    );
    lemma_students_in_update(
        s.students,
        id as int,
        StudentState::BeingHelped,
        |state: StudentState| is_helped(state),
    );
    assert forall|i: int| 0 <= i < t.waiting.len() implies (#[trigger] t.waiting[i] as int)
        < t.students.len() && t.students[t.waiting[i] as int] == StudentState::Waiting by {
        assert(t.waiting[i] == s.waiting[i + 1]);
    }
    assert forall|who: int|
        0 <= who < t.students.len() && #[trigger] t.students[who]
            == StudentState::Waiting implies t.queued(who) by {
        assert(s.queued(who));
        let i = choose|i: int| 0 <= i < s.waiting.len() && #[trigger] s.waiting[i] == who;
        assert(t.waiting[i - 1] == who);
    }
    assert forall|who: int| 0 <= who < t.students.len() implies #[trigger] t.ledger_matches(
        who,
    ) by {
        assert(s.ledger_matches(who));
    }
    assert(t.admitted =~= t.started + t.waiting);
}

/// Ending a session keeps the office well formed.
pub proof fn lemma_end_session_wf(s: OfficeView, id: usize)
    requires
        s.wf(),
        s.ta == TaState::Helping(id),
    ensures
        s.end_session(id).wf(),
{
    let t = s.end_session(id);
    lemma_students_in_update(
        s.students,
        id as int,
        StudentState::Helped,
        |state: StudentState| holds_chair(state),
    );
    lemma_students_in_update(
        s.students,
        id as int,
        StudentState::Helped,
        |state: StudentState| is_helped(state),
    );
    assert(s.ledger_matches(id as int));
    assert forall|who: int|
        0 <= who < t.students.len() && #[trigger] t.students[who]
            == StudentState::Waiting implies t.queued(who) by {
        assert(s.queued(who));
    }
    assert forall|who: int| 0 <= who < t.students.len() implies #[trigger] t.ledger_matches(
        who,
    ) by {
        assert(s.ledger_matches(who));
    }
}

/// A step of the TA keeps the office well formed.
pub proof fn lemma_ta_step_wf(s: OfficeView)
    requires
        s.wf(),
    ensures
        s.ta_step().wf(),
{
    match s.ta {
        TaState::Asleep => {},
        TaState::Finished => {},
        TaState::Helping(id) => {
            lemma_end_session_wf(s, id);
        },
        TaState::Scanning => {
            if s.waiting.len() > 0 {
                lemma_call_next_wf(s);
            } else {
                let t = s.ta_step();
                assert forall|who: int|
                    0 <= who < t.students.len() && #[trigger] t.students[who]
                        == StudentState::Waiting implies t.queued(who) by {
                    assert(s.queued(who));
                }
                assert forall|who: int|
                    0 <= who < t.students.len() implies #[trigger] t.ledger_matches(who) by {
                    assert(s.ledger_matches(who));
                }
                lemma_all_done_by_ledger(s, t);
            }
        },
    }
}

/// A departure keeps the office well formed.
pub proof fn lemma_leave_wf(s: OfficeView, id: usize)
    requires
        s.wf(),
    ensures
        s.leave(id).wf(),
{
    if s.can_leave(id) {
        let t = s.leave(id);
        let state = t.students[id as int];
        lemma_students_in_update(
            s.students,
            id as int,
            state,
            |state: StudentState| holds_chair(state),
        );
        lemma_students_in_update(
            s.students,
            id as int,
            state,
            |state: StudentState| is_helped(state),
        );
        assert(s.ledger_matches(id as int));
        assert forall|who: int|
            0 <= who < t.students.len() && #[trigger] t.students[who]
                == StudentState::Waiting implies t.queued(who) by {
            assert(s.queued(who));
        }
        assert forall|who: int| 0 <= who < t.students.len() implies #[trigger] t.ledger_matches(
            who,
        ) by {
            assert(s.ledger_matches(who));
        }
        lemma_all_done_by_ledger(s, t);
    }
}

/// Whatever the step, the office stays well formed.
pub proof fn lemma_next_wf(s: OfficeView, step: Step)
    requires
        s.wf(),
    ensures
        s.next(step).wf(),
{
    match step {
        Step::SeekHelp(id) => lemma_seek_help_wf(s, id),
        Step::TaWork => lemma_ta_step_wf(s),
        Step::Leave(id) => lemma_leave_wf(s, id),
    }
}

/// Whatever the run, the office stays well formed.
pub proof fn lemma_run_wf(s: OfficeView, steps: Seq<Step>)
    requires
        s.wf(),
    ensures
        s.run(steps).wf(),
    decreases steps.len(),
{
    if steps.len() > 0 {
        lemma_run_wf(s, steps.drop_last());
        lemma_next_wf(s.run(steps.drop_last()), steps.last());
    }
}

} // verus!
