//! Why the office comes to an end.
//!
//! `work_left` measures what is still to be done: every step that changes
//! the office lowers it, it never goes below zero, and it is zero exactly
//! when the TA has finished and every student is done. Until then, in an
//! office with at least one chair, some step is always able to change the
//! office. So no run changes the office more often than the work that was
//! left at its start, and no run gets stuck before the end.
use crate::model::{OfficeView, Step, StudentState, TaState};
use crate::safety::{lemma_next_wf, lemma_run_wf};
use vstd::prelude::*;

verus! {

/// The steps that a student in this state still has to take part in: four
/// for each session it is owed (sit down, be called, be helped, leave), less
/// those already taken of the session under way.
pub open spec fn student_left(state: StudentState, done: int, required: int) -> int {
    4 * (required - done) + match state {
        StudentState::Working => 0int,
        StudentState::Waiting => -1,
        StudentState::BeingHelped => -2,
        StudentState::Helped => 1,
        StudentState::Done => 0,
    }
}

/// The steps that the first `n` students still have to take part in.
pub open spec fn roster_left(
    students: Seq<StudentState>,
    done: Seq<usize>,
    required: int,
    n: nat,
) -> int
    decreases n,
{
    if n == 0 {
        0
    } else {
        roster_left(students, done, required, (n - 1) as nat) + student_left(
            students[n - 1],
            done[n - 1] as int,
            required,
        )
    }
}

/// One if the TA is up and has yet to fall asleep or stop, else none.
pub open spec fn ta_left(ta: TaState) -> int {
    match ta {
        TaState::Scanning => 1,
        TaState::Helping(_) => 1,
        TaState::Asleep => 0,
        TaState::Finished => 0,
    }
}

/// The work that is left in the office.
pub open spec fn work_left(s: OfficeView) -> int {
    2 * roster_left(s.students, s.sessions_done, s.sessions_required as int, s.students.len())
        + ta_left(s.ta)
}

/// The office at its end: the TA has finished and every student is done.
pub open spec fn terminal(s: OfficeView) -> bool {
    &&& s.ta == TaState::Finished
    &&& forall|id: int| 0 <= id < s.students.len() ==> #[trigger] s.students[id] == StudentState::Done
}

/// How many steps of the run changed the office.
pub open spec fn effective_steps(s: OfficeView, steps: Seq<Step>) -> nat
    decreases steps.len(),
{
    if steps.len() == 0 {
        0
    } else {
        let before = s.run(steps.drop_last());
        effective_steps(s, steps.drop_last()) + if before.next(steps.last()) != before {
            1nat
        } else {
            0nat
        }
    }
}

/// When the rosters agree on everyone but one student, what is left differs
/// by what is left for that student.
proof fn lemma_roster_left_change(
    students: Seq<StudentState>,
    done: Seq<usize>,
    students2: Seq<StudentState>,
    done2: Seq<usize>,
    required: int,
    n: nat,
    id: int,
)
    requires
        n <= students.len() == students2.len() == done.len() == done2.len(),
        0 <= id,
        forall|who: int|
            0 <= who < n && who != id ==> students2[who] == students[who] && done2[who]
                == done[who],
    ensures
        roster_left(students2, done2, required, n) == roster_left(students, done, required, n)
            + if id < n {
            student_left(students2[id], done2[id] as int, required) - student_left(
                students[id],
                done[id] as int,
                required,
            )
        } else {
            0
        },
    decreases n,
{
    if n > 0 {
        lemma_roster_left_change(students, done, students2, done2, required, (n - 1) as nat, id);
    }
}

/// In a well formed office something is left for every student but those who
/// are done, so what is left for any part of the roster is not negative, and
/// is nothing only if all of them are done.
proof fn lemma_roster_left_bounds(s: OfficeView, n: nat)
    requires
        s.wf(),
        n <= s.students.len(),
    ensures
        roster_left(s.students, s.sessions_done, s.sessions_required as int, n) >= 0,
        roster_left(s.students, s.sessions_done, s.sessions_required as int, n) == 0 <==> forall|
            id: int,
        |
            0 <= id < n ==> #[trigger] s.students[id] == StudentState::Done,
    decreases n,
{
    if n > 0 {
        lemma_roster_left_bounds(s, (n - 1) as nat);
        assert(s.ledger_matches(n - 1));
        let rest = roster_left(
            s.students,
            s.sessions_done,
            s.sessions_required as int,
            (n - 1) as nat,
        );
        let last = student_left(
            s.students[n - 1],
            s.sessions_done[n - 1] as int,
            s.sessions_required as int,
        );
        assert(last >= 0);
        assert(last == 0 <==> s.students[n - 1] == StudentState::Done);
        if rest + last == 0 {
            assert forall|id: int| 0 <= id < n implies #[trigger] s.students[id]
                == StudentState::Done by {
                if id < n - 1 {
                }
            }
        }
        if forall|id: int| 0 <= id < n ==> #[trigger] s.students[id] == StudentState::Done {
            assert(s.students[n - 1] == StudentState::Done);
            assert forall|id: int| 0 <= id < n - 1 implies #[trigger] s.students[id]
                == StudentState::Done by {}
        }
    }
}

/// The work that is left is never negative.
pub proof fn lemma_work_left_is_not_negative(s: OfficeView)
    requires
        s.wf(),
    ensures
        work_left(s) >= 0,
{
    lemma_roster_left_bounds(s, s.students.len());
}

/// No work is left exactly when the office is at its end.
pub proof fn lemma_no_work_left_means_terminal(s: OfficeView)
    requires
        s.wf(),
    ensures
        work_left(s) == 0 <==> terminal(s),
{
    lemma_roster_left_bounds(s, s.students.len());
    if forall|id: int| 0 <= id < s.students.len() ==> #[trigger] s.students[id]
        == StudentState::Done {
        assert forall|id: int| 0 <= id < s.sessions_done.len() implies #[trigger] s.sessions_done[id]
            >= s.sessions_required by {
            assert(s.students[id] == StudentState::Done);
            assert(s.ledger_matches(id));
        }
        assert(s.all_done());
        if s.waiting.len() > 0 {
            assert(s.students[s.waiting[0] as int] == StudentState::Waiting);
        }
    }
}

/// A fresh office has eight units of work for each session that is owed, and
/// one more for the TA.
pub proof fn lemma_work_left_at_start(roster_size: usize, capacity: usize, sessions_required: usize)
    ensures
        work_left(OfficeView::init(roster_size, capacity, sessions_required)) == 8 * (roster_size
            * sessions_required) + 1,
{
    let s = OfficeView::init(roster_size, capacity, sessions_required);
    lemma_fresh_roster_left(s, sessions_required, roster_size as nat);
}

/// In a roster of students who have not started, four steps are left for
/// each session that is owed.
proof fn lemma_fresh_roster_left(s: OfficeView, sessions_required: usize, n: nat)
    requires
        n <= s.students.len() == s.sessions_done.len(),
        s.sessions_required == sessions_required,
        forall|id: int| 0 <= id < s.students.len() ==> s.sessions_done[id] == 0,
        forall|id: int|
            0 <= id < s.students.len() ==> s.students[id] == if sessions_required == 0 {
                StudentState::Done
            } else {
                StudentState::Working
            },
    ensures
        roster_left(s.students, s.sessions_done, s.sessions_required as int, n) == 4 * (n
            * sessions_required),
    decreases n,
{
    if n > 0 {
        lemma_fresh_roster_left(s, sessions_required, (n - 1) as nat);
        assert(4 * ((n - 1) * sessions_required) + 4 * sessions_required == 4 * (n
            * sessions_required)) by (nonlinear_arith);
    } else {
        assert(4 * (n * sessions_required) == 0) by (nonlinear_arith)
            requires
                n == 0,
        ;
    }
}

/// A step either leaves the office as it is or lowers the work that is left.
pub proof fn lemma_step_makes_progress(s: OfficeView, step: Step)
    requires
        s.wf(),
    ensures
        s.next(step) == s || work_left(s.next(step)) < work_left(s),
{
    let t = s.next(step);
    let required = s.sessions_required as int;
    let n = s.students.len();
    match step {
        Step::SeekHelp(id) => {
            if s.can_admit(id) {
                lemma_roster_left_change(
                    s.students,
                    s.sessions_done,
                    t.students,
                    t.sessions_done,
                    required,
                    n,
                    id as int,
                );
            }
        },
        Step::Leave(id) => {
            if s.can_leave(id) {
                assert(s.ledger_matches(id as int));
                lemma_roster_left_change(
                    s.students,
                    s.sessions_done,
                    t.students,
                    t.sessions_done,
                    required,
                    n,
                    id as int,
                );
            }
        },
        Step::TaWork => {
            match s.ta {
                TaState::Helping(id) => {
                    assert(s.ledger_matches(id as int));
                    lemma_roster_left_change(
                        s.students,
                        s.sessions_done,
                        t.students,
                        t.sessions_done,
                        required,
                        n,
                        id as int,
                    );
                },
                TaState::Scanning => {
                    if s.waiting.len() > 0 {
                        lemma_roster_left_change(
                            s.students,
                            s.sessions_done,
                            t.students,
                            t.sessions_done,
                            required,
                            n,
                            s.waiting[0] as int,
                        );
                    }
                },
                _ => {},
            }
        },
    }
}

/// No run changes the office more often than the work that was left at its
/// start: the changes made and the work still left never add up to more.
pub proof fn lemma_effective_steps_bounded(s: OfficeView, steps: Seq<Step>)
    requires
        s.wf(),
    ensures
        effective_steps(s, steps) + work_left(s.run(steps)) <= work_left(s),
        effective_steps(s, steps) <= work_left(s),
    decreases steps.len(),
{
    lemma_run_wf(s, steps);
    lemma_work_left_is_not_negative(s.run(steps));
    if steps.len() > 0 {
        lemma_effective_steps_bounded(s, steps.drop_last());
        lemma_run_wf(s, steps.drop_last());
        lemma_step_makes_progress(s.run(steps.drop_last()), steps.last());
    }
}

/// At its end the office stays as it is, whatever is tried.
pub proof fn lemma_terminal_is_final(s: OfficeView, step: Step)
    requires
        s.wf(),
        terminal(s),
    ensures
        s.next(step) == s,
{
    match step {
        Step::SeekHelp(id) => {
            if (id as int) < s.students.len() {
                assert(s.students[id as int] == StudentState::Done);
            }
        },
        Step::Leave(id) => {
            if (id as int) < s.students.len() {
                assert(s.students[id as int] == StudentState::Done);
            }
        },
        Step::TaWork => {},
    }
}

/// No deadlock: in an office with at least one chair that is not at its end,
/// some step changes the office, and with it lowers the work that is left.
pub proof fn lemma_some_step_makes_progress(s: OfficeView) -> (step: Step)
    requires
        s.wf(),
        s.capacity >= 1,
        !terminal(s),
    ensures
        s.next(step) != s,
        work_left(s.next(step)) < work_left(s),
{
    let step = match s.ta {
        TaState::Scanning => Step::TaWork,
        TaState::Helping(_) => Step::TaWork,
        TaState::Finished => {
            let id = choose|id: int|
                0 <= id < s.students.len() && #[trigger] s.students[id] != StudentState::Done;
            assert(s.ledger_matches(id));
            assert(s.sessions_done[id] >= s.sessions_required);
            assert(s.students[id] == StudentState::Helped);
            assert(s.leave(id as usize).students[id] != s.students[id]);
            Step::Leave(id as usize)
        },
        TaState::Asleep => {
            if exists|id: int|
                0 <= id < s.students.len() && #[trigger] s.students[id] == StudentState::Helped {
                let id = choose|id: int|
                    0 <= id < s.students.len() && #[trigger] s.students[id]
                        == StudentState::Helped;
                assert(s.leave(id as usize).students[id] != s.students[id]);
                Step::Leave(id as usize)
            } else {
                let id = choose|id: int|
                    0 <= id < s.sessions_done.len() && #[trigger] s.sessions_done[id]
                        < s.sessions_required;
                assert(s.ledger_matches(id));
                if s.students[id] == StudentState::Waiting {
                    assert(s.queued(id));
                }
                if s.students[id] == StudentState::BeingHelped {
                    assert(s.serves(id));
                }
                assert(s.students[id] == StudentState::Working);
                assert(s.leaving() =~= Set::empty());
                assert(s.seek_help(id as usize).students[id] != s.students[id]);
                Step::SeekHelp(id as usize)
            }
        },
    };
    lemma_step_makes_progress(s, step);
    step
}

} // verus!
