//! The office: waiting room, ledger, TA and students under one owner.
//!
//! Whoever owns the office holds the one exclusion domain of the protocol.
//! Each public operation is one atomic step. What takes time (working,
//! helping, sleeping until woken) happens between steps, outside the office:
//! a step returns the action that its caller has to carry out before the next.
use crate::ledger::SessionLedger;
use crate::model::{OfficeView, StudentAction, StudentState, TaAction, TaState};
use crate::safety::{
    lemma_call_next_wf, lemma_end_session_wf, lemma_init_wf, lemma_leave_wf, lemma_seek_help_wf,
    lemma_students_in_update, lemma_ta_step_wf,
};
use crate::semaphore::Semaphore;
use crate::waiting_room::WaitingRoom;
use vstd::prelude::*;

verus! {

/// Students on the default roster.
pub const NUM_STUDENTS: usize = 5;

/// Hallway chairs of the default office.
pub const NUM_CHAIRS: usize = 3;

/// Help sessions that each student of the default office needs.
pub const MAX_HELP_SESSIONS: usize = 2;

/// The shared state of one TA and its students.
pub struct TAOffice {
    room: WaitingRoom,
    ledger: SessionLedger,
    students_waiting: Semaphore,
    ta: TaState,
    students: Vec<StudentState>,
}

impl View for TAOffice {
    type V = OfficeView;

    closed spec fn view(&self) -> OfficeView {
        OfficeView {
            capacity: self.room@.capacity,
            sessions_required: self.ledger@.sessions_required,
            chairs_available: self.room@.chairs_available,
            waiting: self.room@.waiting,
            ta: self.ta,
            students: self.students@,
            sessions_done: self.ledger@.sessions_done,
            admitted: self.room@.admitted,
            started: self.room@.dequeued,
        }
    }
}

impl TAOffice {
    /// The parts agree with each other: the demand signal counts the queue,
    /// and the room and the ledger are well formed by themselves.
    pub closed spec fn consistent(&self) -> bool {
        &&& self.room.wf()
        &&& self.ledger.wf()
        &&& self.students_waiting@ == self.room@.waiting.len()
    }

    /// The office's invariant: the protocol's invariant on its state, and
    /// parts that agree.
    pub open spec fn wf(&self) -> bool {
        self@.wf() && self.consistent()
    }

    /// The default office: five students, three chairs, two sessions each.
    pub fn new() -> (office: Self)
        ensures
            office.wf(),
            office@ == OfficeView::init(NUM_STUDENTS, NUM_CHAIRS, MAX_HELP_SESSIONS),
    {
        TAOffice::with_config(NUM_STUDENTS, NUM_CHAIRS, MAX_HELP_SESSIONS)
    }

    /// An office for `roster_size` students with `capacity` chairs, in which
    /// each student needs `sessions_required` sessions.
    pub fn with_config(roster_size: usize, capacity: usize, sessions_required: usize) -> (office:
        Self)
        requires
            capacity <= isize::MAX,
        ensures
            office.wf(),
            office@ == OfficeView::init(roster_size, capacity, sessions_required),
    {
        let initial = if sessions_required == 0 {
            StudentState::Done
        } else {
            StudentState::Working
        };
        let mut students: Vec<StudentState> = Vec::new();
        while students.len() < roster_size
            invariant
                students.len() <= roster_size,
                forall|id: int| 0 <= id < students.len() ==> students[id] == initial,
            decreases roster_size - students.len(),
        {
            students.push(initial);
        }
        let office = TAOffice {
            room: WaitingRoom::new(capacity),
            ledger: SessionLedger::new(roster_size, sessions_required),
            students_waiting: Semaphore::new(0),
            ta: TaState::Scanning,
            students,
        };
        proof {
            assert(office@ =~= OfficeView::init(roster_size, capacity, sessions_required));
            lemma_init_wf(roster_size, capacity, sessions_required);
        }
        office
    }

    /// Number of students.
    pub fn roster_size(&self) -> (size: usize)
        ensures
            size == self@.roster_size(),
    {
        self.students.len()
    }

    /// Number of hallway chairs.
    pub fn capacity(&self) -> (capacity: usize)
        ensures
            capacity == self@.capacity,
    {
        self.room.capacity()
    }

    /// Sessions that each student needs.
    pub fn sessions_required(&self) -> (required: usize)
        ensures
            required == self@.sessions_required,
    {
        self.ledger.sessions_required()
    }

    /// Chairs that nobody has reserved.
    pub fn chairs_available(&self) -> (chairs: usize)
        requires
            self.wf(),
        ensures
            chairs == self@.chairs_available,
    {
        self.room.chairs_available()
    }

    /// Number of queued students.
    pub fn waiting_count(&self) -> (count: usize)
        ensures
            count == self@.waiting.len(),
    {
        self.room.waiting_count()
    }

    /// What the TA is doing.
    pub fn ta_state(&self) -> (state: TaState)
        ensures
            state == self@.ta,
    {
        self.ta
    }

    /// Whether the TA is not blocked waiting for demand. A sleeping TA's
    /// caller waits until this holds.
    pub fn ta_awake(&self) -> (awake: bool)
        ensures
            awake == self@.ta_awake(),
    {
        match self.ta {
            TaState::Asleep => false,
            _ => true,
        }
    }

    /// The student in session, if any.
    pub fn serving(&self) -> (who: Option<usize>)
        ensures
            who == self@.serving(),
    {
        match self.ta {
            TaState::Helping(id) => Some(id),
            _ => None,
        }
    }

    /// Where the student stands.
    pub fn student_state(&self, student_id: usize) -> (state: StudentState)
        requires
            student_id < self@.roster_size(),
        ensures
            state == self@.students[student_id as int],
    {
        self.students[student_id]
    }

    /// Completed sessions of the student.
    pub fn get_help_count(&self, student_id: usize) -> (count: usize)
        requires
            self.wf(),
            student_id < self@.roster_size(),
        ensures
            count == self@.sessions_done[student_id as int],
    {
        self.ledger.sessions_done(student_id)
    }

    /// Whether the student has had all its sessions. A student off the roster
    /// has not.
    pub fn is_done(&self, student_id: usize) -> (done: bool)
        ensures
            done == self@.is_done(student_id as int),
    {
        self.ledger.is_done(student_id)
    }

    /// Whether every student has had all its sessions.
    pub fn all_students_done(&self) -> (done: bool)
        ensures
            done == self@.all_done(),
    {
        let done = self.ledger.all_done();
        proof {
            let office = self@;
            let ledger = self.ledger@;
            if ledger.all_done() {
                assert forall|id: int|
                    0 <= id < office.sessions_done.len() implies #[trigger] office.sessions_done[id]
                    >= office.sessions_required by {
                    assert(ledger.sessions_done[id] >= ledger.sessions_required);
                }
            }
            if office.all_done() {
                assert forall|id: int|
                    0 <= id < ledger.sessions_done.len() implies #[trigger] ledger.sessions_done[id]
                    >= ledger.sessions_required by {
                    assert(office.sessions_done[id] >= office.sessions_required);
                }
            }
        }
        done
    }

    /// Whether the student's session is over while it still holds its chair.
    /// An admitted student's caller waits until this holds, then lets the
    /// student leave.
    pub fn session_over(&self, student_id: usize) -> (over: bool)
        ensures
            over == self@.can_leave(student_id),
    {
        if student_id < self.students.len() {
            match self.students[student_id] {
                StudentState::Helped => true,
                _ => false,
            }
        } else {
            false
        }
    }

    /// The student arrives and asks for a chair. If it is on the roster, at
    /// work, and a chair is free, it is queued, demand is signalled, a
    /// sleeping TA is woken, and the result is `true`. Otherwise it is turned
    /// away at once and nothing changes.
    pub fn student_seeks_help(&mut self, student_id: usize) -> (admitted: bool)
        requires
            old(self).wf(),
        ensures
            final(self).wf(),
            admitted == old(self)@.can_admit(student_id),
            final(self)@ == old(self)@.seek_help(student_id),
    {
        if student_id >= self.students.len() {
            return false;
        }
        match self.students[student_id] {
            StudentState::Working => {},
            _ => {
                return false;
            },
        }
        if !self.room.try_admit(student_id) {
            return false;
        }
        self.students.set(student_id, StudentState::Waiting);
        self.students_waiting.release();
        match self.ta {
            TaState::Asleep => {
                self.ta = TaState::Scanning;
            },
            _ => {},
        }
        proof {
            assert(self@ =~= old(self)@.seek_help(student_id));
            lemma_seek_help_wf(old(self)@, student_id);
        }
        true
    }

    /// The student gives its chair back after its session, and says whether
    /// it did. It goes back to work, or is done if that was its last session.
    /// A student without a finished session and a chair gives nothing back.
    pub fn release_chair(&mut self, student_id: usize) -> (released: bool)
        requires
            old(self).wf(),
        ensures
            final(self).wf(),
            released == old(self)@.can_leave(student_id),
            final(self)@ == old(self)@.leave(student_id),
    {
        if !self.session_over(student_id) {
            return false;
        }
        let state = if self.ledger.is_done(student_id) {
            StudentState::Done
        } else {
            StudentState::Working
        };
        proof {
            lemma_students_in_update(
                self@.students,
                student_id as int,
                state,
                |state: StudentState| crate::model::is_helped(state),
            );
        }
        self.room.release_chair();
        self.students.set(student_id, state);
        proof {
            assert(self@ =~= old(self)@.leave(student_id));
            lemma_leave_wf(old(self)@, student_id);
        }
        true
    }

    /// The TA ends its session with the student: the session is recorded and
    /// the TA is free to look at the waiting room again.
    fn help_student(&mut self, student_id: usize)
        requires
            old(self).wf(),
            old(self)@.ta == TaState::Helping(student_id),
        ensures
            final(self).wf(),
            final(self)@ == old(self)@.end_session(student_id),
    {
        assert(self@.ledger_matches(student_id as int));
        self.ledger.record_session(student_id);
        self.students.set(student_id, StudentState::Helped);
        self.ta = TaState::Scanning;
        proof {
            assert(self@ =~= old(self)@.end_session(student_id));
            lemma_end_session_wf(old(self)@, student_id);
        }
    }

    /// One transition of the TA, and what its caller has to do next. In a
    /// session the TA ends it. Between sessions it calls the student at the
    /// front of the queue; with nobody queued it stops if all are done and
    /// falls asleep if not. Asleep or finished it stays as it is.
    pub fn ta_work(&mut self) -> (action: TaAction)
        requires
            old(self).wf(),
        ensures
            final(self).wf(),
            final(self)@ == old(self)@.ta_step(),
            action == old(self)@.ta_action(),
    {
        match self.ta {
            TaState::Asleep => TaAction::Sleep,
            TaState::Finished => TaAction::Finish,
            TaState::Helping(student_id) => {
                self.help_student(student_id);
                TaAction::Dismiss(student_id)
            },
            TaState::Scanning => {
                match self.room.dequeue_next() {
                    Some(student_id) => {
                        self.students_waiting.acquire();
                        self.students.set(student_id, StudentState::BeingHelped);
                        self.ta = TaState::Helping(student_id);
                        proof {
                            assert(self@ =~= old(self)@.call_next());
                            lemma_call_next_wf(old(self)@);
                        }
                        TaAction::Help(student_id)
                    },
                    None => {
                        if self.all_students_done() {
                            self.ta = TaState::Finished;
                            proof {
                                assert(self@ =~= old(self)@.ta_step());
                                lemma_ta_step_wf(old(self)@);
                            }
                            TaAction::Finish
                        } else {
                            self.ta = TaState::Asleep;
                            proof {
                                assert(self@ =~= old(self)@.ta_step());
                                lemma_ta_step_wf(old(self)@);
                            }
                            TaAction::Sleep
                        }
                    },
                }
            },
        }
    }
}

/// One step of a student, and what its caller has to do next. From work the
/// student seeks help: admitted it waits for its turn, turned away it backs
/// off. Queued or in session it keeps waiting. With its session over it gives
/// its chair back and returns to work, or stops after its last session.
pub fn student_thread(student_id: usize, office: &mut TAOffice) -> (action: StudentAction)
    requires
        old(office).wf(),
    ensures
        final(office).wf(),
        final(office)@ == old(office)@.student_step(student_id),
        action == old(office)@.student_action(student_id),
{
    if student_id >= office.roster_size() {
        return StudentAction::Exit;
    }
    match office.student_state(student_id) {
        StudentState::Working => {
            if office.student_seeks_help(student_id) {
                StudentAction::AwaitTurn
            } else {
                StudentAction::Backoff
            }
        },
        StudentState::Waiting => StudentAction::AwaitTurn,
        StudentState::BeingHelped => StudentAction::AwaitTurn,
        StudentState::Helped => {
            let done = office.is_done(student_id);
            office.release_chair(student_id);
            if done {
                StudentAction::Exit
            } else {
                StudentAction::Work
            }
        },
        StudentState::Done => StudentAction::Exit,
    }
}

/// The TA works until it has to sleep or is finished: it ends a session in
/// progress and serves the queue from the front, one student at a time.
pub fn ta_thread(office: &mut TAOffice) -> (action: TaAction)
    requires
        old(office).wf(),
    ensures
        final(office).wf(),
        final(office)@ == old(office)@.ta_run(),
        action == old(office)@.ta_run_action(),
{
    let ghost start = office@;
    loop
        invariant
            office.wf(),
            start == old(office)@,
            office@.ta_run() == start.ta_run(),
            office@.ta_run_action() == start.ta_run_action(),
        decreases 2 * office@.waiting.len() + office@.in_session(),
    {
        let ghost before = office@;
        let action = office.ta_work();
        assert(before.ta_run() == if before.ta_rests() {
            before.ta_step()
        } else {
            before.ta_step().ta_run()
        });
        assert(before.ta_run_action() == if before.ta_rests() {
            before.ta_action()
        } else {
            before.ta_step().ta_run_action()
        });
        match action {
            TaAction::Sleep => {
                return action;
            },
            TaAction::Finish => {
                return action;
            },
            _ => {},
        }
    }
}

} // verus!
