//! The office as a mathematical state machine.
//!
//! `OfficeView` is what an office is worth to a contract: the queue, the
//! chair counter, what the TA is doing, where every student stands, and the
//! ledger of sessions. The three kinds of step (a student seeks help, the TA
//! works, a helped student leaves) are total functions on it, and `wf` is the
//! invariant that all of them keep.
use vstd::prelude::*;

verus! {

/// What the TA is doing.
#[derive(Clone, Copy, Debug, PartialEq, Eq, Structural)]
pub enum TaState {
    /// Blocked until a student is admitted.
    Asleep,
    /// Awake and between sessions, about to look at the waiting room.
    Scanning,
    /// In a help session with the named student.
    Helping(usize),
    /// Every student has had all sessions; the TA has gone home.
    Finished,
}

/// Where a student stands. Seeking help is the admission step itself, so no
/// student is ever found in between working and waiting.
#[derive(Clone, Copy, Debug, PartialEq, Eq, Structural)]
pub enum StudentState {
    /// Programming alone, holding no chair, with sessions still owed.
    Working,
    /// On a hallway chair, queued for the TA.
    Waiting,
    /// In a session with the TA, chair still reserved.
    BeingHelped,
    /// The session is over and recorded; the chair is not yet given back.
    Helped,
    /// All sessions received and the chair given back. Terminal.
    Done,
}

/// What the TA's caller has to do after one step of the TA.
#[derive(Clone, Copy, Debug, PartialEq, Eq, Structural)]
pub enum TaAction {
    /// Block until the TA is awake again.
    Sleep,
    /// A session with this student has started: spend the help time.
    Help(usize),
    /// The session with this student has ended: tell those who wait.
    Dismiss(usize),
    /// Everybody is done: stop.
    Finish,
}

/// What a student's caller has to do after one step of the student.
#[derive(Clone, Copy, Debug, PartialEq, Eq, Structural)]
pub enum StudentAction {
    /// The chair is given back and sessions are still owed: work, then step.
    Work,
    /// Turned away for want of a chair: back off, work, then step.
    Backoff,
    /// Admitted, or still queued or in session: block until the turn is over.
    AwaitTurn,
    /// All sessions received: stop.
    Exit,
}

/// One atomic step of the protocol.
pub enum Step {
    /// The student arrives and asks for a chair.
    SeekHelp(usize),
    /// The TA takes its next transition.
    TaWork,
    /// The student gives its chair back after its session.
    Leave(usize),
}

/// Whether a student in this state has a chair reserved.
pub open spec fn holds_chair(state: StudentState) -> bool {
    state == StudentState::Waiting || state == StudentState::BeingHelped || state
        == StudentState::Helped
}

/// Whether a student in this state has had its session and still holds its
/// chair.
pub open spec fn is_helped(state: StudentState) -> bool {
    state == StudentState::Helped
}

/// The students, by identity, whose state satisfies `pick`.
pub open spec fn students_in(
    students: Seq<StudentState>,
    pick: spec_fn(StudentState) -> bool,
) -> Set<int> {
    Set::new(|id: int| 0 <= id < students.len() && pick(students[id]))
}

/// The state of an office.
#[verifier::ext_equal]
pub ghost struct OfficeView {
    /// Number of hallway chairs.
    pub capacity: usize,
    /// Sessions that each student needs.
    pub sessions_required: usize,
    /// Chairs that nobody has reserved.
    pub chairs_available: int,
    /// The queued students, first admitted first.
    pub waiting: Seq<usize>,
    /// What the TA is doing.
    pub ta: TaState,
    /// Where each student stands, by identity.
    pub students: Seq<StudentState>,
    /// Completed sessions of each student, by identity.
    pub sessions_done: Seq<usize>,
    /// Every admission so far, in order.
    pub admitted: Seq<usize>,
    /// Every session start so far, in order.
    pub started: Seq<usize>,
}

impl OfficeView {
    /// The office before anything has happened: all chairs free, nobody
    /// queued, the TA awake and about to look around.
    pub open spec fn init(
        roster_size: usize,
        capacity: usize,
        sessions_required: usize,
    ) -> OfficeView {
        OfficeView {
            capacity,
            sessions_required,
            chairs_available: capacity as int,
            waiting: Seq::empty(),
            ta: TaState::Scanning,
            students: Seq::new(
                roster_size as nat,
                |id: int|
                    if sessions_required == 0 {
                        StudentState::Done
                    } else {
                        StudentState::Working
                    },
            ),
            sessions_done: Seq::new(roster_size as nat, |id: int| 0usize),
            admitted: Seq::empty(),
            started: Seq::empty(),
        }
    }

    /// Number of students.
    pub open spec fn roster_size(self) -> nat {
        self.students.len()
    }

    /// The student in session, if any.
    pub open spec fn serving(self) -> Option<usize> {
        match self.ta {
            TaState::Helping(id) => Some(id),
            _ => None,
        }
    }

    /// Whether the TA is not blocked waiting for demand.
    pub open spec fn ta_awake(self) -> bool {
        self.ta != TaState::Asleep
    }

    /// Whether the student has had all its sessions.
    pub open spec fn is_done(self, id: int) -> bool {
        0 <= id < self.sessions_done.len() && self.sessions_done[id] >= self.sessions_required
    }

    /// Whether every student has had all its sessions.
    pub open spec fn all_done(self) -> bool {
        forall|id: int|
            0 <= id < self.sessions_done.len() ==> #[trigger] self.sessions_done[id]
                >= self.sessions_required
    }

    /// The students that have a chair reserved.
    pub open spec fn seated(self) -> Set<int> {
        students_in(self.students, |state: StudentState| holds_chair(state))
    }

    /// The students whose session is over and who have not left yet.
    pub open spec fn leaving(self) -> Set<int> {
        students_in(self.students, |state: StudentState| is_helped(state))
    }

    /// How many students occupy a chair or are being served.
    pub open spec fn occupancy(self) -> nat {
        self.seated().len()
    }

    /// How many students are in session: one or none.
    pub open spec fn in_session(self) -> nat {
        if self.ta is Helping {
            1
        } else {
            0
        }
    }

    /// Whether the TA is in session with this student.
    pub open spec fn serves(self, id: int) -> bool {
        match self.ta {
            TaState::Helping(who) => who == id,
            _ => false,
        }
    }

    /// Whether the student sits in the queue.
    pub open spec fn queued(self, id: int) -> bool {
        exists|i: int| 0 <= i < self.waiting.len() && #[trigger] self.waiting[i] == id
    }

    /// What the ledger may say of a student in a given state.
    pub open spec fn ledger_matches(self, id: int) -> bool {
        match self.students[id] {
            StudentState::Helped => 1 <= self.sessions_done[id] <= self.sessions_required,
            StudentState::Done => self.sessions_done[id] == self.sessions_required,
            _ => self.sessions_done[id] < self.sessions_required,
        }
    }

    /// The invariant of the protocol.
    pub open spec fn wf(self) -> bool {
        &&& self.students.len() <= usize::MAX
        &&& self.sessions_done.len() == self.students.len()
        &&& 0 <= self.chairs_available
        &&& self.chairs_available + self.occupancy() == self.capacity
        &&& self.waiting.len() + self.in_session() + self.leaving().len() == self.occupancy()
        &&& self.waiting.no_duplicates()
        &&& forall|i: int|
            0 <= i < self.waiting.len() ==> (#[trigger] self.waiting[i] as int)
                < self.students.len() && self.students[self.waiting[i] as int]
                == StudentState::Waiting
        &&& forall|id: int|
            0 <= id < self.students.len() && #[trigger] self.students[id] == StudentState::Waiting
                ==> self.queued(id)
        &&& forall|id: int|
            0 <= id < self.students.len() && #[trigger] self.students[id]
                == StudentState::BeingHelped ==> self.serves(id)
        &&& match self.ta {
            TaState::Helping(id) => (id as int) < self.students.len() && self.students[id as int]
                == StudentState::BeingHelped,
            TaState::Asleep => self.waiting.len() == 0 && !self.all_done(),
            TaState::Finished => self.all_done(),
            TaState::Scanning => true,
        }
        &&& forall|id: int| 0 <= id < self.students.len() ==> #[trigger] self.ledger_matches(id)
        &&& self.admitted == self.started + self.waiting
    }

    /// Whether an admission of this student succeeds: it is on the roster,
    /// at work, and a chair is free.
    pub open spec fn can_admit(self, id: usize) -> bool {
        &&& (id as int) < self.students.len()
        &&& self.students[id as int] == StudentState::Working
        &&& self.chairs_available > 0
    }

    /// The student asks for a chair. With one free it sits down at the back
    /// of the queue, and a sleeping TA is woken. Otherwise nothing changes.
    pub open spec fn seek_help(self, id: usize) -> OfficeView {
        if self.can_admit(id) {
            OfficeView {
                chairs_available: self.chairs_available - 1,
                waiting: self.waiting.push(id),
                admitted: self.admitted.push(id),
                students: self.students.update(id as int, StudentState::Waiting),
                ta: if self.ta == TaState::Asleep {
                    TaState::Scanning
                } else {
                    self.ta
                },
                ..self
            }
        } else {
            self
        }
    }

    /// The TA calls the student at the front of the queue into a session.
    pub open spec fn call_next(self) -> OfficeView {
        let id = self.waiting[0];
        OfficeView {
            ta: TaState::Helping(id),
            waiting: self.waiting.subrange(1, self.waiting.len() as int),
            started: self.started.push(id),
            students: self.students.update(id as int, StudentState::BeingHelped),
            ..self
        }
    }

    /// The TA ends the session with this student and records it.
    pub open spec fn end_session(self, id: usize) -> OfficeView {
        OfficeView {
            ta: TaState::Scanning,
            sessions_done: self.sessions_done.update(
                id as int,
                (self.sessions_done[id as int] + 1) as usize,
            ),
            students: self.students.update(id as int, StudentState::Helped),
            ..self
        }
    }

    /// One transition of the TA. Asleep or finished it stays as it is. In a
    /// session it ends the session. Between sessions it calls the next
    /// student, and with nobody queued it goes home if all are done and to
    /// sleep if not.
    pub open spec fn ta_step(self) -> OfficeView {
        match self.ta {
            TaState::Asleep => self,
            TaState::Finished => self,
            TaState::Helping(id) => self.end_session(id),
            TaState::Scanning => if self.waiting.len() > 0 {
                self.call_next()
            } else if self.all_done() {
                OfficeView { ta: TaState::Finished, ..self }
            } else {
                OfficeView { ta: TaState::Asleep, ..self }
            },
        }
    }

    /// What the TA's caller has to do after `ta_step` from this state.
    pub open spec fn ta_action(self) -> TaAction {
        match self.ta {
            TaState::Asleep => TaAction::Sleep,
            TaState::Finished => TaAction::Finish,
            TaState::Helping(id) => TaAction::Dismiss(id),
            TaState::Scanning => if self.waiting.len() > 0 {
                TaAction::Help(self.waiting[0])
            } else if self.all_done() {
                TaAction::Finish
            } else {
                TaAction::Sleep
            },
        }
    }

    /// Whether this student may give its chair back: its session is over and
    /// it still holds the chair.
    pub open spec fn can_leave(self, id: usize) -> bool {
        (id as int) < self.students.len() && self.students[id as int] == StudentState::Helped
    }

    /// The student gives its chair back and returns to work, or is done.
    /// Without a finished session and a chair, nothing changes.
    pub open spec fn leave(self, id: usize) -> OfficeView {
        if self.can_leave(id) {
            OfficeView {
                chairs_available: self.chairs_available + 1,
                students: self.students.update(
                    id as int,
                    if self.sessions_done[id as int] >= self.sessions_required {
                        StudentState::Done
                    } else {
                        StudentState::Working
                    },
                ),
                ..self
            }
        } else {
            self
        }
    }

    /// The office after one step.
    pub open spec fn next(self, step: Step) -> OfficeView {
        match step {
            Step::SeekHelp(id) => self.seek_help(id),
            Step::TaWork => self.ta_step(),
            Step::Leave(id) => self.leave(id),
        }
    }

    /// The office after a sequence of steps.
    pub open spec fn run(self, steps: Seq<Step>) -> OfficeView
        decreases steps.len(),
    {
        if steps.len() == 0 {
            self
        } else {
            self.run(steps.drop_last()).next(steps.last())
        }
    }

    /// One step of a student: from work it seeks help, with a finished
    /// session it leaves, and otherwise it has nothing to do but wait or stop.
    pub open spec fn student_step(self, id: usize) -> OfficeView {
        if (id as int) < self.students.len() {
            match self.students[id as int] {
                StudentState::Working => self.seek_help(id),
                StudentState::Helped => self.leave(id),
                _ => self,
            }
        } else {
            self
        }
    }

    /// What a student's caller has to do after `student_step` from this state.
    pub open spec fn student_action(self, id: usize) -> StudentAction {
        if (id as int) < self.students.len() {
            match self.students[id as int] {
                StudentState::Working => if self.chairs_available > 0 {
                    StudentAction::AwaitTurn
                } else {
                    StudentAction::Backoff
                },
                StudentState::Waiting => StudentAction::AwaitTurn,
                StudentState::BeingHelped => StudentAction::AwaitTurn,
                StudentState::Helped => if self.sessions_done[id as int]
                    >= self.sessions_required {
                    StudentAction::Exit
                } else {
                    StudentAction::Work
                },
                StudentState::Done => StudentAction::Exit,
            }
        } else {
            StudentAction::Exit
        }
    }

    /// Whether the TA, stepping from here, has to stop and wait or is through.
    pub open spec fn ta_rests(self) -> bool {
        self.ta_action() == TaAction::Sleep || self.ta_action() == TaAction::Finish
    }

    /// What the TA's caller has to do after `ta_run` from this state: sleep,
    /// or stop.
    pub open spec fn ta_run_action(self) -> TaAction
        decreases 2 * self.waiting.len() + (if self.ta is Helping { 1nat } else { 0nat }),
    {
        if self.ta_rests() {
            self.ta_action()
        } else {
            self.ta_step().ta_run_action()
        }
    }

    /// The TA steps until it has to sleep or is finished.
    pub open spec fn ta_run(self) -> OfficeView
        decreases 2 * self.waiting.len() + (if self.ta is Helping { 1nat } else { 0nat }),
    {
        if self.ta_rests() {
            self.ta_step()
        } else {
            self.ta_step().ta_run()
        }
    }
}

} // verus!
