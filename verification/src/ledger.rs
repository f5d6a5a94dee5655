//! The ledger of completed help sessions, one count per student.
use vstd::prelude::*;

verus! {

/// The state of a ledger.
#[verifier::ext_equal]
pub ghost struct LedgerView {
    /// Sessions that each student needs.
    pub sessions_required: usize,
    /// Completed sessions of each student, by identity.
    pub sessions_done: Seq<usize>,
}

impl LedgerView {
    /// A ledger for `roster_size` students with no session recorded.
    pub open spec fn empty(roster_size: nat, sessions_required: usize) -> LedgerView {
        LedgerView { sessions_required, sessions_done: Seq::new(roster_size, |id: int| 0usize) }
    }

    /// No student has more sessions than it needs.
    pub open spec fn wf(self) -> bool {
        forall|id: int|
            0 <= id < self.sessions_done.len() ==> #[trigger] self.sessions_done[id]
                <= self.sessions_required
    }

    /// Whether the student has had all its sessions.
    pub open spec fn is_done(self, id: int) -> bool {
        0 <= id < self.sessions_done.len() && self.sessions_done[id] >= self.sessions_required
    }

    /// Whether every student has had all its sessions.
    pub open spec fn all_done(self) -> bool {
        forall|id: int|
            0 <= id < self.sessions_done.len() ==> #[trigger] self.sessions_done[id]
                >= self.sessions_required
    }

    /// One more session for the student.
    pub open spec fn record_session(self, id: usize) -> LedgerView {
        LedgerView {
            sessions_done: self.sessions_done.update(
                id as int,
                (self.sessions_done[id as int] + 1) as usize,
            ),
            ..self
        }
    }
}

/// Counts the completed sessions of each student.
pub struct SessionLedger {
    required: usize,
    done: Vec<usize>,
}

impl View for SessionLedger {
    type V = LedgerView;

    closed spec fn view(&self) -> LedgerView {
        LedgerView { sessions_required: self.required, sessions_done: self.done@ }
    }
}

impl SessionLedger {
    /// The ledger's invariant.
    pub open spec fn wf(&self) -> bool {
        self@.wf()
    }

    /// A ledger for `roster_size` students who each need `sessions_required`
    /// sessions, none recorded yet.
    pub fn new(roster_size: usize, sessions_required: usize) -> (ledger: Self)
        ensures
            ledger.wf(),
            ledger@ == LedgerView::empty(roster_size as nat, sessions_required),
    {
        let mut done: Vec<usize> = Vec::new();
        while done.len() < roster_size
            invariant
                done.len() <= roster_size,
                forall|id: int| 0 <= id < done.len() ==> done[id] == 0,
            decreases roster_size - done.len(),
        {
            done.push(0);
        }
        let ledger = SessionLedger { required: sessions_required, done };
        assert(ledger@ =~= LedgerView::empty(roster_size as nat, sessions_required));
        ledger
    }

    /// Number of students.
    pub fn roster_size(&self) -> (size: usize)
        ensures
            size == self@.sessions_done.len(),
    {
        self.done.len()
    }

    /// Sessions that each student needs.
    pub fn sessions_required(&self) -> (required: usize)
        ensures
            required == self@.sessions_required,
    {
        self.required
    }

    /// Completed sessions of the student.
    pub fn sessions_done(&self, id: usize) -> (count: usize)
        requires
            id < self@.sessions_done.len(),
        ensures
            count == self@.sessions_done[id as int],
    {
        self.done[id]
    }

    /// Records one completed session of the student. A student that has had
    /// all its sessions gets no further one.
    pub fn record_session(&mut self, id: usize)
        requires
            old(self).wf(),
            id < old(self)@.sessions_done.len(),
            old(self)@.sessions_done[id as int] < old(self)@.sessions_required,
        ensures
            final(self).wf(),
            final(self)@ == old(self)@.record_session(id),
    {
        let count = self.done[id];
        self.done.set(id, count + 1);
        assert(self@ =~= old(self)@.record_session(id));
        assert forall|who: int| 0 <= who < self@.sessions_done.len() implies #[trigger] self@.sessions_done[who]
            <= self@.sessions_required by {
            assert(old(self)@.sessions_done[who] <= old(self)@.sessions_required);
        }
    }

    /// Whether the student has had all its sessions. A student off the roster
    /// has not.
    pub fn is_done(&self, id: usize) -> (done: bool)
        ensures
            done == self@.is_done(id as int),
    {
        id < self.done.len() && self.done[id] >= self.required
    }

    /// Whether every student has had all its sessions.
    pub fn all_done(&self) -> (done: bool)
        ensures
            done == self@.all_done(),
    {
        let mut id: usize = 0;
        while id < self.done.len()
            invariant
                id <= self.done.len(),
                forall|who: int| 0 <= who < id ==> #[trigger] self.done[who] >= self.required,
            decreases self.done.len() - id,
        {
            if self.done[id] < self.required {
                assert(self@.sessions_done[id as int] < self@.sessions_required);
                return false;
            }
            id = id + 1;
        }
        true
    }
}

} // verus!
