//! The hallway: a fixed number of chairs and the queue of those who sit there.
//!
//! A chair is reserved at admission and stays reserved while its student is
//! queued, in session, and until the student gives it back. Taking a student
//! off the queue therefore frees no chair.
use crate::semaphore::Semaphore;
use std::collections::VecDeque;
use vstd::prelude::*;

verus! {

/// The state of a waiting room.
#[verifier::ext_equal]
pub ghost struct RoomView {
    /// Number of chairs.
    pub capacity: usize,
    /// Chairs that nobody has reserved.
    pub chairs_available: int,
    /// The queued students, first admitted first.
    pub waiting: Seq<usize>,
    /// Every admission so far, in order.
    pub admitted: Seq<usize>,
    /// Every student taken off the queue so far, in order.
    pub dequeued: Seq<usize>,
}

impl RoomView {
    /// A room with all chairs free and no history.
    pub open spec fn empty(capacity: usize) -> RoomView {
        RoomView {
            capacity,
            chairs_available: capacity as int,
            waiting: Seq::empty(),
            admitted: Seq::empty(),
            dequeued: Seq::empty(),
        }
    }

    /// The queue never outgrows the chairs that are taken, and read in order
    /// the admissions are those who were called followed by those who wait.
    pub open spec fn wf(self) -> bool {
        &&& 0 <= self.chairs_available
        &&& self.chairs_available + self.waiting.len() <= self.capacity
        &&& self.admitted == self.dequeued + self.waiting
    }

    /// With a chair free the student takes it and joins the back of the
    /// queue. Otherwise nothing changes.
    pub open spec fn try_admit(self, id: usize) -> RoomView {
        if self.chairs_available > 0 {
            RoomView {
                chairs_available: self.chairs_available - 1,
                waiting: self.waiting.push(id),
                admitted: self.admitted.push(id),
                ..self
            }
        } else {
            self
        }
    }

    /// The front of the queue is taken off. The chair count stays.
    pub open spec fn dequeue_next(self) -> RoomView {
        if self.waiting.len() > 0 {
            RoomView {
                waiting: self.waiting.subrange(1, self.waiting.len() as int),
                dequeued: self.dequeued.push(self.waiting[0]),
                ..self
            }
        } else {
            self
        }
    }

    /// One chair is given back.
    pub open spec fn release_chair(self) -> RoomView {
        RoomView { chairs_available: self.chairs_available + 1, ..self }
    }
}

/// A bounded first-in first-out waiting room with a counting admission gate.
pub struct WaitingRoom {
    capacity: usize,
    chairs: Semaphore,
    waiting: VecDeque<usize>,
    admitted: Ghost<Seq<usize>>,
    dequeued: Ghost<Seq<usize>>,
}

impl View for WaitingRoom {
    type V = RoomView;

    closed spec fn view(&self) -> RoomView {
        RoomView {
            capacity: self.capacity,
            chairs_available: self.chairs@,
            waiting: self.waiting@,
            admitted: self.admitted@,
            dequeued: self.dequeued@,
        }
    }
}

impl WaitingRoom {
    /// The room's invariant, with the limit that the chair counter imposes.
    pub open spec fn wf(&self) -> bool {
        self@.wf() && self@.capacity <= isize::MAX
    }

    /// A room with `capacity` chairs, all free.
    pub fn new(capacity: usize) -> (room: Self)
        requires
            capacity <= isize::MAX,
        ensures
            room.wf(),
            room@ == RoomView::empty(capacity),
    {
        let room = WaitingRoom {
            capacity,
            chairs: Semaphore::new(capacity as isize),
            waiting: VecDeque::new(),
            admitted: Ghost(Seq::empty()),
            dequeued: Ghost(Seq::empty()),
        };
        assert(room@ =~= RoomView::empty(capacity));
        room
    }

    /// Number of chairs.
    pub fn capacity(&self) -> (capacity: usize)
        ensures
            capacity == self@.capacity,
    {
        self.capacity
    }

    /// Chairs that nobody has reserved.
    pub fn chairs_available(&self) -> (chairs: usize)
        requires
            self.wf(),
        ensures
            chairs == self@.chairs_available,
    {
        self.chairs.permits() as usize
    }

    /// Number of queued students.
    pub fn waiting_count(&self) -> (count: usize)
        ensures
            count == self@.waiting.len(),
    {
        self.waiting.len()
    }

    /// Admits the student if a chair is free, and says whether it did. A
    /// student turned away is not queued and nothing changes.
    pub fn try_admit(&mut self, id: usize) -> (admitted: bool)
        requires
            old(self).wf(),
        ensures
            final(self).wf(),
            admitted == (old(self)@.chairs_available > 0),
            final(self)@ == old(self)@.try_admit(id),
    {
        if self.chairs.try_acquire() {
            self.waiting.push_back(id);
            self.admitted = Ghost(self.admitted@.push(id));
            assert(self@ =~= old(self)@.try_admit(id));
            assert(self@.admitted =~= self@.dequeued + self@.waiting);
            true
        } else {
            false
        }
    }

    /// Takes the student at the front off the queue and returns it, or
    /// returns nothing from an empty queue. No chair is freed.
    pub fn dequeue_next(&mut self) -> (next: Option<usize>)
        requires
            old(self).wf(),
        ensures
            final(self).wf(),
            final(self)@ == old(self)@.dequeue_next(),
            next == if old(self)@.waiting.len() > 0 {
                Some(old(self)@.waiting[0])
            } else {
                None
            },
    {
        match self.waiting.pop_front() {
            Some(id) => {
                self.dequeued = Ghost(self.dequeued@.push(id));
                assert(self@ =~= old(self)@.dequeue_next());
                assert(self@.admitted =~= self@.dequeued + self@.waiting);
                Some(id)
            },
            None => None,
        }
    }

    /// Gives one chair back. Only a chair that is taken by someone who no
    /// longer queues can be given back.
    pub fn release_chair(&mut self)
        requires
            old(self).wf(),
            old(self)@.chairs_available + old(self)@.waiting.len() < old(self)@.capacity,
        ensures
            final(self).wf(),
            final(self)@ == old(self)@.release_chair(),
    {
        self.chairs.release();
        assert(self@ =~= old(self)@.release_chair());
    }
}

} // verus!
