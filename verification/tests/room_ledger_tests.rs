use sleeping_ta::ledger::SessionLedger;
use sleeping_ta::waiting_room::WaitingRoom;

#[test]
fn room_admits_until_the_chairs_are_taken() {
    let mut room = WaitingRoom::new(2);
    assert_eq!(room.capacity(), 2);
    assert_eq!(room.chairs_available(), 2);
    assert!(room.try_admit(7));
    assert!(room.try_admit(9));
    assert_eq!(room.chairs_available(), 0);
    assert_eq!(room.waiting_count(), 2);
    assert!(!room.try_admit(4));
    assert_eq!(room.chairs_available(), 0);
    assert_eq!(room.waiting_count(), 2);
}

#[test]
fn room_hands_students_out_first_in_first_out() {
    let mut room = WaitingRoom::new(3);
    assert!(room.try_admit(5));
    assert!(room.try_admit(1));
    assert!(room.try_admit(8));
    assert_eq!(room.dequeue_next(), Some(5));
    assert_eq!(room.dequeue_next(), Some(1));
    assert_eq!(room.dequeue_next(), Some(8));
    assert_eq!(room.dequeue_next(), None);
    assert_eq!(room.waiting_count(), 0);
}

#[test]
fn dequeue_frees_no_chair_and_release_frees_one() {
    let mut room = WaitingRoom::new(1);
    assert!(room.try_admit(0));
    assert_eq!(room.dequeue_next(), Some(0));
    assert_eq!(room.chairs_available(), 0);
    assert!(!room.try_admit(1));
    room.release_chair();
    assert_eq!(room.chairs_available(), 1);
    assert!(room.try_admit(1));
}

#[test]
fn room_without_chairs_admits_nobody() {
    let mut room = WaitingRoom::new(0);
    assert!(!room.try_admit(0));
    assert_eq!(room.dequeue_next(), None);
    assert_eq!(room.waiting_count(), 0);
}

#[test]
fn ledger_counts_sessions_per_student() {
    let mut ledger = SessionLedger::new(3, 2);
    assert_eq!(ledger.roster_size(), 3);
    assert_eq!(ledger.sessions_required(), 2);
    for id in 0..3 {
        assert_eq!(ledger.sessions_done(id), 0);
        assert!(!ledger.is_done(id));
    }
    ledger.record_session(1);
    assert_eq!(ledger.sessions_done(1), 1);
    assert_eq!(ledger.sessions_done(0), 0);
    assert_eq!(ledger.sessions_done(2), 0);
    assert!(!ledger.is_done(1));
    ledger.record_session(1);
    assert_eq!(ledger.sessions_done(1), 2);
    assert!(ledger.is_done(1));
    assert!(!ledger.all_done());
}

#[test]
fn ledger_is_all_done_when_every_student_is() {
    let mut ledger = SessionLedger::new(2, 1);
    assert!(!ledger.all_done());
    ledger.record_session(0);
    assert!(!ledger.all_done());
    ledger.record_session(1);
    assert!(ledger.all_done());
    assert!(ledger.is_done(0));
    assert!(ledger.is_done(1));
}

#[test]
fn ledger_knows_nobody_off_the_roster() {
    let ledger = SessionLedger::new(2, 0);
    assert!(ledger.is_done(0));
    assert!(ledger.is_done(1));
    assert!(!ledger.is_done(2));
    assert!(ledger.all_done());
    let empty = SessionLedger::new(0, 3);
    assert!(empty.all_done());
    assert!(!empty.is_done(0));
}
