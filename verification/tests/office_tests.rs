use sleeping_ta::model::{StudentAction, StudentState, TaAction, TaState};
use sleeping_ta::office::{
    student_thread, ta_thread, TAOffice, MAX_HELP_SESSIONS, NUM_CHAIRS, NUM_STUDENTS,
};

fn occupied(office: &TAOffice) -> usize {
    office.capacity() - office.chairs_available()
}

#[test]
fn default_office_has_five_students_three_chairs_two_sessions() {
    let office = TAOffice::new();
    assert_eq!(NUM_STUDENTS, 5);
    assert_eq!(NUM_CHAIRS, 3);
    assert_eq!(MAX_HELP_SESSIONS, 2);
    assert_eq!(office.roster_size(), 5);
    assert_eq!(office.capacity(), 3);
    assert_eq!(office.sessions_required(), 2);
    assert_eq!(office.chairs_available(), 3);
    assert_eq!(office.waiting_count(), 0);
    assert_eq!(office.ta_state(), TaState::Scanning);
    assert!(office.ta_awake());
    assert_eq!(office.serving(), None);
    for id in 0..5 {
        assert_eq!(office.get_help_count(id), 0);
        assert_eq!(office.student_state(id), StudentState::Working);
        assert!(!office.is_done(id));
    }
    assert!(!office.all_students_done());
}

#[test]
fn office_without_sessions_is_done_from_the_start() {
    let mut office = TAOffice::with_config(2, 1, 0);
    assert!(office.all_students_done());
    assert_eq!(office.student_state(0), StudentState::Done);
    assert!(!office.student_seeks_help(0));
    assert_eq!(student_thread(1, &mut office), StudentAction::Exit);
    assert_eq!(office.ta_work(), TaAction::Finish);
    assert_eq!(office.ta_state(), TaState::Finished);
}

#[test]
fn empty_roster_finishes_at_once() {
    let mut office = TAOffice::with_config(0, 3, 2);
    assert!(office.all_students_done());
    assert_eq!(ta_thread(&mut office), TaAction::Finish);
    assert!(!office.student_seeks_help(0));
}

#[test]
fn lone_student_is_admitted_served_once_and_both_stop() {
    let mut office = TAOffice::with_config(1, 1, 1);
    assert_eq!(ta_thread(&mut office), TaAction::Sleep);
    assert!(!office.ta_awake());

    assert_eq!(student_thread(0, &mut office), StudentAction::AwaitTurn);
    assert!(office.ta_awake());
    assert_eq!(office.student_state(0), StudentState::Waiting);
    assert_eq!(office.chairs_available(), 0);

    assert_eq!(office.ta_work(), TaAction::Help(0));
    assert_eq!(office.serving(), Some(0));
    assert_eq!(office.student_state(0), StudentState::BeingHelped);
    assert!(!office.session_over(0));
    assert_eq!(student_thread(0, &mut office), StudentAction::AwaitTurn);

    assert_eq!(office.ta_work(), TaAction::Dismiss(0));
    assert_eq!(office.serving(), None);
    assert_eq!(office.get_help_count(0), 1);
    assert!(office.session_over(0));

    assert_eq!(office.ta_work(), TaAction::Finish);
    assert_eq!(office.ta_state(), TaState::Finished);
    assert_eq!(office.ta_work(), TaAction::Finish);

    assert_eq!(student_thread(0, &mut office), StudentAction::Exit);
    assert_eq!(office.student_state(0), StudentState::Done);
    assert_eq!(office.chairs_available(), 1);
    assert_eq!(office.get_help_count(0), 1);
    assert_eq!(student_thread(0, &mut office), StudentAction::Exit);
}

#[test]
fn fourth_and_fifth_student_are_rejected_then_admitted_once_a_chair_frees() {
    let mut office = TAOffice::with_config(5, 3, 2);
    assert!(office.student_seeks_help(0));
    assert!(office.student_seeks_help(1));
    assert!(office.student_seeks_help(2));
    assert_eq!(office.chairs_available(), 0);
    assert_eq!(office.waiting_count(), 3);

    assert!(!office.student_seeks_help(3));
    assert!(!office.student_seeks_help(4));
    assert_eq!(office.student_state(3), StudentState::Working);
    assert_eq!(office.student_state(4), StudentState::Working);
    assert_eq!(office.waiting_count(), 3);
    assert_eq!(office.chairs_available(), 0);
    assert_eq!(student_thread(3, &mut office), StudentAction::Backoff);

    // Taking a student off the queue frees no chair.
    assert_eq!(office.ta_work(), TaAction::Help(0));
    assert_eq!(office.waiting_count(), 2);
    assert_eq!(office.chairs_available(), 0);
    assert!(!office.student_seeks_help(3));
    assert_eq!(office.ta_work(), TaAction::Dismiss(0));
    assert_eq!(office.chairs_available(), 0);
    assert!(!office.student_seeks_help(3));

    // Student 0 leaves: one chair is free, for one of the two.
    assert!(office.release_chair(0));
    assert_eq!(office.chairs_available(), 1);
    assert!(office.student_seeks_help(3));
    assert!(!office.student_seeks_help(4));

    assert_eq!(office.ta_work(), TaAction::Help(1));
    assert_eq!(office.ta_work(), TaAction::Dismiss(1));
    assert_eq!(student_thread(1, &mut office), StudentAction::Work);
    assert!(office.student_seeks_help(4));
    assert_eq!(office.waiting_count(), 3);
    assert_eq!(office.chairs_available(), 0);
}

#[test]
fn sleeping_ta_wakes_once_and_serves_both_in_admission_order() {
    let mut office = TAOffice::with_config(3, 3, 1);
    assert_eq!(office.ta_work(), TaAction::Sleep);
    assert_eq!(office.ta_state(), TaState::Asleep);
    assert_eq!(office.ta_work(), TaAction::Sleep);

    assert!(office.student_seeks_help(2));
    assert_eq!(office.ta_state(), TaState::Scanning);
    assert!(office.student_seeks_help(0));
    assert_eq!(office.ta_state(), TaState::Scanning);

    assert_eq!(office.ta_work(), TaAction::Help(2));
    assert_eq!(office.ta_work(), TaAction::Dismiss(2));
    assert_eq!(office.ta_work(), TaAction::Help(0));
    assert_eq!(office.ta_work(), TaAction::Dismiss(0));
    assert_eq!(office.ta_work(), TaAction::Sleep);
    assert_eq!(office.ta_state(), TaState::Asleep);
    assert_eq!(office.get_help_count(2), 1);
    assert_eq!(office.get_help_count(0), 1);
    assert_eq!(office.get_help_count(1), 0);
}

#[test]
fn ta_thread_drains_the_queue_and_then_rests() {
    let mut office = TAOffice::new();
    assert!(office.student_seeks_help(4));
    assert!(office.student_seeks_help(1));
    assert!(office.student_seeks_help(3));
    assert_eq!(ta_thread(&mut office), TaAction::Sleep);
    assert_eq!(office.waiting_count(), 0);
    assert_eq!(office.serving(), None);
    assert!(!office.ta_awake());
    for id in [4, 1, 3] {
        assert_eq!(office.get_help_count(id), 1);
        assert_eq!(office.student_state(id), StudentState::Helped);
    }
    assert_eq!(office.get_help_count(0), 0);
    assert_eq!(office.get_help_count(2), 0);
    // The chairs stay taken until the students leave.
    assert_eq!(office.chairs_available(), 0);
}

#[test]
fn ta_thread_ends_a_session_in_progress_first() {
    let mut office = TAOffice::with_config(2, 2, 1);
    assert!(office.student_seeks_help(1));
    assert_eq!(office.ta_work(), TaAction::Help(1));
    assert!(office.student_seeks_help(0));
    assert_eq!(ta_thread(&mut office), TaAction::Finish);
    assert_eq!(office.get_help_count(0), 1);
    assert_eq!(office.get_help_count(1), 1);
    assert_eq!(office.ta_state(), TaState::Finished);
}

#[test]
fn seeking_help_is_refused_off_the_roster_and_when_not_at_work() {
    let mut office = TAOffice::with_config(2, 2, 1);
    assert!(!office.student_seeks_help(2));
    assert!(!office.student_seeks_help(usize::MAX));
    assert!(office.student_seeks_help(0));
    // Already queued.
    assert!(!office.student_seeks_help(0));
    assert_eq!(office.waiting_count(), 1);
    assert_eq!(office.chairs_available(), 1);
    assert_eq!(office.ta_work(), TaAction::Help(0));
    // In session.
    assert!(!office.student_seeks_help(0));
    assert_eq!(office.ta_work(), TaAction::Dismiss(0));
    // Session over, chair not yet given back.
    assert!(!office.student_seeks_help(0));
    assert!(office.release_chair(0));
    // Done.
    assert!(!office.student_seeks_help(0));
    assert_eq!(office.chairs_available(), 2);
    assert_eq!(office.get_help_count(0), 1);
}

#[test]
fn chair_is_released_exactly_once_and_only_after_the_session() {
    let mut office = TAOffice::with_config(2, 2, 2);
    assert!(!office.release_chair(0));
    assert!(!office.release_chair(7));
    assert!(office.student_seeks_help(0));
    assert!(!office.release_chair(0));
    assert_eq!(office.ta_work(), TaAction::Help(0));
    assert!(!office.release_chair(0));
    assert_eq!(office.ta_work(), TaAction::Dismiss(0));
    assert_eq!(office.chairs_available(), 1);
    assert!(office.release_chair(0));
    assert_eq!(office.chairs_available(), 2);
    assert!(!office.release_chair(0));
    assert_eq!(office.chairs_available(), 2);
    assert_eq!(office.student_state(0), StudentState::Working);
}

#[test]
fn admission_wakes_a_sleeping_ta() {
    let mut office = TAOffice::with_config(2, 1, 1);
    assert_eq!(office.ta_work(), TaAction::Sleep);
    assert!(!office.ta_awake());
    // A rejected or impossible attempt does not wake it.
    assert!(!office.student_seeks_help(5));
    assert!(!office.ta_awake());
    assert!(office.student_seeks_help(1));
    assert!(office.ta_awake());
}

#[test]
fn office_without_chairs_turns_everyone_away() {
    let mut office = TAOffice::with_config(2, 0, 1);
    assert!(!office.student_seeks_help(0));
    assert_eq!(student_thread(1, &mut office), StudentAction::Backoff);
    assert_eq!(office.ta_work(), TaAction::Sleep);
    assert!(!office.all_students_done());
}

#[test]
fn is_done_stays_true_after_completion() {
    let mut office = TAOffice::with_config(2, 2, 1);
    assert!(office.student_seeks_help(0));
    assert_eq!(ta_thread(&mut office), TaAction::Sleep);
    assert!(office.is_done(0));
    assert!(office.is_done(0));
    assert!(office.release_chair(0));
    assert!(office.is_done(0));
    assert!(office.student_seeks_help(1));
    assert!(office.is_done(0));
    assert_eq!(ta_thread(&mut office), TaAction::Finish);
    assert!(office.release_chair(1));
    assert!(office.is_done(0));
    assert!(office.is_done(1));
    assert!(!office.is_done(2));
    assert!(office.all_students_done());
}

#[test]
fn round_robin_run_ends_with_everyone_served_exactly() {
    let mut office = TAOffice::new();
    let work_at_start = 8 * 5 * 2 + 1;
    let mut changes = 0;
    let mut rounds = 0;
    let mut last_counts = vec![0usize; 5];
    loop {
        let mut all_exit = true;
        for id in 0..5 {
            let before = office.student_state(id);
            let action = student_thread(id, &mut office);
            if office.student_state(id) != before {
                changes += 1;
            }
            if action != StudentAction::Exit {
                all_exit = false;
            }
            assert!(occupied(&office) <= office.capacity());
            assert!(office.waiting_count() <= occupied(&office));
        }
        let before = office.ta_state();
        let action = office.ta_work();
        if office.ta_state() != before {
            changes += 1;
        }
        if office.ta_state() == TaState::Asleep {
            assert_eq!(office.waiting_count(), 0);
        }
        for id in 0..5 {
            let count = office.get_help_count(id);
            assert!(count >= last_counts[id]);
            assert!(count <= 2);
            last_counts[id] = count;
        }
        rounds += 1;
        assert!(rounds < 1000);
        if all_exit && action == TaAction::Finish {
            break;
        }
    }
    assert!(changes <= work_at_start);
    for id in 0..5 {
        assert_eq!(office.get_help_count(id), 2);
        assert_eq!(office.student_state(id), StudentState::Done);
    }
    assert_eq!(office.chairs_available(), 3);
    assert_eq!(office.ta_state(), TaState::Finished);
    assert!(office.all_students_done());
}

#[test]
fn students_are_served_in_the_order_of_their_admission() {
    let mut office = TAOffice::with_config(4, 4, 1);
    let order = [3usize, 0, 2, 1];
    for id in order {
        assert!(office.student_seeks_help(id));
    }
    let mut served = Vec::new();
    loop {
        match office.ta_work() {
            TaAction::Help(id) => served.push(id),
            TaAction::Dismiss(_) => {}
            TaAction::Sleep | TaAction::Finish => break,
        }
    }
    assert_eq!(served, vec![3, 0, 2, 1]);
}
