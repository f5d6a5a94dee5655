use sleeping_ta::events::{admission_events, ta_event, Event};
use sleeping_ta::model::{StudentAction, TaAction};
use sleeping_ta::workload::{DelayRange, Workload};

#[test]
fn empty_ranges_are_refused() {
    assert!(DelayRange::new(5, 5).is_none());
    assert!(DelayRange::new(6, 5).is_none());
    assert!(DelayRange::new(0, 0).is_none());
    let range = DelayRange::new(5, 6).unwrap();
    assert_eq!(range.low(), 5);
    assert_eq!(range.high(), 6);
}

#[test]
fn range_contains_its_low_end_and_not_its_high_end() {
    let range = DelayRange::new(1000, 3000).unwrap();
    assert!(range.contains(1000));
    assert!(range.contains(2999));
    assert!(!range.contains(3000));
    assert!(!range.contains(999));
}

#[test]
fn samples_lie_in_the_range() {
    let range = DelayRange::new(1000, 3000).unwrap();
    for _ in 0..1000 {
        let ms = range.sample();
        assert!(1000 <= ms && ms < 3000);
    }
    let single = DelayRange::new(42, 43).unwrap();
    for _ in 0..100 {
        assert_eq!(single.sample(), 42);
    }
}

#[test]
fn samples_are_not_all_the_same() {
    let range = DelayRange::new(0, u64::MAX).unwrap();
    let first = range.sample();
    let mut differs = false;
    for _ in 0..64 {
        if range.sample() != first {
            differs = true;
        }
    }
    assert!(differs);
}

#[test]
fn ta_spends_time_on_help_sessions_only() {
    let workload = Workload::new();
    for _ in 0..200 {
        let ms = workload.ta_delay(TaAction::Help(3)).unwrap();
        assert!(1000 <= ms && ms < 3000);
    }
    assert_eq!(workload.ta_delay(TaAction::Sleep), None);
    assert_eq!(workload.ta_delay(TaAction::Dismiss(3)), None);
    assert_eq!(workload.ta_delay(TaAction::Finish), None);
}

#[test]
fn students_spend_time_on_work_and_on_backing_off() {
    let workload = Workload::new();
    for _ in 0..200 {
        let work = workload.student_delay(StudentAction::Work).unwrap();
        assert!(2000 <= work && work < 5000);
        let retry = workload.student_delay(StudentAction::Backoff).unwrap();
        assert!(1000 <= retry && retry < 3000);
    }
    assert_eq!(workload.student_delay(StudentAction::AwaitTurn), None);
    assert_eq!(workload.student_delay(StudentAction::Exit), None);
}

#[test]
fn workload_uses_the_ranges_it_was_given() {
    let workload = Workload::with_ranges(
        DelayRange::new(10, 11).unwrap(),
        DelayRange::new(20, 21).unwrap(),
        DelayRange::new(30, 31).unwrap(),
    );
    assert_eq!(workload.student_delay(StudentAction::Work), Some(10));
    assert_eq!(workload.ta_delay(TaAction::Help(0)), Some(20));
    assert_eq!(workload.student_delay(StudentAction::Backoff), Some(30));
}

#[test]
fn admission_is_reported_as_arrival_then_outcome() {
    assert_eq!(admission_events(3, true), vec![Event::Arrival(3), Event::Admitted(3)]);
    assert_eq!(admission_events(4, false), vec![Event::Arrival(4), Event::Rejected(4)]);
}

#[test]
fn ta_steps_are_reported_but_for_falling_asleep() {
    assert_eq!(ta_event(TaAction::Help(2)), Some(Event::SessionStart(2)));
    assert_eq!(ta_event(TaAction::Dismiss(2)), Some(Event::SessionEnd(2)));
    assert_eq!(ta_event(TaAction::Finish), Some(Event::AllDone));
    assert_eq!(ta_event(TaAction::Sleep), None);
}
