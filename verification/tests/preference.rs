use std::sync::Mutex;
use std::sync::PoisonError;
use torn_status_widget::action::Action;
use torn_status_widget::preference::commit;
use torn_status_widget::preference::decide_close;
use torn_status_widget::preference::lock_failure;
use torn_status_widget::preference::observe_preference;
use torn_status_widget::preference::store_preference;
use torn_status_widget::preference::CloseDecision;
use torn_status_widget::preference::CloseToTrayState;
use torn_status_widget::preference::Observation;
use torn_status_widget::preference::DEFAULT_CLOSE_TO_TRAY;
use torn_status_widget::preference::LOCK_FAILURE_PREFIX;
use torn_status_widget::window::Effect;

/// Writes as a handler does: takes the lock, stores, and releases the lock.
fn set(state: &CloseToTrayState, preference: bool) -> Result<(), String> {
    match store_preference(state.0.lock(), preference) {
        Ok(_guard) => Ok(()),
        Err((message, _guard)) => Err(message),
    }
}

/// Answers a close request as a handler does: takes the lock, reads, decides, and releases
/// the lock.
fn close(state: &CloseToTrayState) -> CloseDecision {
    let (observed, _guard) = observe_preference(state.0.lock());
    decide_close(observed)
}

#[test]
fn default_preference_is_cleared() {
    assert_eq!(DEFAULT_CLOSE_TO_TRAY, false);
    let state = CloseToTrayState::new();
    assert_eq!(*state.0.lock().unwrap(), false);
    assert!(!state.0.is_poisoned());
}

#[test]
fn close_request_on_fresh_state_terminates() {
    let state = CloseToTrayState::new();
    let decision = close(&state);
    assert_eq!(decision.action, Action::Terminate);
    assert_eq!(decision.observed, Observation { close_to_tray: false, poisoned: false });
    assert_eq!(decision.effects, vec![Effect::Exit(0)]);
}

#[test]
fn set_true_then_close_hides() {
    let state = CloseToTrayState::new();
    assert_eq!(set(&state, true), Ok(()));
    let decision = close(&state);
    assert_eq!(decision.action, Action::Hide);
    assert_eq!(decision.observed, Observation { close_to_tray: true, poisoned: false });
    assert_eq!(decision.effects, vec![Effect::HideWindow, Effect::PreventClose]);
    assert!(!decision.effects.contains(&Effect::Exit(0)));
    assert_eq!(*state.0.lock().unwrap(), true);
}

#[test]
fn set_false_then_close_terminates() {
    let state = CloseToTrayState(Mutex::new(true));
    assert_eq!(set(&state, false), Ok(()));
    let decision = close(&state);
    assert_eq!(decision.action, Action::Terminate);
    assert_eq!(decision.effects, vec![Effect::Exit(0)]);
    assert!(!decision.effects.contains(&Effect::PreventClose));
}

#[test]
fn last_write_wins_over_a_run_of_writes() {
    let state = CloseToTrayState::new();
    let writes = [true, true, false, true, false, false, true];
    for (done, write) in writes.iter().enumerate() {
        set(&state, *write).unwrap();
        let decision = close(&state);
        assert_eq!(decision.observed.close_to_tray, writes[done]);
        let expected = if writes[done] { Action::Hide } else { Action::Terminate };
        assert_eq!(decision.action, expected);
    }
    assert_eq!(close(&state).action, Action::Hide);
}

#[test]
fn close_request_does_not_change_the_preference() {
    for close_to_tray in [false, true] {
        let state = CloseToTrayState(Mutex::new(close_to_tray));
        let first = close(&state);
        let second = close(&state);
        assert_eq!(first, second);
        assert_eq!(*state.0.lock().unwrap(), close_to_tray);
    }
}

#[test]
fn commit_overwrites_the_slot() {
    let mut slot = false;
    commit(&mut slot, true);
    assert_eq!(slot, true);
    commit(&mut slot, true);
    assert_eq!(slot, true);
    commit(&mut slot, false);
    assert_eq!(slot, false);
}

#[test]
fn decide_close_for_each_observation() {
    let hide = decide_close(Observation { close_to_tray: true, poisoned: false });
    assert_eq!(hide.action, Action::Hide);
    assert_eq!(hide.effects, vec![Effect::HideWindow, Effect::PreventClose]);

    let end = decide_close(Observation { close_to_tray: false, poisoned: false });
    assert_eq!(end.action, Action::Terminate);
    assert_eq!(end.effects, vec![Effect::Exit(0)]);

    let hide_poisoned = decide_close(Observation { close_to_tray: true, poisoned: true });
    assert_eq!(hide_poisoned.action, Action::Hide);
    assert_eq!(
        hide_poisoned.effects,
        vec![Effect::ReportPoisonedLock, Effect::HideWindow, Effect::PreventClose]
    );

    let end_poisoned = decide_close(Observation { close_to_tray: false, poisoned: true });
    assert_eq!(end_poisoned.action, Action::Terminate);
    assert_eq!(end_poisoned.observed, Observation { close_to_tray: false, poisoned: true });
    assert_eq!(end_poisoned.effects, vec![Effect::ReportPoisonedLock, Effect::Exit(0)]);
}

#[test]
fn lock_failure_message_has_the_prefix() {
    assert_eq!(LOCK_FAILURE_PREFIX, "[Rust Backend] Error locking CloseToTrayState: ");
    assert_eq!(
        lock_failure("lock gone"),
        "[Rust Backend] Error locking CloseToTrayState: lock gone"
    );
    assert_eq!(lock_failure(""), "[Rust Backend] Error locking CloseToTrayState: ");
}

#[test]
fn poisoned_lock_is_reported_exactly_once() {
    for close_to_tray in [false, true] {
        let decision = decide_close(Observation { close_to_tray, poisoned: true });
        let reports =
            decision.effects.iter().filter(|effect| **effect == Effect::ReportPoisonedLock).count();
        assert_eq!(reports, 1);
        assert_eq!(decision.effects[0], Effect::ReportPoisonedLock);
        let clean = decide_close(Observation { close_to_tray, poisoned: false });
        assert!(!clean.effects.contains(&Effect::ReportPoisonedLock));
        assert_eq!(decision.action, clean.action);
        assert_eq!(decision.effects[1..], clean.effects[..]);
    }
}

#[test]
fn unpoisoned_lock_is_never_reported() {
    let state = CloseToTrayState::new();
    for write in [false, true, false] {
        set(&state, write).unwrap();
        let decision = close(&state);
        assert!(!decision.observed.poisoned);
        assert!(!decision.effects.contains(&Effect::ReportPoisonedLock));
    }
}

#[test]
fn store_writes_where_the_lock_is_sound() {
    let mutex = Mutex::new(false);
    match store_preference(mutex.lock(), true) {
        Ok(guard) => assert_eq!(*guard, true),
        Err((message, _guard)) => panic!("a sound lock was refused: {}", message),
    }
    assert_eq!(*mutex.lock().unwrap(), true);
    match store_preference(mutex.lock(), false) {
        Ok(guard) => assert_eq!(*guard, false),
        Err((message, _guard)) => panic!("a sound lock was refused: {}", message),
    }
    assert_eq!(*mutex.lock().unwrap(), false);
}

#[test]
fn store_on_poisoned_lock_fails_and_changes_nothing() {
    for held in [false, true] {
        let mutex = Mutex::new(held);
        let poisoned = Err(PoisonError::new(mutex.lock().unwrap()));
        match store_preference(poisoned, !held) {
            Ok(_) => panic!("a poisoned lock was written through"),
            Err((message, guard)) => {
                assert_eq!(
                    message,
                    "[Rust Backend] Error locking CloseToTrayState: poisoned lock: another task failed inside"
                );
                assert_eq!(*guard, held);
            }
        }
        assert_eq!(*mutex.lock().unwrap(), held);
    }
}

#[test]
fn store_hands_the_held_lock_back() {
    let mutex = Mutex::new(false);
    let stored = store_preference(mutex.lock(), true);
    assert!(stored.is_ok());
    assert!(mutex.try_lock().is_err());
    drop(stored);
    assert!(mutex.try_lock().is_ok());
    let poisoned = Err(PoisonError::new(mutex.lock().unwrap()));
    let refused = store_preference(poisoned, false);
    assert!(refused.is_err());
    assert!(mutex.try_lock().is_err());
    drop(refused);
    assert!(mutex.try_lock().is_ok());
}

#[test]
fn observe_reads_a_sound_lock_and_leaves_the_value() {
    for close_to_tray in [false, true] {
        let mutex = Mutex::new(close_to_tray);
        let (observed, guard) = observe_preference(mutex.lock());
        assert_eq!(observed, Observation { close_to_tray, poisoned: false });
        assert_eq!(*guard, close_to_tray);
        assert!(mutex.try_lock().is_err());
        drop(guard);
        assert_eq!(*mutex.lock().unwrap(), close_to_tray);
    }
}

#[test]
fn observe_recovers_the_value_of_a_poisoned_lock() {
    for close_to_tray in [false, true] {
        let mutex = Mutex::new(close_to_tray);
        let poisoned = Err(PoisonError::new(mutex.lock().unwrap()));
        let (observed, guard) = observe_preference(poisoned);
        assert_eq!(observed, Observation { close_to_tray, poisoned: true });
        assert_eq!(*guard, close_to_tray);
        drop(guard);
        assert_eq!(*mutex.lock().unwrap(), close_to_tray);
    }
}

#[test]
fn close_on_poisoned_lock_decides_by_the_last_written_value() {
    let state = CloseToTrayState::new();
    set(&state, true).unwrap();
    let poisoned = Err(PoisonError::new(state.0.lock().unwrap()));
    let (observed, guard) = observe_preference(poisoned);
    drop(guard);
    let decision = decide_close(observed);
    assert_eq!(decision.observed, Observation { close_to_tray: true, poisoned: true });
    assert_eq!(decision.action, Action::Hide);
    assert_eq!(
        decision.effects,
        vec![Effect::ReportPoisonedLock, Effect::HideWindow, Effect::PreventClose]
    );
}

#[test]
fn refused_write_plays_no_part_in_the_close_decision() {
    for held in [false, true] {
        let state = CloseToTrayState(Mutex::new(held));
        let poisoned = Err(PoisonError::new(state.0.lock().unwrap()));
        let refused = store_preference(poisoned, !held);
        assert!(refused.is_err());
        drop(refused);
        let poisoned = Err(PoisonError::new(state.0.lock().unwrap()));
        let (observed, guard) = observe_preference(poisoned);
        drop(guard);
        let decision = decide_close(observed);
        assert_eq!(decision.observed, Observation { close_to_tray: held, poisoned: true });
        let expected = if held { Action::Hide } else { Action::Terminate };
        assert_eq!(decision.action, expected);
    }
}
