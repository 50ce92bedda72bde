use crate::action::close_action;
use crate::action::Action;
use crate::window::action_effects;
use crate::window::count_of;
use crate::window::effects_for_action;
use crate::window::effects_of;
use crate::window::next_stage;
use crate::window::perform_all;
use crate::window::Effect;
use crate::window::Event;
use crate::window::Stage;
use crate::window::WindowState;
use std::sync::LockResult;
use std::sync::Mutex;
use std::sync::MutexGuard;
use std::sync::PoisonError;
use vstd::prelude::*;
use vstd::string::StringExecFns;

verus! {

/// `std::sync::Mutex`, carried as an opaque value. What it guards at a given moment is known
/// only through a guard.
#[verifier::external_type_specification]
#[verifier::external_body]
#[verifier::reject_recursive_types(T)]
pub struct ExMutex<T: ?Sized>(Mutex<T>);

/// `std::sync::MutexGuard`, the proof of a held lock. The value is opaque; what it gives
/// access to goes by the name `held`.
#[verifier::external_type_specification]
#[verifier::external_body]
#[verifier::reject_recursive_types(T)]
pub struct ExMutexGuard<'a, T: ?Sized + 'a>(MutexGuard<'a, T>);

/// `std::sync::PoisonError`, which a lock hands out in place of its guard once a holder has
/// panicked. The value is opaque.
#[verifier::external_type_specification]
#[verifier::external_body]
#[verifier::reject_recursive_types(T)]
pub struct ExPoisonError<T>(PoisonError<T>);

/// The value that a mutex was made around. It is a fact of the mutex's making and stays what
/// it is while the guarded value changes: of what a mutex guards at a given moment no
/// contract here speaks but through a guard, by `held`.
pub uninterp spec fn made_around(mutex: Mutex<bool>) -> bool;

/// `std::sync::Mutex::new` makes a mutex around `value`. The contract records the value that
/// the mutex was made around and claims nothing else of it.
#[verifier::external_body]
fn mutex_around(value: bool) -> (mutex: Mutex<bool>)
    ensures
        made_around(mutex) == value,
{
    Mutex::new(value)
}

/// The value behind a held lock: what the guard gives access to.
pub uninterp spec fn held(guard: MutexGuard<bool>) -> bool;

/// The value behind the lock whose guard a poison error carries.
pub uninterp spec fn held_by(error: PoisonError<MutexGuard<bool>>) -> bool;

/// The words in which a poison error gives account of itself.
pub uninterp spec fn account_of(error: PoisonError<MutexGuard<bool>>) -> Seq<char>;

/// `DerefMut::deref_mut` of `std::sync::MutexGuard`: the guarded value, for writing, for as long
/// as the guard is borrowed. The reference starts at the value that the guard holds, and what
/// is written through it is what the guard holds afterwards.
#[verifier::external_body]
fn guarded_mut<'a, 'b>(guard: &'a mut MutexGuard<'b, bool>) -> (slot: &'a mut bool)
    ensures
        *slot == held(*old(guard)),
        held(*final(guard)) == *final(slot),
{
    &mut **guard
}

/// `Deref::deref` of `std::sync::MutexGuard`: the guarded value, for reading.
#[verifier::external_body]
fn guarded<'a, 'b>(guard: &'a MutexGuard<'b, bool>) -> (slot: &'a bool)
    ensures
        *slot == held(*guard),
{
    &**guard
}

/// `std::sync::PoisonError::into_inner` gives up the guard that the error carries, and with it
/// the access to the value behind the poisoned lock.
#[verifier::external_body]
fn recovered<'a>(error: PoisonError<MutexGuard<'a, bool>>) -> (guard: MutexGuard<'a, bool>)
    ensures
        held(guard) == held_by(error),
{
    error.into_inner()
}

/// `ToString::to_string` of `std::sync::PoisonError`, that is the text that its `Display`
/// writes. The contract gives the text a name and claims nothing of its wording.
#[verifier::external_body]
fn poison_text<'a>(error: &PoisonError<MutexGuard<'a, bool>>) -> (text: String)
    ensures
        text@ == account_of(*error),
{
    error.to_string()
}

/// The preference that the application starts with: closing the window ends the process.
pub const DEFAULT_CLOSE_TO_TRAY: bool = false;

/// How every report of a failed preference write begins.
pub const LOCK_FAILURE_PREFIX: &'static str = "[Rust Backend] Error locking CloseToTrayState: ";

/// The close-to-tray preference of the running application, behind its lock. One value of this
/// type lives as long as the process and is handed by reference to every handler that reads or
/// writes the preference, on whatever thread the handler runs. A handler takes the lock itself
/// and hands what it got to `store_preference` or `observe_preference`; it releases the lock by
/// dropping the guard that comes back. Taking the lock is left to the handler because a thread
/// that asks for a lock it already holds may panic or wait for ever, and only the handler
/// knows what its thread holds.
pub struct CloseToTrayState(pub Mutex<bool>);

/// What reading the preference under the lock gave.
#[derive(Clone, Copy, Debug, PartialEq, Eq, Structural)]
pub struct Observation {
    /// The value found behind the lock.
    pub close_to_tray: bool,
    /// Whether the lock was poisoned, so that the value is the last one written before a
    /// holder panicked.
    pub poisoned: bool,
}

/// The answer to a close request.
#[derive(Debug, PartialEq, Eq)]
pub struct CloseDecision {
    /// What was read under the lock.
    pub observed: Observation,
    /// Whether the window hides or the process ends.
    pub action: Action,
    /// The requests for the host, in order.
    pub effects: Vec<Effect>,
}

/// The value that a write leaves in the preference: the one written, whatever stood there.
pub open spec fn written(previous: bool, preference: bool) -> bool {
    preference
}

/// The value that a run of writes leaves in a preference that started as `initial`, the writes
/// taking effect one after the other.
pub open spec fn after_writes(initial: bool, writes: Seq<bool>) -> bool
    decreases writes.len(),
{
    if writes.len() == 0 {
        initial
    } else {
        written(after_writes(initial, writes.drop_last()), writes.last())
    }
}

/// The report of a preference write that found the lock poisoned, `detail` being the lock's own
/// account of the failure.
pub open spec fn lock_failure_message(detail: Seq<char>) -> Seq<char> {
    LOCK_FAILURE_PREFIX@ + detail
}

/// The requests that answer a close request after `observed` was read: the report of a
/// poisoned lock first, where there was one, then what carries the action out.
pub open spec fn decision_effects(observed: Observation) -> Seq<Effect> {
    let report = if observed.poisoned {
        seq![Effect::ReportPoisonedLock]
    } else {
        Seq::<Effect>::empty()
    };
    report + action_effects(close_action(observed.close_to_tray))
}

impl CloseDecision {
    /// The decision follows from what was observed, and from nothing else.
    pub open spec fn follows_observation(&self) -> bool {
        &&& self.action == close_action(self.observed.close_to_tray)
        &&& self.effects@ == decision_effects(self.observed)
    }
}

/// The write that happens under the lock: `slot` takes `preference`.
pub fn commit(slot: &mut bool, preference: bool)
    ensures
        *final(slot) == written(*old(slot), preference),
{
    *slot = preference;
}

/// Words the report of a preference write that found the lock poisoned.
pub fn lock_failure(detail: &str) -> (message: String)
    ensures
        message@ == lock_failure_message(detail@),
{
    let mut message = String::from_str(LOCK_FAILURE_PREFIX);
    message.append(detail);
    message
}

/// Answers a close request from what was read under the lock. A poisoned lock is no reason to
/// fail: the value that the lock still holds, the last one written, decides as any other would,
/// and the anomaly is reported once, ahead of the other requests.
pub fn decide_close(observed: Observation) -> (decision: CloseDecision)
    ensures
        decision.observed == observed,
        decision.follows_observation(),
{
    let action = Action::for_preference(observed.close_to_tray);
    let mut effects: Vec<Effect> = Vec::new();
    if observed.poisoned {
        effects.push(Effect::ReportPoisonedLock);
    }
    let mut carried = effects_for_action(action);
    effects.append(&mut carried);
    CloseDecision { observed, action, effects }
}

/// What reading the preference off the result of taking the lock gives: the value behind the
/// guard, and whether the guard came inside a poison error.
pub open spec fn observation_of(lock: LockResult<MutexGuard<bool>>) -> Observation {
    match lock {
        Ok(guard) => Observation { close_to_tray: held(guard), poisoned: false },
        Err(error) => Observation { close_to_tray: held_by(error), poisoned: true },
    }
}

/// Carries a preference write out on what taking the lock gave. With the guard in hand the
/// value behind it takes `preference`. With a poisoned lock the write is refused: the value
/// behind the lock stays as it was, and the refusal is put in words, the lock's own account of
/// it behind `LOCK_FAILURE_PREFIX`. Either way the guard comes back, the lock still held, for
/// the caller to release.
pub fn store_preference<'a>(lock: LockResult<MutexGuard<'a, bool>>, preference: bool) -> (result:
    Result<MutexGuard<'a, bool>, (String, MutexGuard<'a, bool>)>)
    ensures
        match lock {
            Ok(before) => result matches Ok(after) && held(after) == written(
                held(before),
                preference,
            ),
            Err(error) => result matches Err(refusal) && refusal.0@ == lock_failure_message(
                account_of(error),
            ) && held(refusal.1) == held_by(error),
        },
{
    match lock {
        Ok(mut guard) => {
            commit(guarded_mut(&mut guard), preference);
            Ok(guard)
        },
        Err(error) => {
            let detail = poison_text(&error);
            Err((lock_failure(detail.as_str()), recovered(error)))
        },
    }
}

/// Reads the preference off what taking the lock gave, and leaves it as it is. A poisoned lock
/// is recovered from: the value that it still guards is read as from a sound one, and the
/// observation says that the lock was poisoned. The guard comes back, the lock still held,
/// for the caller to release.
pub fn observe_preference<'a>(lock: LockResult<MutexGuard<'a, bool>>) -> (seen: (
    Observation,
    MutexGuard<'a, bool>,
))
    ensures
        seen.0 == observation_of(lock),
        held(seen.1) == seen.0.close_to_tray,
{
    match lock {
        Ok(guard) => {
            let close_to_tray = *guarded(&guard);
            (Observation { close_to_tray, poisoned: false }, guard)
        },
        Err(error) => {
            let guard = recovered(error);
            let close_to_tray = *guarded(&guard);
            (Observation { close_to_tray, poisoned: true }, guard)
        },
    }
}

impl CloseToTrayState {
    /// The preference that the state was made with, before any write.
    pub open spec fn initial(&self) -> bool {
        made_around(self.0)
    }

    /// The state that the application starts with: its preference is
    /// `DEFAULT_CLOSE_TO_TRAY`, so that closing the window ends the process until a write
    /// says otherwise.
    pub fn new() -> (state: CloseToTrayState)
        ensures
            state.initial() == DEFAULT_CLOSE_TO_TRAY,
    {
        CloseToTrayState(mutex_around(DEFAULT_CLOSE_TO_TRAY))
    }
}

/// Last write wins: after any run of writes that is not empty, a close request is decided by
/// the value of the last write alone.
pub proof fn last_write_wins(initial: bool, writes: Seq<bool>)
    requires
        writes.len() > 0,
    ensures
        after_writes(initial, writes) == writes.last(),
        close_action(after_writes(initial, writes)) == close_action(writes.last()),
{
}

/// A close request is answered whether or not the lock was poisoned: the requests are those of
/// the state machine for the observed value, behind the report of the poisoned lock where there
/// was one. A poisoned lock is reported exactly once, an unpoisoned one never.
pub proof fn poisoned_lock_reported_once(observed: Observation, window: WindowState)
    ensures
        count_of(decision_effects(observed), Effect::ReportPoisonedLock) == (if observed.poisoned {
            1nat
        } else {
            0nat
        }),
        decision_effects(observed) == (if observed.poisoned {
            seq![Effect::ReportPoisonedLock]
        } else {
            Seq::<Effect>::empty()
        }) + effects_of(window, Event::CloseRequested, observed.close_to_tray),
{
    reveal_with_fuel(count_of, 4);
    let effects = decision_effects(observed);
    assert(effects.drop_last().len() == effects.len() - 1);
    if effects.len() >= 2 {
        assert(effects.drop_last().drop_last().len() == effects.len() - 2);
    }
    if effects.len() >= 3 {
        assert(effects.drop_last().drop_last().drop_last().len() == effects.len() - 3);
    }
}

/// Carrying out the answer to a close request takes a running application where the state
/// machine says: to a hidden window where the observed preference is set, to the end of the
/// process with status 0 where it is cleared, poisoned lock or not.
pub proof fn decision_realises_transition(observed: Observation, window: WindowState)
    ensures
        perform_all(Stage::Running(window), decision_effects(observed)) == next_stage(
            window,
            Event::CloseRequested,
            observed.close_to_tray,
        ),
        observed.close_to_tray ==> perform_all(Stage::Running(window), decision_effects(observed))
            == Stage::Running(WindowState::Hidden),
        !observed.close_to_tray ==> perform_all(Stage::Running(window), decision_effects(observed))
            == Stage::Terminated(0),
{
    reveal_with_fuel(perform_all, 4);
    let effects = decision_effects(observed);
    assert(effects.drop_last().len() == effects.len() - 1);
    if effects.len() >= 2 {
        assert(effects.drop_last().drop_last().len() == effects.len() - 2);
        assert(effects.drop_last().last() == effects[effects.len() - 2]);
    }
    if effects.len() >= 3 {
        assert(effects.drop_last().drop_last().drop_last().len() == effects.len() - 3);
        assert(effects.drop_last().drop_last().last() == effects[effects.len() - 3]);
    }
}

} // verus!
