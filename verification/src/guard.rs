//! The state behind a lock, and the clock that times the requests.
//!
//! The lock and the clock are the standard library's. Nothing is proved of
//! them: the items that reach them are marked below, each with what is taken
//! on trust.

use vstd::prelude::*;
use std::sync::{Mutex, MutexGuard};
use std::time::{Duration, Instant};
use crate::attempt::CloseAttemptState;
use crate::window::{confirms, remembered_after};

verus! {

/// `std::sync::Mutex`, carried as an opaque value.
#[verifier::external_type_specification]
#[verifier::external_body]
#[verifier::reject_recursive_types(T)]
pub struct ExMutex<T: ?Sized>(Mutex<T>);

/// `std::sync::MutexGuard`, carried as an opaque value.
#[verifier::external_type_specification]
#[verifier::external_body]
#[verifier::reject_recursive_types(T)]
pub struct ExMutexGuard<'a, T: ?Sized + 'a>(MutexGuard<'a, T>);

/// `std::time::Instant`, carried as an opaque value.
#[verifier::external_type_specification]
#[verifier::external_body]
pub struct ExInstant(Instant);

/// `Mutex::new` makes a lock around the value. Nothing is claimed of it.
pub assume_specification<T>[ Mutex::<T>::new ](t: T) -> Mutex<T>;

/// `Instant::now` reads the monotonic clock. Nothing is claimed of the
/// reading.
pub assume_specification[ Instant::now ]() -> Instant;

/// `Instant::duration_since` gives the time from `earlier` to `later`, and
/// zero where `earlier` is the later of the two. Nothing is claimed of it.
/// The guard reads its origin before any other reading, so the origin is
/// never the later one.
pub assume_specification[ Instant::duration_since ](later: &Instant, earlier: Instant) -> Duration;

/// `Duration::as_nanos` gives a span of time in whole nanoseconds. Nothing is
/// claimed of the number.
pub assume_specification[ Duration::as_nanos ](span: &Duration) -> u128;

/// `Mutex::lock` waits for the lock and hands out the guard through which
/// the value is reached, or reports that a holder of the lock panicked. The
/// report is turned into `None`. Nothing is claimed of which of the two
/// comes back. The guards that this module takes never leave it, so a thread
/// that asks for the lock does not hold it already.
#[verifier::external_body]
fn acquire<'a>(cell: &'a Mutex<CloseAttemptState>) -> (held: Option<MutexGuard<'a, CloseAttemptState>>) {
    match cell.lock() {
        Ok(held) => Some(held),
        Err(_) => None,
    }
}

/// `DerefMut::deref_mut` of a `MutexGuard` reaches the value under the lock.
/// Nothing is claimed of the value found there: whoever held the lock before
/// may have changed it.
#[verifier::external_body]
fn held_state<'a, 'b>(held: &'a mut MutexGuard<'b, CloseAttemptState>) -> (state: &'a mut CloseAttemptState) {
    std::ops::DerefMut::deref_mut(held)
}

/// Owns the state of the close requests and serialises access to it, so
/// that each request is decided on, and recorded, as one step.
pub struct CloseConfirmationGuard {
    origin: Instant,
    cell: Mutex<CloseAttemptState>,
}

impl CloseConfirmationGuard {
    /// A guard that has seen no close request. Its clock starts now. The
    /// state goes under the lock at once, where every holder of the guard
    /// can change it, so no clause speaks of it.
    pub fn new() -> Self {
        CloseConfirmationGuard {
            origin: Instant::now(),
            cell: Mutex::new(CloseAttemptState::new()),
        }
    }
}

/// Decides on the close request made at `now`, given what the lock gave
/// access to. Without access the request is suppressed and nothing is
/// touched. With access the request terminates exactly when it confirms the
/// one remembered, and is remembered in its place.
pub fn evaluate_close_attempt(access: Option<&mut CloseAttemptState>, now: u128) -> (terminate: bool)
    ensures
        match access {
            Some(state) => terminate == confirms(state@, now) && final(state)@
                == remembered_after(state@, now),
            None => !terminate,
        },
{
    match access {
        Some(state) => state.register(now),
        None => false,
    }
}

/// Decides on a close request made at `now`, a reading in nanoseconds of
/// the guard's clock: takes the lock, and decides by
/// [`evaluate_close_attempt`] on what the lock gave access to. What comes
/// back depends on what other holders of the lock left there, so nothing is
/// stated of it here.
pub fn should_close_at(guard: &CloseConfirmationGuard, now: u128) -> (terminate: bool) {
    match acquire(&guard.cell) {
        Some(mut held) => evaluate_close_attempt(Some(held_state(&mut held)), now),
        None => evaluate_close_attempt(None, now),
    }
}

/// Decides on a close request made at this moment: reads the clock, then
/// decides by [`should_close_at`]. The reading and the state under the lock
/// decide what comes back, so nothing is stated of it here.
pub fn should_close_now(guard: &CloseConfirmationGuard) -> (terminate: bool) {
    let now: u128 = Instant::now().duration_since(guard.origin).as_nanos();
    should_close_at(guard, now)
}

} // verus!
