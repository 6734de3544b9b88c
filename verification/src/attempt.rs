//! The state that the close requests leave behind.

use vstd::prelude::*;
use crate::window::{confirms, remembered_after, within_window};

verus! {

/// What is remembered between close requests: the time of the latest one,
/// or nothing before the first. Its view is that time.
pub struct CloseAttemptState {
    last_attempt: Option<u128>,
}

impl View for CloseAttemptState {
    type V = Option<u128>;

    closed spec fn view(&self) -> Option<u128> {
        self.last_attempt
    }
}

impl CloseAttemptState {
    /// The state before any close request.
    pub fn new() -> (state: Self)
        ensures
            state@ is None,
    {
        CloseAttemptState { last_attempt: None }
    }

    /// The time of the latest close request, if there was one.
    pub fn last_attempt(&self) -> (last: Option<u128>)
        ensures
            last == self@,
    {
        self.last_attempt
    }

    /// Takes in the close request made at `now` and says whether the
    /// application terminates. The request confirms the one before it exactly
    /// when that one lies at most two seconds back; either way it becomes the
    /// one that the next request is held against.
    pub fn register(&mut self, now: u128) -> (terminate: bool)
        ensures
            terminate == confirms(old(self)@, now),
            final(self)@ == remembered_after(old(self)@, now),
    {
        let terminate = match self.last_attempt {
            Some(last) => within_window(last, now),
            None => false,
        };
        self.last_attempt = Some(now);
        terminate
    }
}

} // verus!
