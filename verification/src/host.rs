//! What the window's host is told to do with a close request.

use vstd::prelude::*;
use crate::guard::{should_close_now, CloseConfirmationGuard};

verus! {

/// Name of the event that tells the user interface of a suppressed close.
pub const CLOSE_PREVENTED_EVENT: &'static str = "app://close-prevented";

/// The advice sent with that event.
pub const CLOSE_PREVENTED_MESSAGE: &'static str =
    "Presiona cerrar nuevamente en 2 segundos para salir.";

/// What the host does with a close request.
#[derive(Clone, Copy, Debug)]
pub enum CloseAction {
    /// End the application with this exit code.
    Exit { code: i32 },
    /// Cancel the close, then emit the event with the payload.
    Prevent { event: &'static str, payload: &'static str },
}

/// The action that belongs to a decision: exit with code 0 on "terminate",
/// and otherwise the one fixed event with the one fixed advice.
pub open spec fn action_for(terminate: bool) -> CloseAction {
    if terminate {
        CloseAction::Exit { code: 0 }
    } else {
        CloseAction::Prevent { event: CLOSE_PREVENTED_EVENT, payload: CLOSE_PREVENTED_MESSAGE }
    }
}

/// Turns a decision into the host's action.
pub fn close_action(terminate: bool) -> (action: CloseAction)
    ensures
        action == action_for(terminate),
        terminate <==> action is Exit,
{
    if terminate {
        CloseAction::Exit { code: 0 }
    } else {
        CloseAction::Prevent { event: CLOSE_PREVENTED_EVENT, payload: CLOSE_PREVENTED_MESSAGE }
    }
}

/// Handles a close request that the host delivers at this moment. Whatever
/// the guard decides, the action is one of the two of [`action_for`]: an exit
/// has code 0, and a suppressed close carries the fixed event and advice.
pub fn on_close_requested(guard: &CloseConfirmationGuard) -> (action: CloseAction)
    ensures
        action == action_for(action is Exit),
{
    close_action(should_close_now(guard))
}

/// Every suppressed close carries the same text, letter for letter.
pub proof fn suppressed_close_has_fixed_payload(terminate: bool)
    ensures
        !terminate ==> (action_for(terminate) matches CloseAction::Prevent { event, payload }
            && event@ == "app://close-prevented"@ && payload@
            == "Presiona cerrar nuevamente en 2 segundos para salir."@),
        terminate ==> action_for(terminate) == (CloseAction::Exit { code: 0 }),
{
}

} // verus!
