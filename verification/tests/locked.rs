use close_guard::guard::{should_close_at, should_close_now, CloseConfirmationGuard};
use close_guard::host::{
    close_action, on_close_requested, CloseAction, CLOSE_PREVENTED_EVENT, CLOSE_PREVENTED_MESSAGE,
};

const MS: u128 = 1_000_000;

#[test]
fn guard_suppresses_then_terminates_within_the_window() {
    let guard = CloseConfirmationGuard::new();
    assert!(!should_close_at(&guard, 0));
    assert!(should_close_at(&guard, 1_500 * MS));
}

#[test]
fn guard_keeps_the_state_between_calls() {
    let guard = CloseConfirmationGuard::new();
    assert!(!should_close_at(&guard, 0));
    assert!(!should_close_at(&guard, 2_100 * MS));
    assert!(should_close_at(&guard, 2_600 * MS));
    assert!(should_close_at(&guard, 4_600 * MS));
    assert!(!should_close_at(&guard, 6_601 * MS));
}

#[test]
fn guards_do_not_share_state() {
    let one = CloseConfirmationGuard::new();
    let other = CloseConfirmationGuard::new();
    assert!(!should_close_at(&one, 0));
    assert!(!should_close_at(&other, 100 * MS));
    assert!(should_close_at(&one, 200 * MS));
    assert!(should_close_at(&other, 300 * MS));
}

#[test]
fn guard_boundary_is_inclusive() {
    let guard = CloseConfirmationGuard::new();
    assert!(!should_close_at(&guard, 1_000 * MS));
    assert!(should_close_at(&guard, 3_000 * MS));
    let guard = CloseConfirmationGuard::new();
    assert!(!should_close_at(&guard, 1_000 * MS));
    assert!(!should_close_at(&guard, 3_001 * MS));
}

#[test]
fn first_close_now_is_suppressed_and_a_prompt_second_terminates() {
    let guard = CloseConfirmationGuard::new();
    assert!(!should_close_now(&guard));
    assert!(should_close_now(&guard));
}

#[test]
fn close_now_is_timed_on_the_guards_own_clock() {
    let guard = CloseConfirmationGuard::new();
    assert!(!should_close_now(&guard));
    // The clock has run for far less than an hour, so a reading of one hour
    // lies outside the window of the request just made.
    assert!(!should_close_at(&guard, 3_600_000 * MS));
}

#[test]
fn suppressed_close_carries_the_fixed_event_and_payload() {
    match close_action(false) {
        CloseAction::Prevent { event, payload } => {
            assert_eq!(event, "app://close-prevented");
            assert_eq!(payload, "Presiona cerrar nuevamente en 2 segundos para salir.");
            assert_eq!(
                payload.as_bytes(),
                b"Presiona cerrar nuevamente en 2 segundos para salir."
            );
        }
        CloseAction::Exit { .. } => panic!("a suppressed close must not exit"),
    }
}

#[test]
fn fixed_event_and_payload_constants() {
    assert_eq!(CLOSE_PREVENTED_EVENT, "app://close-prevented");
    assert_eq!(CLOSE_PREVENTED_MESSAGE, "Presiona cerrar nuevamente en 2 segundos para salir.");
    assert_eq!(CLOSE_PREVENTED_MESSAGE.len(), 52);
}

#[test]
fn terminating_close_exits_with_code_zero() {
    match close_action(true) {
        CloseAction::Exit { code } => assert_eq!(code, 0),
        CloseAction::Prevent { .. } => panic!("a terminating close must exit"),
    }
}

#[test]
fn host_is_told_to_prevent_then_to_exit() {
    let guard = CloseConfirmationGuard::new();
    match on_close_requested(&guard) {
        CloseAction::Prevent { event, payload } => {
            assert_eq!(event, "app://close-prevented");
            assert_eq!(payload, "Presiona cerrar nuevamente en 2 segundos para salir.");
        }
        CloseAction::Exit { .. } => panic!("the first close request must be suppressed"),
    }
    match on_close_requested(&guard) {
        CloseAction::Exit { code } => assert_eq!(code, 0),
        CloseAction::Prevent { .. } => panic!("a prompt second close request must exit"),
    }
}
