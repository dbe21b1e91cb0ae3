use todo_server::db::{
    connect_db, AttemptOutcome, ConnectAction, ConnectState, RetryPolicy, CONNECTION_STRING,
    MAX_ATTEMPTS, RETRY_DELAY_SECS,
};
use todo_server::server::EXIT_STORE_UNREACHABLE;

#[test]
fn standard_policy_is_ten_attempts_two_seconds_apart() {
    let policy = RetryPolicy::standard();
    assert_eq!(policy, RetryPolicy { max_attempts: 10, delay_secs: 2 });
    assert_eq!(MAX_ATTEMPTS, 10);
    assert_eq!(RETRY_DELAY_SECS, 2);
    assert_eq!(CONNECTION_STRING, "mongodb://mongodb:27017");
}

#[test]
fn starts_with_no_failed_attempt() {
    assert_eq!(ConnectState::new(), ConnectState { attempts: 0 });
}

#[test]
fn success_at_once_is_ready() {
    let policy = RetryPolicy::standard();
    let mut state = ConnectState::new();
    assert_eq!(
        connect_db(&policy, &mut state, AttemptOutcome::Connected("handle")),
        ConnectAction::Ready("handle")
    );
    assert_eq!(state.attempts, 0);
}

#[test]
fn unreachable_store_is_tried_ten_times() {
    let policy = RetryPolicy::standard();
    let mut state = ConnectState::new();
    let mut waited = Vec::new();
    let mut attempts_made = 0u32;
    let last = loop {
        attempts_made += 1;
        match connect_db(&policy, &mut state, AttemptOutcome::<u8>::Failed) {
            ConnectAction::RetryAfter { delay_secs } => waited.push(delay_secs),
            other => break other,
        }
        assert!(attempts_made < 100);
    };
    assert_eq!(attempts_made, 10);
    assert_eq!(waited, vec![2u64; 9]);
    assert_eq!(last, ConnectAction::GiveUp { attempts: 10 });
    assert_eq!(state.attempts, 10);
}

#[test]
fn success_after_failures_is_ready_and_keeps_the_count() {
    let policy = RetryPolicy::standard();
    let mut state = ConnectState::new();
    for n in 1..=9u32 {
        assert_eq!(
            connect_db(&policy, &mut state, AttemptOutcome::<u8>::Failed),
            ConnectAction::RetryAfter { delay_secs: 2 }
        );
        assert_eq!(state.attempts, n);
    }
    assert_eq!(
        connect_db(&policy, &mut state, AttemptOutcome::Connected(41u8)),
        ConnectAction::Ready(41u8)
    );
    assert_eq!(state.attempts, 9);
}

#[test]
fn ninth_failure_waits_tenth_gives_up() {
    let policy = RetryPolicy::standard();
    let mut state = ConnectState { attempts: 8 };
    assert_eq!(
        connect_db(&policy, &mut state, AttemptOutcome::<u8>::Failed),
        ConnectAction::RetryAfter { delay_secs: 2 }
    );
    assert_eq!(
        connect_db(&policy, &mut state, AttemptOutcome::<u8>::Failed),
        ConnectAction::GiveUp { attempts: 10 }
    );
}

#[test]
fn failures_past_the_limit_keep_giving_up() {
    let policy = RetryPolicy::standard();
    let mut state = ConnectState { attempts: 10 };
    assert_eq!(
        connect_db(&policy, &mut state, AttemptOutcome::<u8>::Failed),
        ConnectAction::GiveUp { attempts: 11 }
    );
    assert_eq!(state.attempts, 11);
}

#[test]
fn other_policies_are_followed() {
    let policy = RetryPolicy { max_attempts: 3, delay_secs: 7 };
    let mut state = ConnectState::new();
    assert_eq!(
        connect_db(&policy, &mut state, AttemptOutcome::<u8>::Failed),
        ConnectAction::RetryAfter { delay_secs: 7 }
    );
    assert_eq!(
        connect_db(&policy, &mut state, AttemptOutcome::<u8>::Failed),
        ConnectAction::RetryAfter { delay_secs: 7 }
    );
    assert_eq!(
        connect_db(&policy, &mut state, AttemptOutcome::<u8>::Failed),
        ConnectAction::GiveUp { attempts: 3 }
    );
}

#[test]
fn a_policy_without_attempts_gives_up_at_the_first_failure() {
    for max_attempts in [0u32, 1] {
        let policy = RetryPolicy { max_attempts, delay_secs: 2 };
        let mut state = ConnectState::new();
        assert_eq!(
            connect_db(&policy, &mut state, AttemptOutcome::<u8>::Failed),
            ConnectAction::GiveUp { attempts: 1 }
        );
    }
}

#[test]
fn the_count_stops_at_the_largest_number() {
    let policy = RetryPolicy { max_attempts: u32::MAX, delay_secs: 0 };
    let mut state = ConnectState { attempts: u32::MAX - 2 };
    assert_eq!(
        connect_db(&policy, &mut state, AttemptOutcome::<u8>::Failed),
        ConnectAction::RetryAfter { delay_secs: 0 }
    );
    assert_eq!(
        connect_db(&policy, &mut state, AttemptOutcome::<u8>::Failed),
        ConnectAction::GiveUp { attempts: u32::MAX }
    );
    assert_eq!(
        connect_db(&policy, &mut state, AttemptOutcome::<u8>::Failed),
        ConnectAction::GiveUp { attempts: u32::MAX }
    );
    assert_eq!(state.attempts, u32::MAX);
}

#[test]
fn an_unreachable_store_ends_the_process_with_code_one() {
    assert_eq!(EXIT_STORE_UNREACHABLE, 1);
}
