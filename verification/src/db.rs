//! Connecting to the store at start-up: when to try again, and when to stop.
//!
//! The caller makes each attempt and does the waiting. After every attempt it
//! asks [`connect_db`] what to do next.

use vstd::prelude::*;

verus! {

/// Where the store is found.
pub const CONNECTION_STRING: &'static str = "mongodb://mongodb:27017";

/// Number of attempts after which the service gives up.
pub const MAX_ATTEMPTS: u32 = 10;

/// Seconds between a failed attempt and the next one.
pub const RETRY_DELAY_SECS: u64 = 2;

/// How often to try, and how long to wait in between. The delay is the same
/// every time.
#[derive(Clone, Copy, Debug, PartialEq, Eq)]
pub struct RetryPolicy {
    pub max_attempts: u32,
    pub delay_secs: u64,
}

impl RetryPolicy {
    /// The policy of the service: [`MAX_ATTEMPTS`] attempts,
    /// [`RETRY_DELAY_SECS`] seconds apart.
    pub fn standard() -> (policy: RetryPolicy)
        ensures
            policy == (RetryPolicy { max_attempts: MAX_ATTEMPTS, delay_secs: RETRY_DELAY_SECS }),
    {
        RetryPolicy { max_attempts: MAX_ATTEMPTS, delay_secs: RETRY_DELAY_SECS }
    }
}

/// How far connecting has come: the number of attempts that have failed.
#[derive(Clone, Copy, Debug, PartialEq, Eq)]
pub struct ConnectState {
    pub attempts: u32,
}

/// How one attempt ended. `C` is the caller's handle to the store.
#[derive(Clone, Copy, Debug, PartialEq, Eq)]
pub enum AttemptOutcome<C> {
    /// The handle was made.
    Connected(C),
    /// The connection options were refused, or no handle could be made.
    Failed,
}

/// What to do after an attempt.
#[derive(Clone, Copy, Debug, PartialEq, Eq)]
pub enum ConnectAction<C> {
    /// Go on with the handle that the attempt made.
    Ready(C),
    /// Wait for `delay_secs` seconds, then make another attempt.
    RetryAfter { delay_secs: u64 },
    /// Stop for good: `attempts` attempts have failed.
    GiveUp { attempts: u32 },
}

/// The state after an attempt that ended in `outcome`, and what to do then.
///
/// A failure is counted, up to the largest count that the state can hold.
/// With the count at or past the policy's limit the answer is to give up,
/// otherwise to wait and retry. Success leaves the count as it is.
pub open spec fn connect_step<C>(
    policy: RetryPolicy,
    state: ConnectState,
    outcome: AttemptOutcome<C>,
) -> (ConnectState, ConnectAction<C>) {
    match outcome {
        AttemptOutcome::Connected(handle) => (state, ConnectAction::Ready(handle)),
        AttemptOutcome::Failed => {
            let attempts = if state.attempts < u32::MAX {
                (state.attempts + 1) as u32
            } else {
                u32::MAX
            };
            if attempts >= policy.max_attempts {
                (ConnectState { attempts }, ConnectAction::GiveUp { attempts })
            } else {
                (
                    ConnectState { attempts },
                    ConnectAction::RetryAfter { delay_secs: policy.delay_secs },
                )
            }
        },
    }
}

impl ConnectState {
    /// The state before the first attempt.
    pub fn new() -> (state: ConnectState)
        ensures
            state.attempts == 0,
    {
        ConnectState { attempts: 0 }
    }
}

/// Decides what follows an attempt to connect.
///
/// `state` counts the failures so far and is brought up to date. After a
/// success the caller goes on with the handle that it made; after a failure
/// it waits and tries again, unless the failure was the last one that the
/// policy allows.
pub fn connect_db<C>(
    policy: &RetryPolicy,
    state: &mut ConnectState,
    outcome: AttemptOutcome<C>,
) -> (action: ConnectAction<C>)
    ensures
        (*final(state), action) == connect_step(*policy, *old(state), outcome),
{
    match outcome {
        AttemptOutcome::Connected(handle) => ConnectAction::Ready(handle),
        AttemptOutcome::Failed => {
            if state.attempts < u32::MAX {
                state.attempts = state.attempts + 1;
            }
            if state.attempts >= policy.max_attempts {
                ConnectAction::GiveUp { attempts: state.attempts }
            } else {
                ConnectAction::RetryAfter { delay_secs: policy.delay_secs }
            }
        },
    }
}

/// The state after `failures` attempts in a row have failed, from the start.
pub open spec fn state_after_failures(policy: RetryPolicy, failures: nat) -> ConnectState
    decreases failures,
{
    if failures == 0 {
        ConnectState { attempts: 0 }
    } else {
        connect_step(
            policy,
            state_after_failures(policy, (failures - 1) as nat),
            AttemptOutcome::<()>::Failed,
        ).0
    }
}

/// What the caller is told after the `n`-th failure in a row, counted from 1.
pub open spec fn action_at_failure<C>(policy: RetryPolicy, n: nat) -> ConnectAction<C>
    recommends
        n >= 1,
{
    connect_step(
        policy,
        state_after_failures(policy, (n - 1) as nat),
        AttemptOutcome::<C>::Failed,
    ).1
}

/// While the store cannot be reached, every failure is counted, the service
/// waits and retries after each failed attempt short of the policy's limit,
/// always for the policy's delay, and gives up at the failure that reaches
/// the limit. A policy that allows no attempt gives up at the first failure,
/// as one that allows a single attempt does.
pub proof fn law_retry_until_limit<C>(policy: RetryPolicy, n: nat)
    requires
        1 <= n <= u32::MAX,
    ensures
        state_after_failures(policy, n).attempts == n,
        n < policy.max_attempts ==> action_at_failure::<C>(policy, n) == (
        ConnectAction::<C>::RetryAfter { delay_secs: policy.delay_secs }),
        n >= policy.max_attempts ==> action_at_failure::<C>(policy, n) == (
        ConnectAction::<C>::GiveUp { attempts: n as u32 }),
    decreases n,
{
    if n > 1 {
        law_retry_until_limit::<C>(policy, (n - 1) as nat);
    }
}

/// Under the service's own policy a start-up against an unreachable store
/// makes ten attempts: each of the first nine failures is followed by a wait
/// of two seconds, the tenth by giving up.
pub proof fn law_standard_policy_gives_up_at_tenth<C>(n: nat)
    requires
        1 <= n <= 10,
    ensures
        ({
            let policy = RetryPolicy { max_attempts: MAX_ATTEMPTS, delay_secs: RETRY_DELAY_SECS };
            &&& n < 10 ==> action_at_failure::<C>(policy, n) == (ConnectAction::<C>::RetryAfter {
                delay_secs: 2,
            })
            &&& n == 10 ==> action_at_failure::<C>(policy, n) == (ConnectAction::<C>::GiveUp {
                attempts: 10,
            })
        }),
{
    law_retry_until_limit::<C>(
        RetryPolicy { max_attempts: MAX_ATTEMPTS, delay_secs: RETRY_DELAY_SECS },
        n,
    );
}

} // verus!
