//! The change-capture listener as a state machine.
//!
//! The caller holds the subscription to the data store and the timers; it feeds
//! each outcome to `step` and performs the action that comes back. A failure to
//! subscribe before the first success is fatal; every later failure is retried
//! with a delay that doubles up to a ceiling. Notifications sent while the
//! listener was disconnected are not replayed.
use vstd::prelude::*;
use crate::event::{decode, decoded, DecodeError, Event, RawNotification};

verus! {

/// The delay before the first reconnect attempt, in milliseconds.
pub const BASE_DELAY_MS: u64 = 100;

/// The longest delay between reconnect attempts, in milliseconds.
pub const MAX_DELAY_MS: u64 = 30000;

/// Where the listener stands.
#[derive(Debug, Clone, Copy, PartialEq, Eq, Structural)]
pub enum ListenerState {
    /// No subscription. `started` says whether there ever was one; `failures`
    /// counts the attempts that failed since the last one.
    Disconnected { started: bool, failures: u32 },
    /// An attempt to subscribe is under way.
    Connecting { started: bool, failures: u32 },
    /// Subscribed and receiving.
    Listening,
    /// The first subscription could not be made: the process must not start.
    Failed,
}

/// What happened outside.
#[derive(Debug, Clone, PartialEq)]
pub enum ListenerInput {
    /// The process starts, or a retry delay has run out.
    Wake,
    /// The subscription stands.
    Connected,
    /// The attempt to subscribe failed.
    ConnectFailed,
    /// A notification arrived.
    Notification(RawNotification),
    /// A notification arrived whose payload is not an envelope.
    Unreadable,
    /// The connection to the data store was lost.
    ConnectionLost,
}

/// What the caller is to do next.
#[derive(Debug, Clone, PartialEq)]
pub enum ListenerAction {
    /// Try to subscribe.
    Connect,
    /// Wait this many milliseconds, then wake the listener.
    RetryAfter(u64),
    /// Resolve and fan out this event.
    Dispatch(Event),
    /// Log and drop the notification.
    Discard(DecodeError),
    /// Give up: startup has failed.
    Abort,
    /// Nothing to do.
    Nothing,
}

/// The delay after `failures` failed attempts: the base delay, doubled once per
/// failure, and never above the ceiling.
pub open spec fn backoff_ms(failures: nat) -> nat
    decreases failures,
{
    if failures == 0 {
        BASE_DELAY_MS as nat
    } else if 2 * backoff_ms((failures - 1) as nat) >= MAX_DELAY_MS {
        MAX_DELAY_MS as nat
    } else {
        2 * backoff_ms((failures - 1) as nat)
    }
}

/// One more failure, with the count held at its largest value.
pub open spec fn one_more(failures: u32) -> u32 {
    if failures == u32::MAX {
        failures
    } else {
        (failures + 1) as u32
    }
}

/// The state after `input` arrives in `state`.
pub open spec fn next_state(state: ListenerState, input: ListenerInput) -> ListenerState {
    match (state, input) {
        (ListenerState::Disconnected { started, failures }, ListenerInput::Wake) => ListenerState::Connecting {
            started,
            failures,
        },
        (ListenerState::Connecting { .. }, ListenerInput::Connected) => ListenerState::Listening,
        (ListenerState::Connecting { started: false, .. }, ListenerInput::ConnectFailed) => ListenerState::Failed,
        (
            ListenerState::Connecting { started: true, failures },
            ListenerInput::ConnectFailed,
        ) => ListenerState::Disconnected { started: true, failures: one_more(failures) },
        (ListenerState::Listening, ListenerInput::ConnectionLost) => ListenerState::Disconnected {
            started: true,
            failures: 0,
        },
        _ => state,
    }
}

/// The action that `input` calls for in `state`.
pub open spec fn action_for(state: ListenerState, input: ListenerInput) -> ListenerAction {
    match (state, input) {
        (ListenerState::Disconnected { .. }, ListenerInput::Wake) => ListenerAction::Connect,
        (ListenerState::Connecting { started: false, .. }, ListenerInput::ConnectFailed) => ListenerAction::Abort,
        (
            ListenerState::Connecting { started: true, failures },
            ListenerInput::ConnectFailed,
        ) => ListenerAction::RetryAfter(backoff_ms(one_more(failures) as nat) as u64),
        (ListenerState::Listening, ListenerInput::ConnectionLost) => ListenerAction::RetryAfter(
            backoff_ms(0) as u64,
        ),
        (ListenerState::Listening, ListenerInput::Notification(raw)) => match decoded(raw) {
            Ok(event) => ListenerAction::Dispatch(event),
            Err(err) => ListenerAction::Discard(err),
        },
        (ListenerState::Listening, ListenerInput::Unreadable) => ListenerAction::Discard(
            DecodeError::Unreadable,
        ),
        _ => ListenerAction::Nothing,
    }
}

/// The state after all of `inputs`, taken in order from `state`.
pub open spec fn state_after(state: ListenerState, inputs: Seq<ListenerInput>) -> ListenerState
    decreases inputs.len(),
{
    if inputs.len() == 0 {
        state
    } else {
        next_state(state_after(state, inputs.drop_last()), inputs.last())
    }
}

/// The listener has had a subscription at some time.
pub open spec fn has_listened(state: ListenerState) -> bool {
    match state {
        ListenerState::Listening => true,
        ListenerState::Disconnected { started, .. } => started,
        ListenerState::Connecting { started, .. } => started,
        ListenerState::Failed => false,
    }
}

/// The delay never leaves the range from the base to the ceiling.
pub proof fn lemma_backoff_bounds(failures: nat)
    ensures
        BASE_DELAY_MS <= backoff_ms(failures) <= MAX_DELAY_MS,
    decreases failures,
{
    if failures > 0 {
        lemma_backoff_bounds((failures - 1) as nat);
    }
}

/// The delay never shrinks as failures add up.
pub proof fn lemma_backoff_monotone(fewer: nat, more: nat)
    requires
        fewer <= more,
    ensures
        backoff_ms(fewer) <= backoff_ms(more),
    decreases more,
{
    if fewer < more {
        lemma_backoff_monotone(fewer, (more - 1) as nat);
        lemma_backoff_bounds((more - 1) as nat);
    }
}

/// Once the ceiling is reached the delay stays there.
proof fn lemma_backoff_stays_at_ceiling(at: nat, later: nat)
    requires
        at <= later,
        backoff_ms(at) == MAX_DELAY_MS,
    ensures
        backoff_ms(later) == MAX_DELAY_MS,
{
    lemma_backoff_monotone(at, later);
    lemma_backoff_bounds(later);
}

/// The delay, in milliseconds, before the attempt that follows `failures` failed
/// ones.
pub fn backoff_delay(failures: u32) -> (out: u64)
    ensures
        out == backoff_ms(failures as nat),
        BASE_DELAY_MS <= out <= MAX_DELAY_MS,
{
    let mut delay: u64 = BASE_DELAY_MS;
    let mut k: u32 = 0;
    while k < failures && delay < MAX_DELAY_MS
        invariant
            k <= failures,
            delay == backoff_ms(k as nat),
            BASE_DELAY_MS <= delay <= MAX_DELAY_MS,
        decreases failures - k,
    {
        delay = if 2 * delay >= MAX_DELAY_MS {
            MAX_DELAY_MS
        } else {
            2 * delay
        };
        k += 1;
    }
    proof {
        if k < failures {
            lemma_backoff_stays_at_ceiling(k as nat, failures as nat);
        }
    }
    delay
}

/// Takes the listener one step: the state after `input`, and what to do.
pub fn step(state: ListenerState, input: ListenerInput) -> (out: (ListenerState, ListenerAction))
    ensures
        out.0 == next_state(state, input),
        out.1 == action_for(state, input),
{
    match state {
        ListenerState::Disconnected { started, failures } => match input {
            ListenerInput::Wake => (ListenerState::Connecting { started, failures }, ListenerAction::Connect),
            _ => (state, ListenerAction::Nothing),
        },
        ListenerState::Connecting { started, failures } => match input {
            ListenerInput::Connected => (ListenerState::Listening, ListenerAction::Nothing),
            ListenerInput::ConnectFailed => {
                if started {
                    let count: u32 = if failures == u32::MAX {
                        failures
                    } else {
                        failures + 1
                    };
                    (
                        ListenerState::Disconnected { started: true, failures: count },
                        ListenerAction::RetryAfter(backoff_delay(count)),
                    )
                } else {
                    (ListenerState::Failed, ListenerAction::Abort)
                }
            },
            _ => (state, ListenerAction::Nothing),
        },
        ListenerState::Listening => match input {
            ListenerInput::ConnectionLost => (
                ListenerState::Disconnected { started: true, failures: 0 },
                ListenerAction::RetryAfter(backoff_delay(0)),
            ),
            ListenerInput::Notification(raw) => match decode(raw) {
                Ok(event) => (ListenerState::Listening, ListenerAction::Dispatch(event)),
                Err(err) => (ListenerState::Listening, ListenerAction::Discard(err)),
            },
            ListenerInput::Unreadable => (
                ListenerState::Listening,
                ListenerAction::Discard(DecodeError::Unreadable),
            ),
            _ => (state, ListenerAction::Nothing),
        },
        ListenerState::Failed => (state, ListenerAction::Nothing),
    }
}

/// The state in which a listener begins.
pub fn initial() -> (out: ListenerState)
    ensures
        out == (ListenerState::Disconnected { started: false, failures: 0 }),
{
    ListenerState::Disconnected { started: false, failures: 0 }
}

/// A notification never takes the listener out of `Listening`: one that cannot be
/// decoded is discarded, and the well-formed one that follows is dispatched as
/// the event it stands for.
pub proof fn lemma_malformed_is_survived(bad: RawNotification, good: RawNotification)
    requires
        decoded(bad) is Err,
        decoded(good) is Ok,
    ensures
        next_state(ListenerState::Listening, ListenerInput::Unreadable) == ListenerState::Listening,
        action_for(ListenerState::Listening, ListenerInput::Unreadable) == ListenerAction::Discard(
            DecodeError::Unreadable,
        ),
        next_state(ListenerState::Listening, ListenerInput::Notification(bad)) == ListenerState::Listening,
        action_for(ListenerState::Listening, ListenerInput::Notification(bad)) == ListenerAction::Discard(
            decoded(bad)->Err_0,
        ),
        action_for(
            next_state(ListenerState::Listening, ListenerInput::Notification(bad)),
            ListenerInput::Notification(good),
        ) == ListenerAction::Dispatch(decoded(good)->Ok_0),
{
}

/// After startup every failure is retried: a listener that has listened once
/// never gives up, whatever happens and in whatever order.
pub proof fn lemma_never_fails_after_startup(state: ListenerState, inputs: Seq<ListenerInput>)
    requires
        has_listened(state),
    ensures
        has_listened(state_after(state, inputs)),
        !(state_after(state, inputs) is Failed),
    decreases inputs.len(),
{
    if inputs.len() > 0 {
        lemma_never_fails_after_startup(state, inputs.drop_last());
    }
}

/// A listener that lost its connection is listening again after one wake-up and
/// one successful attempt, however many attempts failed before.
pub proof fn lemma_reconnect_resumes(failures: u32)
    ensures
        next_state(
            next_state(ListenerState::Disconnected { started: true, failures }, ListenerInput::Wake),
            ListenerInput::Connected,
        ) == ListenerState::Listening,
{
}

/// Only a failure to subscribe before the first success is fatal, and a failed
/// listener stays failed.
pub proof fn lemma_failure_is_fatal_only_at_startup(state: ListenerState, input: ListenerInput)
    ensures
        next_state(state, input) is Failed ==> state is Failed || (state matches ListenerState::Connecting {
            started: false,
            ..
        } && input is ConnectFailed),
        state is Failed ==> next_state(state, input) is Failed && action_for(state, input) is Nothing,
{
}

} // verus!
