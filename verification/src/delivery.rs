//! One client's stream as a state machine.
//!
//! The caller verifies the credential, holds the subscription and the keep-alive
//! timer, and writes to the client; it feeds each outcome to `step` and performs
//! the action that comes back. A refused credential closes the stream before any
//! frame; a subscriber that fell behind is told how many events it missed.
use std::sync::Arc;
use vstd::prelude::*;
use crate::event::Event;
use crate::resolver::{as_user, to_user};

verus! {

/// The scheme word and the blank that stand before a bearer credential: `Bearer `.
pub open spec fn bearer_scheme() -> Seq<u8> {
    seq![66u8, 101u8, 97u8, 114u8, 101u8, 114u8, 32u8]
}

/// The credential that an authorisation header presents: what follows the scheme,
/// where the header begins with the scheme and something follows it.
pub open spec fn bearer_of(header: Seq<u8>) -> Option<Seq<u8>> {
    if header.len() > 7 && header.take(7) == bearer_scheme() {
        Some(header.skip(7))
    } else {
        None
    }
}

/// Reads the bearer credential out of an authorisation header. A header of
/// another scheme, or with nothing after the scheme, presents none.
pub fn bearer_token(header: &[u8]) -> (out: Option<Vec<u8>>)
    ensures
        out is Some <==> bearer_of(header@) is Some,
        out matches Some(token) ==> Some(token@) == bearer_of(header@),
{
    let scheme: [u8; 7] = [66, 101, 97, 114, 101, 114, 32];
    assert(scheme@ =~= bearer_scheme());
    if header.len() <= 7 {
        return None;
    }
    let mut i: usize = 0;
    while i < 7
        invariant
            i <= 7,
            header@.len() > 7,
            scheme@ == bearer_scheme(),
            forall|j: int| 0 <= j < i ==> header@[j] == bearer_scheme()[j],
        decreases 7 - i,
    {
        if header[i] != scheme[i] {
            assert(header@.take(7)[i as int] != bearer_scheme()[i as int]);
            return None;
        }
        i += 1;
    }
    assert(header@.take(7) =~= bearer_scheme());
    let mut token: Vec<u8> = Vec::new();
    let mut k: usize = 7;
    while k < header.len()
        invariant
            7 <= k <= header@.len(),
            token@ == header@.subrange(7, k as int),
        decreases header.len() - k,
    {
        token.push(header[k]);
        assert(token@ =~= header@.subrange(7, k + 1));
        k += 1;
    }
    assert(token@ =~= header@.skip(7));
    Some(token)
}

/// Where a stream stands.
#[derive(Debug, Clone, Copy, PartialEq, Eq, Structural)]
pub enum StreamState {
    /// The credential is being verified.
    Authenticating,
    /// Frames flow to `user`. `quiet` says that no frame was written since the
    /// last keep-alive tick.
    Streaming { user: u64, quiet: bool },
    /// The stream is over.
    Closed,
}

/// What happened outside.
#[derive(Debug, Clone, PartialEq)]
pub enum StreamInput {
    /// The credential belongs to the user with this stored id.
    Verified(i64),
    /// The credential was refused.
    Rejected,
    /// The subscription yielded an event.
    Received(Arc<Event>),
    /// The subscription fell behind and missed this many events.
    Lagged(u64),
    /// The keep-alive interval has run out.
    Tick,
    /// A write to the client failed: the client is gone.
    WriteFailed,
    /// The user's channel was closed.
    ChannelClosed,
}

/// One frame on the wire.
#[derive(Debug, Clone, PartialEq)]
pub enum Frame {
    /// An event, to be serialised.
    Event(Arc<Event>),
    /// The client missed this many events.
    Gap(u64),
    /// Nothing but a sign of life.
    KeepAlive,
}

/// What the caller is to do next.
#[derive(Debug, Clone, PartialEq)]
pub enum StreamAction {
    /// Answer "unauthorised" and open no stream.
    Refuse,
    /// Get the user's channel from the registry and subscribe to it.
    Subscribe(u64),
    /// Write this frame to the client.
    Write(Frame),
    /// Drop the subscription and end the stream.
    Finish,
    /// Nothing to do.
    Nothing,
}

/// The state after `input` arrives in `state`.
pub open spec fn next_state(state: StreamState, input: StreamInput) -> StreamState {
    match (state, input) {
        (StreamState::Authenticating, StreamInput::Verified(id)) => StreamState::Streaming {
            user: as_user(id),
            quiet: true,
        },
        (StreamState::Authenticating, StreamInput::Rejected) => StreamState::Closed,
        (StreamState::Streaming { user, .. }, StreamInput::Received(_)) => StreamState::Streaming {
            user,
            quiet: false,
        },
        (StreamState::Streaming { user, .. }, StreamInput::Lagged(_)) => StreamState::Streaming {
            user,
            quiet: false,
        },
        (StreamState::Streaming { user, .. }, StreamInput::Tick) => StreamState::Streaming { user, quiet: true },
        (StreamState::Streaming { .. }, StreamInput::WriteFailed) => StreamState::Closed,
        (StreamState::Streaming { .. }, StreamInput::ChannelClosed) => StreamState::Closed,
        _ => state,
    }
}

/// The action that `input` calls for in `state`.
pub open spec fn action_for(state: StreamState, input: StreamInput) -> StreamAction {
    match (state, input) {
        (StreamState::Authenticating, StreamInput::Verified(id)) => StreamAction::Subscribe(as_user(id)),
        (StreamState::Authenticating, StreamInput::Rejected) => StreamAction::Refuse,
        (StreamState::Streaming { .. }, StreamInput::Received(event)) => StreamAction::Write(
            Frame::Event(event),
        ),
        (StreamState::Streaming { .. }, StreamInput::Lagged(missed)) => StreamAction::Write(Frame::Gap(missed)),
        (StreamState::Streaming { quiet: true, .. }, StreamInput::Tick) => StreamAction::Write(Frame::KeepAlive),
        (StreamState::Streaming { .. }, StreamInput::WriteFailed) => StreamAction::Finish,
        (StreamState::Streaming { .. }, StreamInput::ChannelClosed) => StreamAction::Finish,
        _ => StreamAction::Nothing,
    }
}

/// The state after all of `inputs`, taken in order from `state`.
pub open spec fn state_after(state: StreamState, inputs: Seq<StreamInput>) -> StreamState
    decreases inputs.len(),
{
    if inputs.len() == 0 {
        state
    } else {
        next_state(state_after(state, inputs.drop_last()), inputs.last())
    }
}

/// The actions that `inputs`, taken in order from `state`, call for.
pub open spec fn actions_of(state: StreamState, inputs: Seq<StreamInput>) -> Seq<StreamAction>
    decreases inputs.len(),
{
    if inputs.len() == 0 {
        Seq::empty()
    } else {
        actions_of(state, inputs.drop_last()).push(
            action_for(state_after(state, inputs.drop_last()), inputs.last()),
        )
    }
}

/// Takes the stream one step: the state after `input`, and what to do.
pub fn step(state: StreamState, input: StreamInput) -> (out: (StreamState, StreamAction))
    ensures
        out.0 == next_state(state, input),
        out.1 == action_for(state, input),
{
    match state {
        StreamState::Authenticating => match input {
            StreamInput::Verified(id) => {
                let user = to_user(id);
                (StreamState::Streaming { user, quiet: true }, StreamAction::Subscribe(user))
            },
            StreamInput::Rejected => (StreamState::Closed, StreamAction::Refuse),
            _ => (state, StreamAction::Nothing),
        },
        StreamState::Streaming { user, quiet } => match input {
            StreamInput::Received(event) => (
                StreamState::Streaming { user, quiet: false },
                StreamAction::Write(Frame::Event(event)),
            ),
            StreamInput::Lagged(missed) => (
                StreamState::Streaming { user, quiet: false },
                StreamAction::Write(Frame::Gap(missed)),
            ),
            StreamInput::Tick => {
                let action = if quiet {
                    StreamAction::Write(Frame::KeepAlive)
                } else {
                    StreamAction::Nothing
                };
                (StreamState::Streaming { user, quiet: true }, action)
            },
            StreamInput::WriteFailed => (StreamState::Closed, StreamAction::Finish),
            StreamInput::ChannelClosed => (StreamState::Closed, StreamAction::Finish),
            _ => (state, StreamAction::Nothing),
        },
        StreamState::Closed => (state, StreamAction::Nothing),
    }
}

/// The state in which a stream begins.
pub fn initial() -> (out: StreamState)
    ensures
        out == StreamState::Authenticating,
{
    StreamState::Authenticating
}

/// A closed stream stays closed and calls for nothing, whatever arrives.
pub proof fn lemma_closed_is_silent(inputs: Seq<StreamInput>)
    ensures
        state_after(StreamState::Closed, inputs) == StreamState::Closed,
        actions_of(StreamState::Closed, inputs).len() == inputs.len(),
        forall|i: int|
            0 <= i < inputs.len() ==> #[trigger] actions_of(StreamState::Closed, inputs)[i]
                == StreamAction::Nothing,
    decreases inputs.len(),
{
    if inputs.len() > 0 {
        lemma_closed_is_silent(inputs.drop_last());
    }
}

/// A stream opened with a refused credential is refused at once, and no frame,
/// keep-alives included, is ever written, whatever arrives afterwards.
pub proof fn lemma_rejected_stream_writes_nothing(later: Seq<StreamInput>)
    ensures
        action_for(StreamState::Authenticating, StreamInput::Rejected) == StreamAction::Refuse,
        forall|i: int|
            0 <= i < later.len() ==> !(#[trigger] actions_of(
                next_state(StreamState::Authenticating, StreamInput::Rejected),
                later,
            )[i] is Write),
{
    lemma_closed_is_silent(later);
}

/// No frame is written before the credential is verified.
pub proof fn lemma_no_frame_before_verification(input: StreamInput)
    ensures
        !(action_for(StreamState::Authenticating, input) is Write),
        !(input is Verified) ==> !(next_state(StreamState::Authenticating, input) is Streaming),
{
}

/// A subscriber that fell behind is sent a gap marker with the number of events
/// it missed; the stream goes on, and the next event is written as usual.
pub proof fn lemma_lag_is_marked_and_survived(user: u64, quiet: bool, missed: u64, event: Arc<Event>)
    ensures
        action_for(StreamState::Streaming { user, quiet }, StreamInput::Lagged(missed)) == StreamAction::Write(
            Frame::Gap(missed),
        ),
        next_state(StreamState::Streaming { user, quiet }, StreamInput::Lagged(missed)) is Streaming,
        action_for(
            next_state(StreamState::Streaming { user, quiet }, StreamInput::Lagged(missed)),
            StreamInput::Received(event),
        ) == StreamAction::Write(Frame::Event(event)),
{
}

/// The events that a subscription yields are written one frame each, in the
/// order in which they came: none twice, none out of turn.
pub proof fn lemma_events_written_in_order(user: u64, quiet: bool, events: Seq<Arc<Event>>)
    ensures
        state_after(
            StreamState::Streaming { user, quiet },
            events.map_values(|e: Arc<Event>| StreamInput::Received(e)),
        ) is Streaming,
        actions_of(
            StreamState::Streaming { user, quiet },
            events.map_values(|e: Arc<Event>| StreamInput::Received(e)),
        ) == events.map_values(|e: Arc<Event>| StreamAction::Write(Frame::Event(e))),
    decreases events.len(),
{
    let start = StreamState::Streaming { user, quiet };
    let inputs = events.map_values(|e: Arc<Event>| StreamInput::Received(e));
    let frames = events.map_values(|e: Arc<Event>| StreamAction::Write(Frame::Event(e)));
    if events.len() > 0 {
        lemma_events_written_in_order(user, quiet, events.drop_last());
        assert(inputs.drop_last() =~= events.drop_last().map_values(
            |e: Arc<Event>| StreamInput::Received(e),
        ));
        assert(inputs.last() == StreamInput::Received(events.last()));
        assert(actions_of(start, inputs) =~= frames);
    } else {
        assert(actions_of(start, inputs) =~= frames);
    }
}

/// The keep-alive is written only after an interval without any frame.
pub proof fn lemma_keep_alive_only_when_quiet(user: u64, quiet: bool)
    ensures
        action_for(StreamState::Streaming { user, quiet }, StreamInput::Tick) is Write <==> quiet,
        next_state(StreamState::Streaming { user, quiet }, StreamInput::Tick) == (StreamState::Streaming {
            user,
            quiet: true,
        }),
{
}

} // verus!
