use std::sync::Arc;

use chat_notify::delivery::{Frame, StreamAction, StreamInput, StreamState};
use chat_notify::event::{DecodeError, Event, RawNotification, RawPayload};
use chat_notify::listener::{
    backoff_delay, ListenerAction, ListenerInput, ListenerState, BASE_DELAY_MS, MAX_DELAY_MS,
};

fn raw(kind: &str, content: Option<&str>) -> RawNotification {
    RawNotification {
        kind: kind.to_string(),
        chat_id: 1,
        payload: RawPayload {
            actor_id: Some(2),
            timestamp: Some(3),
            content: content.map(|c| c.to_string()),
            member_id: None,
            members: Some(vec![2, 4]),
            name: None,
            chat_type: None,
        },
    }
}

fn event(text: &str) -> Event {
    Event::NewMessage {
        chat_id: 1,
        sender_id: 2,
        timestamp: 3,
        content: text.to_string(),
        members: Some(vec![2, 4]),
    }
}

#[test]
fn backoff_doubles_up_to_the_ceiling() {
    assert_eq!(BASE_DELAY_MS, 100);
    assert_eq!(MAX_DELAY_MS, 30000);
    assert_eq!(backoff_delay(0), 100);
    assert_eq!(backoff_delay(1), 200);
    assert_eq!(backoff_delay(2), 400);
    assert_eq!(backoff_delay(8), 25600);
    assert_eq!(backoff_delay(9), 30000);
    assert_eq!(backoff_delay(10), 30000);
    assert_eq!(backoff_delay(u32::MAX), 30000);
}

#[test]
fn listener_starts_by_connecting() {
    let start = chat_notify::listener::initial();
    assert_eq!(start, ListenerState::Disconnected { started: false, failures: 0 });
    let (state, action) = chat_notify::listener::step(start, ListenerInput::Wake);
    assert_eq!(state, ListenerState::Connecting { started: false, failures: 0 });
    assert_eq!(action, ListenerAction::Connect);
    let (state, action) = chat_notify::listener::step(state, ListenerInput::Connected);
    assert_eq!(state, ListenerState::Listening);
    assert_eq!(action, ListenerAction::Nothing);
}

#[test]
fn listener_startup_failure_is_fatal() {
    let state = ListenerState::Connecting { started: false, failures: 0 };
    let (state, action) = chat_notify::listener::step(state, ListenerInput::ConnectFailed);
    assert_eq!(state, ListenerState::Failed);
    assert_eq!(action, ListenerAction::Abort);
    let (state, action) = chat_notify::listener::step(state, ListenerInput::Wake);
    assert_eq!(state, ListenerState::Failed);
    assert_eq!(action, ListenerAction::Nothing);
}

#[test]
fn listener_retries_with_backoff_after_a_loss() {
    let (state, action) =
        chat_notify::listener::step(ListenerState::Listening, ListenerInput::ConnectionLost);
    assert_eq!(state, ListenerState::Disconnected { started: true, failures: 0 });
    assert_eq!(action, ListenerAction::RetryAfter(100));
    let (state, action) = chat_notify::listener::step(state, ListenerInput::Wake);
    assert_eq!(action, ListenerAction::Connect);
    let (state, action) = chat_notify::listener::step(state, ListenerInput::ConnectFailed);
    assert_eq!(state, ListenerState::Disconnected { started: true, failures: 1 });
    assert_eq!(action, ListenerAction::RetryAfter(200));
    let (state, _) = chat_notify::listener::step(state, ListenerInput::Wake);
    let (state, action) = chat_notify::listener::step(state, ListenerInput::ConnectFailed);
    assert_eq!(state, ListenerState::Disconnected { started: true, failures: 2 });
    assert_eq!(action, ListenerAction::RetryAfter(400));
    let (state, _) = chat_notify::listener::step(state, ListenerInput::Wake);
    let (state, _) = chat_notify::listener::step(state, ListenerInput::Connected);
    assert_eq!(state, ListenerState::Listening);
}

#[test]
fn listener_failure_count_saturates() {
    let state = ListenerState::Connecting { started: true, failures: u32::MAX };
    let (state, action) = chat_notify::listener::step(state, ListenerInput::ConnectFailed);
    assert_eq!(state, ListenerState::Disconnected { started: true, failures: u32::MAX });
    assert_eq!(action, ListenerAction::RetryAfter(30000));
}

#[test]
fn listener_survives_a_malformed_notification() {
    let state = ListenerState::Listening;
    let (state, action) =
        chat_notify::listener::step(state, ListenerInput::Notification(raw("new_message", None)));
    assert_eq!(state, ListenerState::Listening);
    assert_eq!(action, ListenerAction::Discard(DecodeError::MissingField));
    let (state, action) =
        chat_notify::listener::step(state, ListenerInput::Notification(raw("typing", Some("x"))));
    assert_eq!(state, ListenerState::Listening);
    assert_eq!(action, ListenerAction::Discard(DecodeError::UnknownKind));
    let (state, action) = chat_notify::listener::step(state, ListenerInput::Unreadable);
    assert_eq!(state, ListenerState::Listening);
    assert_eq!(action, ListenerAction::Discard(DecodeError::Unreadable));
    let (state, action) = chat_notify::listener::step(
        state,
        ListenerInput::Notification(raw("new_message", Some("hello"))),
    );
    assert_eq!(state, ListenerState::Listening);
    assert_eq!(action, ListenerAction::Dispatch(event("hello")));
}

#[test]
fn listener_ignores_notifications_while_disconnected() {
    let state = ListenerState::Disconnected { started: true, failures: 3 };
    let (next, action) = chat_notify::listener::step(
        state,
        ListenerInput::Notification(raw("new_message", Some("hello"))),
    );
    assert_eq!(next, state);
    assert_eq!(action, ListenerAction::Nothing);
}

#[test]
fn stream_with_a_refused_credential_sends_nothing() {
    let start = chat_notify::delivery::initial();
    assert_eq!(start, StreamState::Authenticating);
    let (mut state, action) = chat_notify::delivery::step(start, StreamInput::Rejected);
    assert_eq!(state, StreamState::Closed);
    assert_eq!(action, StreamAction::Refuse);
    let later = vec![
        StreamInput::Tick,
        StreamInput::Received(Arc::new(event("x"))),
        StreamInput::Lagged(4),
        StreamInput::Verified(1),
        StreamInput::Tick,
        StreamInput::ChannelClosed,
    ];
    for input in later {
        let (next, action) = chat_notify::delivery::step(state, input);
        assert_eq!(next, StreamState::Closed);
        assert_eq!(action, StreamAction::Nothing);
        state = next;
    }
}

#[test]
fn stream_subscribes_once_verified() {
    let (state, action) =
        chat_notify::delivery::step(StreamState::Authenticating, StreamInput::Verified(17));
    assert_eq!(state, StreamState::Streaming { user: 17, quiet: true });
    assert_eq!(action, StreamAction::Subscribe(17));
    let (state, action) = chat_notify::delivery::step(StreamState::Authenticating, StreamInput::Tick);
    assert_eq!(state, StreamState::Authenticating);
    assert_eq!(action, StreamAction::Nothing);
}

#[test]
fn stream_writes_events_in_order() {
    let mut state = StreamState::Streaming { user: 1, quiet: true };
    for text in ["a", "b", "c"] {
        let shared = Arc::new(event(text));
        let (next, action) =
            chat_notify::delivery::step(state, StreamInput::Received(shared.clone()));
        assert_eq!(action, StreamAction::Write(Frame::Event(shared)));
        assert_eq!(next, StreamState::Streaming { user: 1, quiet: false });
        state = next;
    }
}

#[test]
fn stream_keep_alive_only_after_a_quiet_interval() {
    let state = StreamState::Streaming { user: 1, quiet: true };
    let (state, action) = chat_notify::delivery::step(state, StreamInput::Tick);
    assert_eq!(action, StreamAction::Write(Frame::KeepAlive));
    assert_eq!(state, StreamState::Streaming { user: 1, quiet: true });
    let (state, _) =
        chat_notify::delivery::step(state, StreamInput::Received(Arc::new(event("a"))));
    let (state, action) = chat_notify::delivery::step(state, StreamInput::Tick);
    assert_eq!(action, StreamAction::Nothing);
    let (_, action) = chat_notify::delivery::step(state, StreamInput::Tick);
    assert_eq!(action, StreamAction::Write(Frame::KeepAlive));
}

#[test]
fn stream_marks_a_gap_and_goes_on() {
    let state = StreamState::Streaming { user: 1, quiet: true };
    let (state, action) = chat_notify::delivery::step(state, StreamInput::Lagged(12));
    assert_eq!(action, StreamAction::Write(Frame::Gap(12)));
    assert_eq!(state, StreamState::Streaming { user: 1, quiet: false });
}

#[test]
fn stream_ends_when_the_client_or_the_channel_goes() {
    let state = StreamState::Streaming { user: 1, quiet: false };
    let (next, action) = chat_notify::delivery::step(state, StreamInput::WriteFailed);
    assert_eq!(next, StreamState::Closed);
    assert_eq!(action, StreamAction::Finish);
    let (next, action) = chat_notify::delivery::step(state, StreamInput::ChannelClosed);
    assert_eq!(next, StreamState::Closed);
    assert_eq!(action, StreamAction::Finish);
}

#[test]
fn bearer_token_reads_what_follows_the_scheme() {
    assert_eq!(chat_notify::delivery::bearer_token(b"Bearer abc.def"), Some(b"abc.def".to_vec()));
    assert_eq!(chat_notify::delivery::bearer_token(b"Bearer x"), Some(b"x".to_vec()));
    assert_eq!(chat_notify::delivery::bearer_token(b"Bearer  x"), Some(b" x".to_vec()));
}

#[test]
fn bearer_token_refuses_other_headers() {
    assert_eq!(chat_notify::delivery::bearer_token(b""), None);
    assert_eq!(chat_notify::delivery::bearer_token(b"Bearer "), None);
    assert_eq!(chat_notify::delivery::bearer_token(b"Bearer"), None);
    assert_eq!(chat_notify::delivery::bearer_token(b"bearer abc"), None);
    assert_eq!(chat_notify::delivery::bearer_token(b"Basic dXNlcjpwdw=="), None);
    assert_eq!(chat_notify::delivery::bearer_token(b"BearerXabc"), None);
}
