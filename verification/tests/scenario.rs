use std::sync::Arc;

use chat_notify::delivery::{step, Frame, StreamAction, StreamInput, StreamState};
use chat_notify::event::{decode, Event, RawNotification, RawPayload};
use chat_notify::registry::{FanOut, Registry};
use chat_notify::resolver::resolve;
use tokio::sync::broadcast::error::TryRecvError;

#[test]
fn a_message_reaches_the_members_of_its_chat_and_nobody_else() {
    let (a, b, d, chat) = (1_i64, 2_i64, 4_i64, 77_i64);
    let mut registry = Registry::new(16).unwrap();
    let mut streams = Vec::new();
    for id in [a, b, d] {
        let (state, action) = step(StreamState::Authenticating, StreamInput::Verified(id));
        let user = match action {
            StreamAction::Subscribe(user) => user,
            other => panic!("expected a subscription, got {:?}", other),
        };
        streams.push((state, registry.get_or_create(user).subscribe()));
    }

    let raw = RawNotification {
        kind: "new_message".to_string(),
        chat_id: chat,
        payload: RawPayload {
            actor_id: Some(a),
            timestamp: Some(1_700_000_000_000),
            content: Some("lunch?".to_string()),
            member_id: None,
            members: Some(vec![a, b]),
            name: None,
            chat_type: None,
        },
    };
    let event = decode(raw).unwrap();
    let recipients = resolve(&event).unwrap();
    let report = registry.fan_out(&recipients, &Arc::new(event));
    assert_eq!(report, FanOut { delivered: 2, idle: 0, offline: 0 });

    for (index, (state, rx)) in streams.iter_mut().enumerate() {
        if index == 2 {
            assert_eq!(rx.try_recv(), Err(TryRecvError::Empty));
            continue;
        }
        let (_, action) = step(*state, StreamInput::Received(rx.try_recv().unwrap()));
        match action {
            StreamAction::Write(Frame::Event(e)) => match &*e {
                Event::NewMessage { chat_id, sender_id, content, .. } => {
                    assert_eq!(*chat_id, chat);
                    assert_eq!(*sender_id, a);
                    assert_eq!(content, "lunch?");
                }
                other => panic!("expected a message, got {:?}", other),
            },
            other => panic!("expected a frame, got {:?}", other),
        }
        assert_eq!(rx.try_recv(), Err(TryRecvError::Empty));
    }
}
