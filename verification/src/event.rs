//! The closed set of change events, and how a raw notification becomes one.
use vstd::prelude::*;
use crate::model::{chat_type_of, ChatType};

verus! {

/// The tag of an event.
#[derive(Debug, Clone, Copy, PartialEq, Eq, Structural)]
pub enum EventKind {
    NewMessage,
    ChatCreated,
    MemberAdded,
    MemberRemoved,
}

/// A change to chat state that online users must see.
#[derive(Debug, Clone, PartialEq)]
#[allow(inconsistent_fields)]
pub enum Event {
    /// A message was posted. `members` is the chat's membership where the
    /// notification carried it.
    NewMessage { chat_id: i64, sender_id: i64, timestamp: i64, content: String, members: Option<Vec<i64>> },
    /// A chat was created with the given members.
    ChatCreated {
        chat_id: i64,
        actor_id: i64,
        timestamp: i64,
        name: Option<String>,
        chat_type: ChatType,
        members: Vec<i64>,
    },
    /// `member_id` joined the chat.
    MemberAdded { chat_id: i64, actor_id: i64, timestamp: i64, member_id: i64 },
    /// `member_id` left the chat.
    MemberRemoved { chat_id: i64, actor_id: i64, timestamp: i64, member_id: i64 },
}

/// Why a notification is not an event.
#[derive(Debug, Clone, Copy, PartialEq, Eq, Structural)]
pub enum DecodeError {
    /// The payload is not an envelope at all. `decode` never reports this: it is
    /// for the caller that could not even split the payload into fields.
    Unreadable,
    /// The kind is none of the four this service knows.
    UnknownKind,
    /// A field that the kind needs is absent.
    MissingField,
    /// An identifier is negative.
    InvalidId,
    /// The chat type's name is not one of the four.
    UnknownChatType,
}

/// The fields a notification's payload may carry; each kind needs some of them.
#[derive(Debug, Clone, PartialEq)]
pub struct RawPayload {
    pub actor_id: Option<i64>,
    pub timestamp: Option<i64>,
    pub content: Option<String>,
    pub member_id: Option<i64>,
    pub members: Option<Vec<i64>>,
    pub name: Option<String>,
    pub chat_type: Option<String>,
}

/// The envelope of a change notification, already split into its fields.
#[derive(Debug, Clone, PartialEq)]
pub struct RawNotification {
    pub kind: String,
    pub chat_id: i64,
    pub payload: RawPayload,
}

/// The kind that a notification's `kind` text stands for.
pub open spec fn kind_of(name: Seq<char>) -> Option<EventKind> {
    if name == "new_message"@ {
        Some(EventKind::NewMessage)
    } else if name == "chat_created"@ {
        Some(EventKind::ChatCreated)
    } else if name == "member_added"@ {
        Some(EventKind::MemberAdded)
    } else if name == "member_removed"@ {
        Some(EventKind::MemberRemoved)
    } else {
        None
    }
}

/// No identifier in `ids` is negative.
pub open spec fn ids_valid(ids: Seq<i64>) -> bool {
    forall|i: int| 0 <= i < ids.len() ==> ids[i] >= 0
}

/// The payload holds every field that `kind` needs.
pub open spec fn fields_present(kind: EventKind, p: RawPayload) -> bool {
    p.actor_id is Some && p.timestamp is Some && match kind {
        EventKind::NewMessage => p.content is Some,
        EventKind::ChatCreated => p.chat_type is Some && p.members is Some,
        EventKind::MemberAdded | EventKind::MemberRemoved => p.member_id is Some,
    }
}

/// Every identifier that `kind` reads from the notification is non-negative.
pub open spec fn ids_in_range(kind: EventKind, raw: RawNotification) -> bool
    recommends
        fields_present(kind, raw.payload),
{
    raw.chat_id >= 0 && raw.payload.actor_id->0 >= 0 && match kind {
        EventKind::NewMessage => raw.payload.members is Some ==> ids_valid(
            raw.payload.members->0@,
        ),
        EventKind::ChatCreated => ids_valid(raw.payload.members->0@),
        EventKind::MemberAdded | EventKind::MemberRemoved => raw.payload.member_id->0 >= 0,
    }
}

/// What `decode` returns: the event that a notification stands for, or the first
/// reason why it stands for none: an unknown kind, else a missing field, else a
/// negative identifier, else an unknown chat type.
pub open spec fn decoded(raw: RawNotification) -> Result<Event, DecodeError> {
    let p = raw.payload;
    match kind_of(raw.kind@) {
        None => Err(DecodeError::UnknownKind),
        Some(kind) => if !fields_present(kind, p) {
            Err(DecodeError::MissingField)
        } else if !ids_in_range(kind, raw) {
            Err(DecodeError::InvalidId)
        } else {
            match kind {
                EventKind::NewMessage => Ok(
                    Event::NewMessage {
                        chat_id: raw.chat_id,
                        sender_id: p.actor_id->0,
                        timestamp: p.timestamp->0,
                        content: p.content->0,
                        members: p.members,
                    },
                ),
                EventKind::ChatCreated => match chat_type_of(p.chat_type->0@) {
                    None => Err(DecodeError::UnknownChatType),
                    Some(chat_type) => Ok(
                        Event::ChatCreated {
                            chat_id: raw.chat_id,
                            actor_id: p.actor_id->0,
                            timestamp: p.timestamp->0,
                            name: p.name,
                            chat_type,
                            members: p.members->0,
                        },
                    ),
                },
                EventKind::MemberAdded => Ok(
                    Event::MemberAdded {
                        chat_id: raw.chat_id,
                        actor_id: p.actor_id->0,
                        timestamp: p.timestamp->0,
                        member_id: p.member_id->0,
                    },
                ),
                EventKind::MemberRemoved => Ok(
                    Event::MemberRemoved {
                        chat_id: raw.chat_id,
                        actor_id: p.actor_id->0,
                        timestamp: p.timestamp->0,
                        member_id: p.member_id->0,
                    },
                ),
            }
        },
    }
}

/// Reads an event kind from its name; any other text gives `None`.
pub fn parse_kind(name: &String) -> (out: Option<EventKind>)
    ensures
        out == kind_of(name@),
{
    if *name == "new_message".to_owned() {
        Some(EventKind::NewMessage)
    } else if *name == "chat_created".to_owned() {
        Some(EventKind::ChatCreated)
    } else if *name == "member_added".to_owned() {
        Some(EventKind::MemberAdded)
    } else if *name == "member_removed".to_owned() {
        Some(EventKind::MemberRemoved)
    } else {
        None
    }
}

/// Whether no identifier in `ids` is negative.
pub fn all_ids_valid(ids: &Vec<i64>) -> (out: bool)
    ensures
        out == ids_valid(ids@),
{
    let mut i: usize = 0;
    while i < ids.len()
        invariant
            i <= ids.len(),
            forall|j: int| 0 <= j < i ==> ids@[j] >= 0,
        decreases ids.len() - i,
    {
        if ids[i] < 0 {
            return false;
        }
        i += 1;
    }
    true
}

/// Turns a notification into the event it stands for. A notification of an
/// unknown kind, with a field missing, a negative identifier or an unknown chat
/// type is refused, and nothing else is.
pub fn decode(raw: RawNotification) -> (out: Result<Event, DecodeError>)
    ensures
        out == decoded(raw),
{
    let RawNotification { kind, chat_id, payload } = raw;
    let RawPayload { actor_id, timestamp, content, member_id, members, name, chat_type } = payload;
    let kind = match parse_kind(&kind) {
        None => { return Err(DecodeError::UnknownKind); },
        Some(kind) => kind,
    };
    let (actor, at) = match (actor_id, timestamp) {
        (Some(actor), Some(at)) => (actor, at),
        _ => { return Err(DecodeError::MissingField); },
    };
    match kind {
        EventKind::NewMessage => {
            let content = match content {
                None => { return Err(DecodeError::MissingField); },
                Some(content) => content,
            };
            let members_ok = match &members {
                None => true,
                Some(m) => all_ids_valid(m),
            };
            if chat_id < 0 || actor < 0 || !members_ok {
                return Err(DecodeError::InvalidId);
            }
            Ok(Event::NewMessage { chat_id, sender_id: actor, timestamp: at, content, members })
        },
        EventKind::ChatCreated => {
            let (type_text, members) = match (chat_type, members) {
                (Some(t), Some(m)) => (t, m),
                _ => { return Err(DecodeError::MissingField); },
            };
            if chat_id < 0 || actor < 0 || !all_ids_valid(&members) {
                return Err(DecodeError::InvalidId);
            }
            match ChatType::from_name(&type_text) {
                None => Err(DecodeError::UnknownChatType),
                Some(chat_type) => Ok(
                    Event::ChatCreated { chat_id, actor_id: actor, timestamp: at, name, chat_type, members },
                ),
            }
        },
        EventKind::MemberAdded | EventKind::MemberRemoved => {
            let member = match member_id {
                None => { return Err(DecodeError::MissingField); },
                Some(member) => member,
            };
            if chat_id < 0 || actor < 0 || member < 0 {
                return Err(DecodeError::InvalidId);
            }
            match kind {
                EventKind::MemberAdded => Ok(
                    Event::MemberAdded { chat_id, actor_id: actor, timestamp: at, member_id: member },
                ),
                _ => Ok(
                    Event::MemberRemoved { chat_id, actor_id: actor, timestamp: at, member_id: member },
                ),
            }
        },
    }
}

impl EventKind {
    /// The name under which the kind travels.
    pub fn name(&self) -> (out: String)
        ensures
            kind_of(out@) == Some(*self),
            out@ == match *self {
                EventKind::NewMessage => "new_message"@,
                EventKind::ChatCreated => "chat_created"@,
                EventKind::MemberAdded => "member_added"@,
                EventKind::MemberRemoved => "member_removed"@,
            },
    {
        proof {
            reveal_strlit("new_message");
            reveal_strlit("chat_created");
            reveal_strlit("member_added");
            reveal_strlit("member_removed");
            assert("new_message"@.len() == 11);
            assert("chat_created"@.len() == 12 && "chat_created"@[0] == 'c');
            assert("member_added"@.len() == 12 && "member_added"@[0] == 'm');
            assert("member_removed"@.len() == 14);
        }
        match self {
            EventKind::NewMessage => "new_message".to_owned(),
            EventKind::ChatCreated => "chat_created".to_owned(),
            EventKind::MemberAdded => "member_added".to_owned(),
            EventKind::MemberRemoved => "member_removed".to_owned(),
        }
    }
}

impl Event {
    /// The event's tag.
    pub open spec fn spec_kind(self) -> EventKind {
        match self {
            Event::NewMessage { .. } => EventKind::NewMessage,
            Event::ChatCreated { .. } => EventKind::ChatCreated,
            Event::MemberAdded { .. } => EventKind::MemberAdded,
            Event::MemberRemoved { .. } => EventKind::MemberRemoved,
        }
    }

    /// The chat that the event is about.
    pub open spec fn spec_affected_chat(self) -> i64 {
        match self {
            Event::NewMessage { chat_id, .. } => chat_id,
            Event::ChatCreated { chat_id, .. } => chat_id,
            Event::MemberAdded { chat_id, .. } => chat_id,
            Event::MemberRemoved { chat_id, .. } => chat_id,
        }
    }

    /// The user who caused the event.
    pub open spec fn spec_actor(self) -> i64 {
        match self {
            Event::NewMessage { sender_id, .. } => sender_id,
            Event::ChatCreated { actor_id, .. } => actor_id,
            Event::MemberAdded { actor_id, .. } => actor_id,
            Event::MemberRemoved { actor_id, .. } => actor_id,
        }
    }

    /// When the change happened.
    pub open spec fn spec_timestamp(self) -> i64 {
        match self {
            Event::NewMessage { timestamp, .. } => timestamp,
            Event::ChatCreated { timestamp, .. } => timestamp,
            Event::MemberAdded { timestamp, .. } => timestamp,
            Event::MemberRemoved { timestamp, .. } => timestamp,
        }
    }

    /// The user who joined or left, for the two kinds that say so.
    pub open spec fn spec_affected_member(self) -> Option<i64> {
        match self {
            Event::MemberAdded { member_id, .. } => Some(member_id),
            Event::MemberRemoved { member_id, .. } => Some(member_id),
            _ => None,
        }
    }

    /// The membership that the event itself carries, if it carries one.
    pub open spec fn spec_embedded_members(self) -> Option<Seq<i64>> {
        match self {
            Event::NewMessage { members: Some(m), .. } => Some(m@),
            Event::ChatCreated { members, .. } => Some(members@),
            _ => None,
        }
    }

    /// The membership that the event itself carries, if it carries one.
    pub fn embedded_members(&self) -> (out: Option<&Vec<i64>>)
        ensures
            out is Some <==> self.spec_embedded_members() is Some,
            out matches Some(m) ==> Some(m@) == self.spec_embedded_members(),
    {
        match self {
            Event::NewMessage { members: Some(m), .. } => Some(m),
            Event::ChatCreated { members, .. } => Some(members),
            _ => None,
        }
    }

    /// The event's tag.
    pub fn kind(&self) -> (out: EventKind)
        ensures
            out == self.spec_kind(),
    {
        match self {
            Event::NewMessage { .. } => EventKind::NewMessage,
            Event::ChatCreated { .. } => EventKind::ChatCreated,
            Event::MemberAdded { .. } => EventKind::MemberAdded,
            Event::MemberRemoved { .. } => EventKind::MemberRemoved,
        }
    }

    /// The chat that the event is about.
    pub fn affected_chat(&self) -> (out: i64)
        ensures
            out == self.spec_affected_chat(),
    {
        match self {
            Event::NewMessage { chat_id, .. } => *chat_id,
            Event::ChatCreated { chat_id, .. } => *chat_id,
            Event::MemberAdded { chat_id, .. } => *chat_id,
            Event::MemberRemoved { chat_id, .. } => *chat_id,
        }
    }

    /// The user who caused the event.
    pub fn actor(&self) -> (out: i64)
        ensures
            out == self.spec_actor(),
    {
        match self {
            Event::NewMessage { sender_id, .. } => *sender_id,
            Event::ChatCreated { actor_id, .. } => *actor_id,
            Event::MemberAdded { actor_id, .. } => *actor_id,
            Event::MemberRemoved { actor_id, .. } => *actor_id,
        }
    }

    /// When the change happened.
    pub fn timestamp(&self) -> (out: i64)
        ensures
            out == self.spec_timestamp(),
    {
        match self {
            Event::NewMessage { timestamp, .. } => *timestamp,
            Event::ChatCreated { timestamp, .. } => *timestamp,
            Event::MemberAdded { timestamp, .. } => *timestamp,
            Event::MemberRemoved { timestamp, .. } => *timestamp,
        }
    }

    /// The user who joined or left, for the two kinds that say so.
    pub fn affected_member(&self) -> (out: Option<i64>)
        ensures
            out == self.spec_affected_member(),
    {
        match self {
            Event::MemberAdded { member_id, .. } => Some(*member_id),
            Event::MemberRemoved { member_id, .. } => Some(*member_id),
            _ => None,
        }
    }
}

/// `decode` never calls an envelope unreadable.
pub proof fn lemma_decoded_is_readable(raw: RawNotification)
    ensures
        decoded(raw) != Err::<Event, DecodeError>(DecodeError::Unreadable),
{
}

/// Every decoded event is about the chat that its notification named, is of the
/// kind named, and is caused by the actor named.
pub proof fn lemma_decoded_keeps_chat(raw: RawNotification)
    requires
        decoded(raw) is Ok,
    ensures
        decoded(raw)->Ok_0.spec_affected_chat() == raw.chat_id,
        Some(decoded(raw)->Ok_0.spec_kind()) == kind_of(raw.kind@),
        decoded(raw)->Ok_0.spec_actor() == raw.payload.actor_id->0,
{
}

} // verus!
