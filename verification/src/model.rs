//! The chat service's records, as plain values.
//!
//! Every `created_at` is a count of milliseconds since the Unix epoch (UTC).
use vstd::prelude::*;

verus! {

/// The four shapes a chat can take.
#[derive(Debug, Clone, Copy, PartialEq, Eq, Structural, PartialOrd)]
pub enum ChatType {
    Single,
    Group,
    PrivateChannel,
    PublicChannel,
}

/// The name under which a chat type travels in payloads, given the text read.
pub open spec fn chat_type_of(name: Seq<char>) -> Option<ChatType> {
    if name == "single"@ {
        Some(ChatType::Single)
    } else if name == "group"@ {
        Some(ChatType::Group)
    } else if name == "private_channel"@ {
        Some(ChatType::PrivateChannel)
    } else if name == "public_channel"@ {
        Some(ChatType::PublicChannel)
    } else {
        None
    }
}

impl ChatType {
    /// Reads a chat type from its snake-case name; any other text gives `None`.
    pub fn from_name(name: &String) -> (out: Option<ChatType>)
        ensures
            out == chat_type_of(name@),
    {
        if *name == "single".to_owned() {
            Some(ChatType::Single)
        } else if *name == "group".to_owned() {
            Some(ChatType::Group)
        } else if *name == "private_channel".to_owned() {
            Some(ChatType::PrivateChannel)
        } else if *name == "public_channel".to_owned() {
            Some(ChatType::PublicChannel)
        } else {
            None
        }
    }

    /// The snake-case name of this chat type.
    pub fn name(&self) -> (out: String)
        ensures
            out@ == match *self {
                ChatType::Single => "single"@,
                ChatType::Group => "group"@,
                ChatType::PrivateChannel => "private_channel"@,
                ChatType::PublicChannel => "public_channel"@,
            },
    {
        match self {
            ChatType::Single => "single".to_owned(),
            ChatType::Group => "group".to_owned(),
            ChatType::PrivateChannel => "private_channel".to_owned(),
            ChatType::PublicChannel => "public_channel".to_owned(),
        }
    }
}

/// An account, as the credential verifier hands it over.
#[derive(Debug, Clone, PartialEq)]
pub struct User {
    pub id: i64,
    pub ws_id: i64,
    pub ws_name: String,
    pub fullname: String,
    pub email: String,
    pub password_hash: Option<String>,
    pub created_at: i64,
}

/// The public face of a user inside a chat.
#[derive(Debug, Clone, PartialEq)]
pub struct ChatUser {
    pub id: i64,
    pub fullname: String,
    pub email: String,
}

/// A tenant.
#[derive(Debug, Clone, PartialEq)]
pub struct Workspace {
    pub id: i64,
    pub name: String,
    pub owner_id: i64,
    pub created_at: i64,
}

/// A conversation and the ids of its members.
#[derive(Debug, Clone, PartialEq)]
pub struct Chat {
    pub id: i64,
    pub name: Option<String>,
    pub chat_type: ChatType,
    pub members: Vec<i64>,
    pub ws_id: i64,
    pub created_at: i64,
}

/// One posted message.
#[derive(Debug, Clone, PartialEq)]
pub struct Message {
    pub id: i64,
    pub chat_id: i64,
    pub sender_id: i64,
    pub content: String,
    pub files: Vec<String>,
    pub created_at: i64,
}

/// Calls `chrono::Utc::now` and `DateTime::timestamp_millis`: the wall clock's
/// reading in milliseconds since the Unix epoch. Nothing is claimed of the value.
#[verifier::external_body]
fn now_millis() -> (out: i64) {
    chrono::Utc::now().timestamp_millis()
}

impl User {
    /// A user outside any workspace, with no password, created at `created_at`.
    pub fn with_created_at(id: i64, fullname: &str, email: &str, created_at: i64) -> (out: User)
        ensures
            out.id == id,
            out.ws_id == 0,
            out.ws_name@ == Seq::<char>::empty(),
            out.fullname@ == fullname@,
            out.email@ == email@,
            out.password_hash is None,
            out.created_at == created_at,
    {
        User {
            id,
            ws_id: 0,
            ws_name: String::new(),
            fullname: fullname.to_owned(),
            email: email.to_owned(),
            password_hash: None,
            created_at,
        }
    }

    /// A user outside any workspace, with no password, created now.
    pub fn new(id: i64, fullname: &str, email: &str) -> (out: User)
        ensures
            out.id == id,
            out.ws_id == 0,
            out.ws_name@ == Seq::<char>::empty(),
            out.fullname@ == fullname@,
            out.email@ == email@,
            out.password_hash is None,
    {
        let now: i64 = now_millis();
        User::with_created_at(id, fullname, email, now)
    }
}

} // verus!
