//! Plain values that stand for what the platform reports.
//!
//! Each type keeps exactly the attributes that the modules and the dispatcher
//! read; the host fills them in from the live objects of the client library.

use vstd::prelude::*;

verus! {

/// A person's account.
#[derive(Debug, PartialEq, Eq)]
pub struct User {
    /// The identifier of the account.
    pub id: i32,
    /// Whether this is the account that is logged in.
    pub is_self: bool,
    /// First and last name, joined.
    pub full_name: String,
}

/// A conversation among several people.
#[derive(Debug, PartialEq, Eq)]
pub struct Group {
    /// The identifier of the group.
    pub id: i32,
}

/// A conversation in which only administrators broadcast.
#[derive(Debug, PartialEq, Eq)]
pub struct Channel {
    /// The identifier of the channel.
    pub id: i32,
}

/// A place where messages are shared.
#[derive(Debug, PartialEq, Eq)]
pub enum Chat {
    /// A private conversation, known by the other person.
    User(User),
    /// A group.
    Group(Group),
    /// A broadcast channel.
    Channel(Channel),
}

/// The small form of a chat that can be kept and turned back into a [`Chat`] later.
#[derive(Debug, PartialEq, Eq)]
pub struct PackedChat {
    /// The identifier of the chat that was packed.
    pub id: i32,
}

/// The content of a message that is to be sent, or to replace an existing one.
#[derive(Debug, PartialEq, Eq)]
pub struct InputMessage {
    /// The text of the message.
    pub text: String,
}

/// A message as it arrived.
#[derive(Debug, PartialEq, Eq)]
pub struct Message {
    /// The identifier of the message within its chat.
    pub id: i32,
    /// The text of the message.
    pub text: String,
    /// Who sent it, when that is known.
    pub sender: Option<Chat>,
    /// The chat it was sent in.
    pub chat: Chat,
    /// The message that this one replies to, if any.
    pub reply_to_message_id: Option<i32>,
}

/// An occurrence reported by the platform.
#[derive(Debug, PartialEq, Eq)]
pub enum Update {
    /// A new message was produced.
    NewMessage(Message),
    /// Anything else; the dispatcher does not process it.
    Other,
}

impl Clone for User {
    fn clone(&self) -> (copy: Self)
        ensures
            copy == *self,
    {
        User { id: self.id, is_self: self.is_self, full_name: self.full_name.clone() }
    }
}

impl Clone for Chat {
    fn clone(&self) -> (copy: Self)
        ensures
            copy == *self,
    {
        match self {
            Chat::User(user) => Chat::User(user.clone()),
            Chat::Group(group) => Chat::Group(Group { id: group.id }),
            Chat::Channel(channel) => Chat::Channel(Channel { id: channel.id }),
        }
    }
}

impl Clone for Message {
    fn clone(&self) -> (copy: Self)
        ensures
            copy == *self,
    {
        let sender = match &self.sender {
            Some(chat) => Some(chat.clone()),
            None => None,
        };
        Message {
            id: self.id,
            text: self.text.clone(),
            sender,
            chat: self.chat.clone(),
            reply_to_message_id: self.reply_to_message_id,
        }
    }
}

impl Chat {
    /// The identifier of the chat, whatever its kind.
    pub open spec fn spec_id(&self) -> i32 {
        match *self {
            Chat::User(user) => user.id,
            Chat::Group(group) => group.id,
            Chat::Channel(channel) => channel.id,
        }
    }

    /// The identifier of the chat, whatever its kind.
    #[verifier::when_used_as_spec(spec_id)]
    pub fn id(&self) -> (id: i32)
        ensures
            id == self.spec_id(),
    {
        match self {
            Chat::User(user) => user.id,
            Chat::Group(group) => group.id,
            Chat::Channel(channel) => channel.id,
        }
    }

    /// Packs the chat into the small form that can be resolved again later.
    pub fn pack(&self) -> (packed: PackedChat)
        ensures
            packed == (PackedChat { id: self.spec_id() }),
    {
        PackedChat { id: self.id() }
    }
}

impl InputMessage {
    /// A message that consists of the given text.
    pub fn text(text: String) -> (message: InputMessage)
        ensures
            message.text == text,
    {
        InputMessage { text }
    }
}

} // verus!
