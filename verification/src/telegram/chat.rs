//! Finding a chat among the chats that the account knows.

use vstd::prelude::*;
use crate::telegram::client::commands::ResolveChatCommand;
use crate::telegram::types::{Chat, PackedChat};

verus! {

/// Why a chat was not resolved.
#[derive(Debug, PartialEq, Eq)]
pub enum ResolveError {
    /// None of the known chats has the identifier.
    NotFound,
}

/// A chat that was found.
#[derive(Debug, PartialEq, Eq)]
pub struct Resolved {
    /// The chat, packed.
    pub chat: PackedChat,
    /// How many of the known chats were looked at, the one found included.
    pub scanned: usize,
}

impl ResolveChatCommand {
    /// Tells whether `chat` is the chat that the command looks for.
    pub fn matches(&self, chat: &Chat) -> (same: bool)
        ensures
            same == (chat.spec_id() == self.0),
    {
        chat.id() == self.0
    }
}

/// Resolve the specified identifier to a packed chat.
///
/// The account must have joined that chat: it is looked for among `known`,
/// from the front, and the search stops at the first chat that has the
/// identifier.
pub fn resolve_chat(known: &Vec<Chat>, chat_id: i32) -> (found: Result<Resolved, ResolveError>)
    ensures
        match found {
            Ok(resolved) => {
                &&& 0 < resolved.scanned <= known@.len()
                &&& known@[resolved.scanned - 1].spec_id() == chat_id
                &&& forall|earlier: int|
                    0 <= earlier < resolved.scanned - 1 ==> (#[trigger] known@[earlier]).spec_id()
                        != chat_id
                &&& resolved.chat == (PackedChat { id: chat_id })
            },
            Err(error) => {
                &&& error == ResolveError::NotFound
                &&& forall|any: int|
                    0 <= any < known@.len() ==> (#[trigger] known@[any]).spec_id() != chat_id
            },
        },
{
    let wanted = ResolveChatCommand(chat_id);
    let mut position: usize = 0;
    while position < known.len()
        invariant
            position <= known@.len(),
            wanted.0 == chat_id,
            forall|earlier: int|
                0 <= earlier < position ==> (#[trigger] known@[earlier]).spec_id() != chat_id,
        decreases known@.len() - position,
    {
        let chat = &known[position];
        if wanted.matches(chat) {
            return Ok(Resolved { chat: chat.pack(), scanned: position + 1 });
        }
        position = position + 1;
    }
    Err(ResolveError::NotFound)
}

} // verus!
