//! Commands for the client actor.

use vstd::prelude::*;
use crate::telegram::types::{Chat, InputMessage, PackedChat, User};
use crate::telegram::user::LoginConfig;

verus! {

/// Logging in to the platform.
pub struct LoginCommand(pub LoginConfig);

/// Forward a single message to the specified chat.
#[derive(Debug, PartialEq, Eq)]
pub struct ForwardSingleMessageCommand {
    /// The chat to forward to.
    pub forward_to: Chat,
    /// The message to forward.
    pub message_id: i32,
    /// The chat which the message was sent in.
    pub message_chat: Chat,
}

/// Resolve the chat according to the specified chat identifier.
#[derive(Debug, PartialEq, Eq)]
pub struct ResolveChatCommand(pub i32);

/// Turn a packed chat back into the chat.
#[derive(Debug, PartialEq, Eq)]
pub struct UnpackChatCommand(pub PackedChat);

/// Get the next updates.
#[derive(Debug, PartialEq, Eq)]
pub struct NextUpdatesCommand;

/// Send message to the specified chat.
#[derive(Debug, PartialEq, Eq)]
pub struct SendMessageCommand(pub Chat, pub InputMessage);

/// Get the means to change what a user may do in a channel.
#[derive(Debug, PartialEq, Eq)]
pub struct GetAdminRightsBuilderCommand {
    /// The channel where to apply the admin rights to this user.
    pub channel: Chat,
    /// The user to apply the admin rights to.
    pub user: User,
}

/// Save the current session to file.
///
/// The first element is the file to save.
#[derive(Debug, PartialEq, Eq)]
pub struct SaveSessionToFileCommand(pub String);

} // verus!
