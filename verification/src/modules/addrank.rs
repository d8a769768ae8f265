//! AddRankModule
//!
//! You can add rank for every member you administrated
//! without giving the actual permission.

use vstd::prelude::*;
use crate::modules::base::{
    conclude, fault_of, Command, CommandView, ModuleActivator, ModuleMessage, ModuleMeta,
    Pending, PendingView, Reply, Step, StepView,
};
use crate::modules::fwd::REPLY_NOTICE;
use crate::telegram::client::commands::GetAdminRightsBuilderCommand;
use crate::telegram::types::{Chat, InputMessage, Message, User};
use crate::telegram::user::{is_root_user, sent_by_owner};
use vstd::string::StrSliceExecFns;
use crate::utils::{find_word, first_word, mark_spaces, push_str, same_text, second_word};

verus! {

/// The word that asks for a rank; the rank follows it.
pub const CMD_PREFIX: &'static str = "!addrank";

/// What stands before the user's name in the confirmation.
pub const RANK_SET_HEAD: &'static str = "[PBOT] ✅ 成功將 ";

/// What stands between the user's name and the rank in the confirmation.
pub const RANK_SET_MIDDLE: &'static str = " 的頭銜設定為 ";

/// What ends the confirmation.
pub const RANK_SET_TAIL: &'static str = "。";

/// The AddRank actor.
#[derive(Debug, PartialEq, Eq)]
pub struct AddRankModuleActor;

/// The rank that a message asks for: the second word of its text, where the
/// first word is [`CMD_PREFIX`] and the owner of the account sent it.
pub open spec fn rank_in(message: Message) -> Option<Seq<char>> {
    if first_word(message.text@) == Some(CMD_PREFIX@) && sent_by_owner(message) {
        second_word(message.text@)
    } else {
        None
    }
}

/// The user who sent the message replied to, where there is such a message
/// and a person sent it.
pub open spec fn user_in(reply: Option<Message>) -> Option<User> {
    match reply {
        Some(message) => match message.sender {
            Some(Chat::User(user)) => Some(user),
            _ => None,
        },
        None => None,
    }
}

/// The text that confirms that `user` now has the rank `rank`.
pub open spec fn rank_set_notice(user: Seq<char>, rank: Seq<char>) -> Seq<char> {
    RANK_SET_HEAD@ + user + RANK_SET_MIDDLE@ + rank + RANK_SET_TAIL@
}

/// Extract the rank argument from the command message.
pub fn extract_rank(message: &Message) -> (rank: Option<String>)
    ensures
        match rank {
            Some(text) => rank_in(*message) == Some(text@),
            None => rank_in(*message) is None,
        },
{
    // Mark the white space once; both words are found by the marks.
    let text = message.text.as_str();
    let marks = mark_spaces(text);
    match find_word(&marks, 0) {
        Some((start, end)) => {
            let cmd = text.substring_char(start, end).to_owned();
            // The command has to be the prefix, and the message has to come
            // from the account owner.
            if same_text(&cmd, CMD_PREFIX) && is_root_user(message) {
                match find_word(&marks, end) {
                    Some((from, to)) => Some(text.substring_char(from, to).to_owned()),
                    None => None,
                }
            } else {
                None
            }
        },
        None => None,
    }
}

/// Get the user of the message replied to.
pub fn get_user_replied_to(reply: Option<Message>) -> (user: Option<User>)
    ensures
        user == user_in(reply),
{
    match reply {
        Some(message) => match message.sender {
            Some(Chat::User(user)) => Some(user),
            _ => None,
        },
        None => None,
    }
}

/// Composes the text that confirms that `user` now has the rank `rank`.
pub fn compose_rank_set_notice(user: &str, rank: &str) -> (text: String)
    ensures
        text@ == rank_set_notice(user@, rank@),
{
    let mut text = RANK_SET_HEAD.to_owned();
    push_str(&mut text, user);
    push_str(&mut text, RANK_SET_MIDDLE);
    push_str(&mut text, rank);
    push_str(&mut text, RANK_SET_TAIL);
    text
}

impl AddRankModuleActor {
    /// What the module does with a message: nothing unless it asks for a rank;
    /// else it asks for the message replied to.
    pub open spec fn first_step(self, message: Message) -> StepView {
        match rank_in(message) {
            Some(rank) => StepView::Issue {
                command: CommandView::GetReply,
                pending: PendingView::Reply { rank },
            },
            None => StepView::done(),
        }
    }

    /// What the module does with a reply, for a command that was sent in `chat`.
    /// Every failed command is a fault. The message replied to names the user:
    /// without one the module asks for a reply, with one it asks for the rank and
    /// then confirms it.
    pub open spec fn next_step(chat: Chat, pending: PendingView, reply: Reply) -> StepView {
        match fault_of(reply) {
            Some(fault) => match pending {
                PendingView::Reply { .. } | PendingView::Rank { .. } | PendingView::Edit =>
                    StepView::Finish(Err(fault)),
                _ => StepView::done(),
            },
            None => match pending {
                PendingView::Reply { rank } => {
                    let replied = match reply {
                        Reply::Replied(message) => user_in(message),
                        _ => None,
                    };
                    match replied {
                        Some(user) => StepView::Issue {
                            command: CommandView::SetRank { channel: chat, user, rank },
                            pending: PendingView::Rank { rank, user: user.full_name@ },
                        },
                        None => StepView::Issue {
                            command: CommandView::Edit(REPLY_NOTICE@),
                            pending: PendingView::Edit,
                        },
                    }
                },
                PendingView::Rank { rank, user } => StepView::Issue {
                    command: CommandView::Edit(rank_set_notice(user, rank)),
                    pending: PendingView::Edit,
                },
                _ => StepView::done(),
            },
        }
    }

    /// Takes a message: the first step of its handling.
    pub fn handle<H>(&self, msg: ModuleMessage<H>) -> (step: Step)
        ensures
            step@ == self.first_step(*msg.message),
    {
        // Extract the rank to set from the command message.
        let message: &Message = &msg.message;
        match extract_rank(message) {
            Some(rank) => Step::Issue { command: Command::GetReply, pending: Pending::Reply { rank } },
            // Otherwise, there is nothing to do.
            None => Step::Finish(Ok(())),
        }
    }

    /// Takes the reply to the command that was issued under `pending`, for a
    /// command message that was sent in `chat`.
    pub fn resume(&self, chat: &Chat, pending: Pending, reply: Reply) -> (step: Step)
        ensures
            step@ == Self::next_step(*chat, pending@, reply),
    {
        match pending {
            Pending::Reply { rank } => match reply {
                Reply::Replied(message) => match get_user_replied_to(message) {
                    Some(user) => {
                        // The name is taken before the command owns the user.
                        let name = user.full_name.clone();
                        Step::Issue {
                            command: Command::SetRank {
                                target: GetAdminRightsBuilderCommand { channel: chat.clone(), user },
                                rank: rank.clone(),
                            },
                            pending: Pending::Rank { rank, user: name },
                        }
                    },
                    None => ask_for_reply(),
                },
                Reply::Done => ask_for_reply(),
                _ => conclude(reply),
            },
            Pending::Rank { rank, user } => match reply {
                Reply::Done | Reply::Replied(_) => Step::Issue {
                    command: Command::Edit(
                        InputMessage::text(compose_rank_set_notice(user.as_str(), rank.as_str())),
                    ),
                    pending: Pending::Edit,
                },
                _ => conclude(reply),
            },
            Pending::Edit => conclude(reply),
            _ => Step::Finish(Ok(())),
        }
    }
}

/// The step that tells the user to reply to a message.
fn ask_for_reply() -> (step: Step)
    ensures
        step@ == (StepView::Issue {
            command: CommandView::Edit(REPLY_NOTICE@),
            pending: PendingView::Edit,
        }),
{
    Step::Issue {
        command: Command::Edit(InputMessage::text(REPLY_NOTICE.to_owned())),
        pending: Pending::Edit,
    }
}

impl ModuleMeta for AddRankModuleActor {
    open spec fn spec_name(&self) -> Seq<char> {
        "AddRankModule"@
    }

    fn name(&self) -> (name: &'static str) {
        proof {
            reveal_strlit("AddRankModule");
        }
        "AddRankModule"
    }
}

impl ModuleActivator for AddRankModuleActor {

}

} // verus!
