//! FwdModule
//!
//! Simply forward the message to your specified chat
//! with `!cufwd`.

use vstd::prelude::*;
use crate::modules::base::{
    conclude, fault_of, Command, CommandView, ModuleActivator, ModuleError, ModuleMessage,
    ModuleMeta, Pending, PendingView, Reply, Step, StepView,
};
use crate::telegram::client::commands::ForwardSingleMessageCommand;
use crate::telegram::types::{Chat, InputMessage, Message};
use crate::telegram::user::{is_root_user, sent_by_owner};
use crate::utils::same_text;

verus! {

/// The text that asks for a forward.
pub const CMD: &'static str = "!cufwd";

/// The text that replaces the command once the message is forwarded.
pub const FORWARDED_NOTICE: &'static str =
    "[PBOT] 💬 訊息已轉錄至個人群組。若要撤下請回覆告知。";

/// The text that replaces a command that replies to nothing.
pub const REPLY_NOTICE: &'static str = "[PBOT] ⚠️ 請回覆訊息。";

/// The FwdModule actor.
#[derive(Debug, PartialEq, Eq)]
pub struct FwdModuleActor {
    /// Where the message will be forwarded to.
    pub target: Chat,
}

impl FwdModuleActor {
    /// The module responds only when the text of the message is [`CMD`] and
    /// the message is sent by the owner of the account.
    pub open spec fn triggered_by(message: Message) -> bool {
        message.text@ == CMD@ && sent_by_owner(message)
    }

    /// What the module does with a message: nothing unless it is triggered;
    /// else it forwards the message replied to, out of the chat of the command,
    /// or asks for a reply where there is none.
    pub open spec fn first_step(self, message: Message) -> StepView {
        if !Self::triggered_by(message) {
            StepView::done()
        } else {
            match message.reply_to_message_id {
                Some(reply_message_id) => StepView::Issue {
                    command: CommandView::Forward(
                        ForwardSingleMessageCommand {
                            forward_to: self.target,
                            message_id: reply_message_id,
                            message_chat: message.chat,
                        },
                    ),
                    pending: PendingView::Forward,
                },
                None => StepView::Issue {
                    command: CommandView::Edit(REPLY_NOTICE@),
                    pending: PendingView::Edit,
                },
            }
        }
    }

    /// What the module does with a reply. A forward that did not reach the
    /// connection is a fault; one that the platform refused is let pass; one
    /// that went through is confirmed by an edit. A failed edit is a fault.
    pub open spec fn next_step(pending: PendingView, reply: Reply) -> StepView {
        match pending {
            PendingView::Forward => match reply {
                Reply::Undelivered(reason) => StepView::Finish(Err(ModuleError::Undelivered(reason))),
                Reply::Refused(_) => StepView::done(),
                _ => StepView::Issue {
                    command: CommandView::Edit(FORWARDED_NOTICE@),
                    pending: PendingView::Edit,
                },
            },
            PendingView::Edit => match fault_of(reply) {
                Some(fault) => StepView::Finish(Err(fault)),
                None => StepView::done(),
            },
            _ => StepView::done(),
        }
    }

    /// Takes a message: the first step of its handling.
    pub fn handle<H>(&self, msg: ModuleMessage<H>) -> (step: Step)
        ensures
            step@ == self.first_step(*msg.message),
    {
        let message: &Message = &msg.message;
        if !(same_text(&message.text, CMD) && is_root_user(message)) {
            return Step::Finish(Ok(()));
        }
        // Check whether this message replies to another.
        match message.reply_to_message_id {
            // Since the chat of replied message and the chat of this message
            // are the same, the chat of the command stands for both.
            Some(reply_message_id) => Step::Issue {
                command: Command::Forward(
                    ForwardSingleMessageCommand {
                        forward_to: self.target.clone(),
                        message_id: reply_message_id,
                        message_chat: message.chat.clone(),
                    },
                ),
                pending: Pending::Forward,
            },
            // Let the user know how to use it correctly.
            None => Step::Issue {
                command: Command::Edit(InputMessage::text(REPLY_NOTICE.to_owned())),
                pending: Pending::Edit,
            },
        }
    }

    /// Takes the reply to the command that was issued under `pending`.
    pub fn resume(&self, pending: Pending, reply: Reply) -> (step: Step)
        ensures
            step@ == Self::next_step(pending@, reply),
    {
        match pending {
            Pending::Forward => match reply {
                Reply::Undelivered(reason) => Step::Finish(Err(ModuleError::Undelivered(reason))),
                // The failure is the host's to show; the handling did not fail.
                Reply::Refused(_) => Step::Finish(Ok(())),
                _ => Step::Issue {
                    command: Command::Edit(InputMessage::text(FORWARDED_NOTICE.to_owned())),
                    pending: Pending::Edit,
                },
            },
            Pending::Edit => conclude(reply),
            _ => Step::Finish(Ok(())),
        }
    }
}

impl ModuleMeta for FwdModuleActor {
    open spec fn spec_name(&self) -> Seq<char> {
        "FwdModule"@
    }

    fn name(&self) -> (name: &'static str) {
        proof {
            reveal_strlit("FwdModule");
        }
        "FwdModule"
    }
}

impl ModuleActivator for FwdModuleActor {

}

} // verus!
