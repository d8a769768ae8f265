//! GetInfoModule
//!
//! Get the information of the message.
//! For debugging purpose.

use vstd::prelude::*;
use crate::modules::base::{
    Command, CommandView, ModuleActivator, ModuleMessage, ModuleMeta, Pending, PendingView, Reply,
    Step, StepView,
};
use crate::telegram::types::Message;

verus! {

/// The GetInfoModule module that is for debugging.
///
/// It is not recommended to enable this without a reason: it reports every
/// message.
#[derive(Debug, PartialEq, Eq)]
pub struct GetInfoModuleActor;

impl GetInfoModuleActor {
    /// What the module does with a message: it has the text, sender and chat of
    /// every message put on record.
    pub open spec fn first_step(self, message: Message) -> StepView {
        StepView::Issue { command: CommandView::Report(message), pending: PendingView::Report }
    }

    /// What the module does with a reply: nothing, whatever came back.
    pub open spec fn next_step(pending: PendingView, reply: Reply) -> StepView {
        StepView::done()
    }

    /// Takes a message: the first step of its handling.
    pub fn handle<H>(&self, msg: ModuleMessage<H>) -> (step: Step)
        ensures
            step@ == self.first_step(*msg.message),
    {
        let message: &Message = &msg.message;
        Step::Issue { command: Command::Report(message.clone()), pending: Pending::Report }
    }

    /// Takes the reply to the command that was issued under `pending`.
    pub fn resume(&self, pending: Pending, reply: Reply) -> (step: Step)
        ensures
            step@ == Self::next_step(pending@, reply),
    {
        Step::Finish(Ok(()))
    }
}

impl ModuleMeta for GetInfoModuleActor {
    open spec fn spec_name(&self) -> Seq<char> {
        "GetInfoModule"@
    }

    fn name(&self) -> (name: &'static str) {
        proof {
            reveal_strlit("GetInfoModule");
        }
        "GetInfoModule"
    }
}

impl ModuleActivator for GetInfoModuleActor {

}

} // verus!
