//! Template
//!
//! A module that does nothing: the shape to start a new module from.

use vstd::prelude::*;
use crate::modules::base::{
    ModuleActivator, ModuleMessage, ModuleMeta, Pending, PendingView, Reply, Step, StepView,
};
use crate::telegram::types::Message;

verus! {

/// The TemplateModule actor.
#[derive(Debug, PartialEq, Eq)]
pub struct TemplateModuleActor {}

/// The configuration of TemplateModule.
#[derive(Debug, PartialEq, Eq)]
pub struct TemplateModuleConfig {}

impl TemplateModuleActor {
    /// The module made from its configuration.
    pub fn new(config: TemplateModuleConfig) -> (actor: TemplateModuleActor)
        ensures
            actor == (TemplateModuleActor {  }),
    {
        TemplateModuleActor {  }
    }

    /// What the module does with a message: nothing.
    pub open spec fn first_step(self, message: Message) -> StepView {
        StepView::done()
    }

    /// What the module does with a reply: nothing.
    pub open spec fn next_step(pending: PendingView, reply: Reply) -> StepView {
        StepView::done()
    }

    /// Takes a message: the first step of its handling.
    pub fn handle<H>(&self, msg: ModuleMessage<H>) -> (step: Step)
        ensures
            step@ == self.first_step(*msg.message),
    {
        Step::Finish(Ok(()))
    }

    /// Takes the reply to the command that was issued under `pending`.
    pub fn resume(&self, pending: Pending, reply: Reply) -> (step: Step)
        ensures
            step@ == Self::next_step(pending@, reply),
    {
        Step::Finish(Ok(()))
    }
}

impl ModuleMeta for TemplateModuleActor {
    open spec fn spec_name(&self) -> Seq<char> {
        "TemplateModule"@
    }

    fn name(&self) -> (name: &'static str) {
        proof {
            reveal_strlit("TemplateModule");
        }
        "TemplateModule"
    }
}

impl ModuleActivator for TemplateModuleActor {

}

} // verus!
