//! The base structure and traits of the modules.
//!
//! A module never talks to the platform itself. It answers a message with a
//! [`Step`]: either it is finished, or it names one [`Command`] for the host to
//! perform and the [`Pending`] state under which it wants to hear the
//! [`Reply`]. The host performs the command, hands the reply to the module's
//! `resume`, and goes on until the module finishes.

use vstd::prelude::*;
use std::sync::Arc;
use crate::telegram::client::commands::{ForwardSingleMessageCommand, GetAdminRightsBuilderCommand};
use crate::telegram::types::{Chat, InputMessage, Message, User};
use crate::utils::share;

verus! {

/// The information of the module which has been initiated and activated.
pub struct ActivatedModuleInfo<R> {
    /// The name of this module.
    pub name: &'static str,
    /// The module recipient: where a [`ModuleMessage`] for it is delivered.
    pub recipient: R,
}

/// The message that a module would receive. Both parts are shared: every
/// module that handles the same message holds the same two values.
#[derive(Debug, PartialEq, Eq)]
pub struct ModuleMessage<H> {
    /// The handle of the one connection to the platform.
    pub handle: Arc<H>,
    /// The message received.
    pub message: Arc<Message>,
}

/// Why a module gave up on a message.
#[derive(Debug, PartialEq, Eq)]
pub enum ModuleError {
    /// The connection could not be reached with a command.
    Undelivered(String),
    /// The platform refused or failed a command.
    Platform(String),
}

/// What a module asks the host to do on the shared connection.
#[derive(Debug, PartialEq, Eq)]
pub enum Command {
    /// Forward one message to another chat.
    Forward(ForwardSingleMessageCommand),
    /// Replace the content of the message that is being handled.
    Edit(InputMessage),
    /// Fetch the message that the handled message replies to.
    GetReply,
    /// Give a user of a channel a rank.
    SetRank {
        /// The channel and the user.
        target: GetAdminRightsBuilderCommand,
        /// The rank to give.
        rank: String,
    },
    /// Put the text, sender and chat of a message on record.
    Report(Message),
}

/// How the host has to hold the message that is being handled while it
/// performs a command. Many may read it at a time; whoever changes it holds it
/// alone, and lets go of it before waiting for anyone else.
#[derive(Debug, PartialEq, Eq, Structural)]
pub enum Access {
    /// The message is read.
    Shared,
    /// The message is changed, or used in a way that keeps others out.
    Exclusive,
}

impl Command {
    /// The access that the command needs: to edit the message or to fetch
    /// what it replies to takes the message alone; everything else reads it.
    pub open spec fn needs(self) -> Access {
        match self {
            Command::Edit(_) | Command::GetReply => Access::Exclusive,
            _ => Access::Shared,
        }
    }

    /// Tells how the message has to be held while the command is performed.
    pub fn access(&self) -> (access: Access)
        ensures
            access == self.needs(),
    {
        match self {
            Command::Edit(_) | Command::GetReply => Access::Exclusive,
            _ => Access::Shared,
        }
    }
}

/// What came of a command.
#[derive(Debug, PartialEq, Eq)]
pub enum Reply {
    /// The command was carried out.
    Done,
    /// The answer to [`Command::GetReply`]: the message replied to, if there is one.
    Replied(Option<Message>),
    /// The platform refused or failed the command.
    Refused(String),
    /// The connection could not be reached.
    Undelivered(String),
}

/// What a module is waiting for.
#[derive(Debug, PartialEq, Eq)]
pub enum Pending {
    /// The outcome of a forward.
    Forward,
    /// The outcome of an edit, after which nothing is left to do.
    Edit,
    /// The message replied to, for whose sender `rank` is meant.
    Reply {
        /// The rank to give.
        rank: String,
    },
    /// The outcome of giving `user` the rank `rank`.
    Rank {
        /// The rank that was asked for.
        rank: String,
        /// The full name of the user.
        user: String,
    },
    /// The record of a message to be taken.
    Report,
}

/// A module's answer to a message or to a reply.
#[derive(Debug, PartialEq, Eq)]
pub enum Step {
    /// The host performs `command` and resumes the module under `pending`.
    Issue {
        /// The command to perform.
        command: Command,
        /// The state to resume under.
        pending: Pending,
    },
    /// The module is done with the message.
    Finish(Result<(), ModuleError>),
}

/// A [`Command`] with its composed texts as sequences of characters.
pub enum CommandView {
    Forward(ForwardSingleMessageCommand),
    Edit(Seq<char>),
    GetReply,
    SetRank { channel: Chat, user: User, rank: Seq<char> },
    Report(Message),
}

/// A [`Pending`] with its texts as sequences of characters.
pub enum PendingView {
    Forward,
    Edit,
    Reply { rank: Seq<char> },
    Rank { rank: Seq<char>, user: Seq<char> },
    Report,
}

/// A [`Step`] with its composed texts as sequences of characters.
pub enum StepView {
    Issue { command: CommandView, pending: PendingView },
    Finish(Result<(), ModuleError>),
}

impl View for Command {
    type V = CommandView;

    open spec fn view(&self) -> CommandView {
        match *self {
            Command::Forward(forward) => CommandView::Forward(forward),
            Command::Edit(content) => CommandView::Edit(content.text@),
            Command::GetReply => CommandView::GetReply,
            Command::SetRank { target, rank } => CommandView::SetRank {
                channel: target.channel,
                user: target.user,
                rank: rank@,
            },
            Command::Report(message) => CommandView::Report(message),
        }
    }
}

impl View for Pending {
    type V = PendingView;

    open spec fn view(&self) -> PendingView {
        match *self {
            Pending::Forward => PendingView::Forward,
            Pending::Edit => PendingView::Edit,
            Pending::Reply { rank } => PendingView::Reply { rank: rank@ },
            Pending::Rank { rank, user } => PendingView::Rank { rank: rank@, user: user@ },
            Pending::Report => PendingView::Report,
        }
    }
}

impl View for Step {
    type V = StepView;

    open spec fn view(&self) -> StepView {
        match *self {
            Step::Issue { command, pending } => StepView::Issue {
                command: command@,
                pending: pending@,
            },
            Step::Finish(result) => StepView::Finish(result),
        }
    }
}

impl StepView {
    /// The step that ends the handling without a fault.
    pub open spec fn done() -> StepView {
        StepView::Finish(Ok(()))
    }

    /// Whether the step asks the host for anything.
    pub open spec fn is_silent(self) -> bool {
        self is Finish
    }
}

impl<H> Clone for ModuleMessage<H> {
    fn clone(&self) -> (copy: Self)
        ensures
            copy == *self,
    {
        ModuleMessage { handle: share(&self.handle), message: share(&self.message) }
    }
}

impl Clone for ModuleError {
    fn clone(&self) -> (copy: Self)
        ensures
            copy == *self,
    {
        match self {
            ModuleError::Undelivered(reason) => ModuleError::Undelivered(reason.clone()),
            ModuleError::Platform(reason) => ModuleError::Platform(reason.clone()),
        }
    }
}

/// What a failed command makes of the handling: the fault that the module reports.
pub open spec fn fault_of(reply: Reply) -> Option<ModuleError> {
    match reply {
        Reply::Refused(reason) => Some(ModuleError::Platform(reason)),
        Reply::Undelivered(reason) => Some(ModuleError::Undelivered(reason)),
        _ => None,
    }
}

/// Ends the handling on the reply to the last command: with the fault, if the
/// command failed, and without one otherwise.
pub fn conclude(reply: Reply) -> (step: Step)
    ensures
        step@ == (match fault_of(reply) {
            Some(fault) => StepView::Finish(Err(fault)),
            None => StepView::done(),
        }),
{
    match reply {
        Reply::Refused(reason) => Step::Finish(Err(ModuleError::Platform(reason))),
        Reply::Undelivered(reason) => Step::Finish(Err(ModuleError::Undelivered(reason))),
        _ => Step::Finish(Ok(())),
    }
}

/// The metadata that a module should have.
pub trait ModuleMeta {
    /// The name of this module, as a sequence of characters.
    spec fn spec_name(&self) -> Seq<char>;

    /// The name of this module: never empty, and the same at every call.
    fn name(&self) -> (name: &'static str)
        ensures
            name@ == self.spec_name(),
            name@.len() > 0,
    ;
}

/// The module activator.
pub trait ModuleActivator: ModuleMeta + Sized {
    /// Activate this module and get [`ActivatedModuleInfo`] including
    /// the module name and the recipient to this module.
    fn activate_module(self) -> (info: ActivatedModuleInfo<Self>)
        ensures
            info.name@ == self.spec_name(),
            info.recipient == self,
    {
        // Get the name before the instance is consumed.
        let name = self.name();
        ActivatedModuleInfo { name, recipient: self }
    }
}

} // verus!
