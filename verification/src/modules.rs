//! The modules and their registry.
//!
//! The set of modules is closed: [`Module`] is one of the modules that this
//! crate knows. The registry is built once, from the configuration, by
//! [`enabled_modules`], and is not changed afterwards.

use vstd::prelude::*;
use crate::modules::addrank::{rank_in, rank_set_notice, user_in, AddRankModuleActor};
use crate::modules::base::{
    ActivatedModuleInfo, CommandView, ModuleActivator, ModuleMessage, ModuleMeta, Pending,
    PendingView, Reply, Step, StepView,
};
use crate::modules::fwd::{FwdModuleActor, FORWARDED_NOTICE, REPLY_NOTICE};
use crate::modules::getinfo::GetInfoModuleActor;
use crate::modules::template::TemplateModuleActor;
use crate::telegram::client::commands::ForwardSingleMessageCommand;
use crate::telegram::types::{Chat, Message};
use crate::telegram::user::sent_by_owner;

pub mod addrank;
pub mod base;
pub mod fwd;
pub mod getinfo;
pub mod template;

verus! {

/// One of the modules that can be activated.
#[derive(Debug, PartialEq, Eq)]
pub enum Module {
    /// Forwards a message on `!cufwd`.
    Fwd(FwdModuleActor),
    /// Reports every message.
    GetInfo(GetInfoModuleActor),
    /// Gives a rank on `!addrank`.
    AddRank(AddRankModuleActor),
    /// Does nothing.
    Template(TemplateModuleActor),
}

/// Which modules are to run, and what they need.
#[derive(Debug, PartialEq, Eq)]
pub struct ModulesConfig {
    /// The chat that the forward module forwards to; without one the module is off.
    pub fwd_target: Option<Chat>,
    /// Whether the module that reports every message is on.
    pub getinfo: bool,
    /// Whether the module that gives ranks is on.
    pub addrank: bool,
}

impl Module {
    /// What the module does with a message.
    pub open spec fn first_step(self, message: Message) -> StepView {
        match self {
            Module::Fwd(actor) => actor.first_step(message),
            Module::GetInfo(actor) => actor.first_step(message),
            Module::AddRank(actor) => actor.first_step(message),
            Module::Template(actor) => actor.first_step(message),
        }
    }

    /// What the module does with the reply to a command that it issued for `message`.
    pub open spec fn next_step(self, message: Message, pending: PendingView, reply: Reply) -> StepView {
        match self {
            Module::Fwd(_) => FwdModuleActor::next_step(pending, reply),
            Module::GetInfo(_) => GetInfoModuleActor::next_step(pending, reply),
            Module::AddRank(_) => AddRankModuleActor::next_step(message.chat, pending, reply),
            Module::Template(_) => TemplateModuleActor::next_step(pending, reply),
        }
    }

    /// Whether the message is one that the module acts on: the forward module
    /// on its command from the owner, the rank module on its command with a rank
    /// from the owner, the reporting module on everything, the template on
    /// nothing.
    pub open spec fn reacts_to(self, message: Message) -> bool {
        match self {
            Module::Fwd(_) => FwdModuleActor::triggered_by(message),
            Module::GetInfo(_) => true,
            Module::AddRank(_) => rank_in(message) is Some,
            Module::Template(_) => false,
        }
    }

    /// Takes a message: the first step of its handling.
    pub fn handle<H>(&self, msg: ModuleMessage<H>) -> (step: Step)
        ensures
            step@ == self.first_step(*msg.message),
    {
        match self {
            Module::Fwd(actor) => actor.handle(msg),
            Module::GetInfo(actor) => actor.handle(msg),
            Module::AddRank(actor) => actor.handle(msg),
            Module::Template(actor) => actor.handle(msg),
        }
    }

    /// Takes the reply to the command that was issued under `pending` while
    /// handling `msg`.
    pub fn resume<H>(&self, msg: &ModuleMessage<H>, pending: Pending, reply: Reply) -> (step: Step)
        ensures
            step@ == self.next_step(*msg.message, pending@, reply),
    {
        match self {
            Module::Fwd(actor) => actor.resume(pending, reply),
            Module::GetInfo(actor) => actor.resume(pending, reply),
            Module::AddRank(actor) => {
                let message: &Message = &msg.message;
                actor.resume(&message.chat, pending, reply)
            },
            Module::Template(actor) => actor.resume(pending, reply),
        }
    }
}

impl ModuleMeta for Module {
    open spec fn spec_name(&self) -> Seq<char> {
        match *self {
            Module::Fwd(actor) => actor.spec_name(),
            Module::GetInfo(actor) => actor.spec_name(),
            Module::AddRank(actor) => actor.spec_name(),
            Module::Template(actor) => actor.spec_name(),
        }
    }

    fn name(&self) -> (name: &'static str) {
        match self {
            Module::Fwd(actor) => actor.name(),
            Module::GetInfo(actor) => actor.name(),
            Module::AddRank(actor) => actor.name(),
            Module::Template(actor) => actor.name(),
        }
    }
}

impl ModuleActivator for Module {

}

/// The modules that `config` turns on, in the order of the registry: the
/// forward module, the reporting module, the rank module.
pub open spec fn enabled(config: ModulesConfig) -> Seq<Module> {
    let fwd = match config.fwd_target {
        Some(target) => seq![Module::Fwd(FwdModuleActor { target })],
        None => Seq::empty(),
    };
    let getinfo = if config.getinfo {
        seq![Module::GetInfo(GetInfoModuleActor)]
    } else {
        Seq::empty()
    };
    let addrank = if config.addrank {
        seq![Module::AddRank(AddRankModuleActor)]
    } else {
        Seq::empty()
    };
    fwd + getinfo + addrank
}

/// Activates the modules that `config` turns on and returns the registry.
pub fn enabled_modules(config: ModulesConfig) -> (modules: Vec<ActivatedModuleInfo<Module>>)
    ensures
        modules@.len() == enabled(config).len(),
        forall|i: int|
            0 <= i < modules@.len() ==> #[trigger] modules@[i].recipient == enabled(config)[i]
                && modules@[i].name@ == enabled(config)[i].spec_name(),
{
    let mut modules: Vec<ActivatedModuleInfo<Module>> = Vec::new();
    let ghost wanted = enabled(config);
    let ghost mut built: Seq<Module> = Seq::empty();
    if let Some(target) = config.fwd_target {
        let module = Module::Fwd(FwdModuleActor { target });
        proof {
            built = built.push(module);
        }
        modules.push(module.activate_module());
    }
    if config.getinfo {
        proof {
            built = built.push(Module::GetInfo(GetInfoModuleActor));
        }
        modules.push(Module::GetInfo(GetInfoModuleActor).activate_module());
    }
    if config.addrank {
        proof {
            built = built.push(Module::AddRank(AddRankModuleActor));
        }
        modules.push(Module::AddRank(AddRankModuleActor).activate_module());
    }
    assert(built =~= wanted);
    modules
}

/// The commands that a module issues for `message` from `step` on, when the
/// host answers them with `replies`, one after the other.
pub open spec fn commands_from(
    module: Module,
    message: Message,
    step: StepView,
    replies: Seq<Reply>,
) -> Seq<CommandView>
    decreases replies.len(),
{
    match step {
        StepView::Finish(_) => Seq::empty(),
        StepView::Issue { command, pending } => if replies.len() == 0 {
            seq![command]
        } else {
            seq![command] + commands_from(
                module,
                message,
                module.next_step(message, pending, replies[0]),
                replies.drop_first(),
            )
        },
    }
}

/// The commands that a module issues for `message`, when the host answers them
/// with `replies`, one after the other.
pub open spec fn commands(module: Module, message: Message, replies: Seq<Reply>) -> Seq<
    CommandView,
> {
    commands_from(module, message, module.first_step(message), replies)
}

/// A message that a module does not act on is a silent no-op, the first time
/// it is sent and every time after: the module ends its handling at once and
/// without a fault, and issues no command, whatever the host would answer the
/// first time (`replies`) or the second (`again`). The module is handed to
/// `handle` by shared reference, so nothing of it changes in between.
pub proof fn law_unaddressed_message_is_ignored(
    module: Module,
    message: Message,
    replies: Seq<Reply>,
    again: Seq<Reply>,
)
    requires
        !module.reacts_to(message),
    ensures
        module.first_step(message) == StepView::done(),
        commands(module, message, replies) == Seq::<CommandView>::empty(),
        commands(module, message, again) == Seq::<CommandView>::empty(),
{
}

/// A message that the owner of the account did not send moves neither the
/// forward module nor the rank module, whatever its text.
pub proof fn law_strangers_are_ignored(module: Module, message: Message, replies: Seq<Reply>)
    requires
        !sent_by_owner(message),
        module is Fwd || module is AddRank || module is Template,
    ensures
        module.first_step(message) == StepView::done(),
        commands(module, message, replies) == Seq::<CommandView>::empty(),
{
}

/// The forward command is issued exactly once for a command that replies to a
/// message: it is the first command, it names the message replied to and the
/// chat of the command as the source, and the only command that can follow it
/// is the edit that confirms the forward.
pub proof fn law_forward_is_issued_once(
    actor: FwdModuleActor,
    message: Message,
    replies: Seq<Reply>,
)
    requires
        FwdModuleActor::triggered_by(message),
        message.reply_to_message_id is Some,
    ensures
        ({
            let issued = commands(Module::Fwd(actor), message, replies);
            &&& 1 <= issued.len() <= 2
            &&& issued[0] == CommandView::Forward(
                ForwardSingleMessageCommand {
                    forward_to: actor.target,
                    message_id: message.reply_to_message_id->0,
                    message_chat: message.chat,
                },
            )
            &&& issued.len() == 2 ==> issued[1] == CommandView::Edit(FORWARDED_NOTICE@)
            &&& issued.len() == 2 <==> replies.len() > 0 && (replies[0] is Done
                || replies[0] is Replied)
        }),
{
    reveal_with_fuel(commands_from, 3);
}

/// A command of the forward module that replies to nothing leads to no forward:
/// the one command issued is the edit that asks for a reply.
pub proof fn law_forward_needs_a_reply(
    actor: FwdModuleActor,
    message: Message,
    replies: Seq<Reply>,
)
    requires
        FwdModuleActor::triggered_by(message),
        message.reply_to_message_id is None,
    ensures
        commands(Module::Fwd(actor), message, replies) == seq![CommandView::Edit(REPLY_NOTICE@)],
{
    reveal_with_fuel(commands_from, 3);
    assert(commands(Module::Fwd(actor), message, replies) =~= seq![
        CommandView::Edit(REPLY_NOTICE@),
    ]);
}

/// A rank goes to the person who sent the message replied to, in the chat of
/// the command. When every command comes through, the rank module asks for
/// the message replied to, gives that person the rank, and confirms it, in
/// this order and with nothing else.
pub proof fn law_rank_goes_to_the_user_replied_to(
    message: Message,
    replied: Message,
    replies: Seq<Reply>,
)
    requires
        rank_in(message) is Some,
        user_in(Some(replied)) is Some,
        replies.len() >= 3,
        replies[0] == Reply::Replied(Some(replied)),
        replies[1] is Done,
        replies[2] is Done,
    ensures
        commands(Module::AddRank(AddRankModuleActor), message, replies) == seq![
            CommandView::GetReply,
            CommandView::SetRank {
                channel: message.chat,
                user: user_in(Some(replied))->0,
                rank: rank_in(message)->0,
            },
            CommandView::Edit(
                rank_set_notice(user_in(Some(replied))->0.full_name@, rank_in(message)->0),
            ),
        ],
{
    reveal_with_fuel(commands_from, 5);
    let module = Module::AddRank(AddRankModuleActor);
    let tail = replies.drop_first();
    assert(tail[0] == replies[1]);
    assert(tail.drop_first()[0] == replies[2]);
    assert(commands(module, message, replies) =~= seq![
        CommandView::GetReply,
        CommandView::SetRank {
            channel: message.chat,
            user: user_in(Some(replied))->0,
            rank: rank_in(message)->0,
        },
        CommandView::Edit(
            rank_set_notice(user_in(Some(replied))->0.full_name@, rank_in(message)->0),
        ),
    ]);
}

/// Every handling ends: no module issues more than three commands for one
/// message, whatever the host answers.
pub proof fn law_handling_ends(module: Module, message: Message, replies: Seq<Reply>)
    ensures
        commands(module, message, replies).len() <= 3,
{
    reveal_with_fuel(commands_from, 5);
}

} // verus!
