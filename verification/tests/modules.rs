use std::sync::Arc;

use pbot::modules::addrank::{
    compose_rank_set_notice, extract_rank, get_user_replied_to, AddRankModuleActor, CMD_PREFIX,
};
use pbot::modules::base::{
    conclude, Access, Command, ModuleActivator, ModuleError, ModuleMessage, ModuleMeta, Pending, Reply,
    Step,
};
use pbot::modules::fwd::{FwdModuleActor, CMD, FORWARDED_NOTICE, REPLY_NOTICE};
use pbot::modules::getinfo::GetInfoModuleActor;
use pbot::modules::template::{TemplateModuleActor, TemplateModuleConfig};
use pbot::modules::{enabled_modules, Module, ModulesConfig};
use pbot::telegram::client::commands::{ForwardSingleMessageCommand, GetAdminRightsBuilderCommand};
use pbot::telegram::types::{Channel, Chat, Group, InputMessage, Message, User};

fn owner() -> Chat {
    Chat::User(User { id: 1, is_self: true, full_name: "Owner".to_string() })
}

fn stranger() -> Chat {
    Chat::User(User { id: 2, is_self: false, full_name: "Alice Liddell".to_string() })
}

fn room() -> Chat {
    Chat::Group(Group { id: 900 })
}

fn archive() -> Chat {
    Chat::Channel(Channel { id: 77 })
}

fn message(text: &str, sender: Option<Chat>, reply_to: Option<i32>) -> Message {
    Message { id: 10, text: text.to_string(), sender, chat: room(), reply_to_message_id: reply_to }
}

fn envelope(text: &str, sender: Option<Chat>, reply_to: Option<i32>) -> ModuleMessage<u8> {
    ModuleMessage { handle: Arc::new(7), message: Arc::new(message(text, sender, reply_to)) }
}

fn edit(text: &str) -> Command {
    Command::Edit(InputMessage { text: text.to_string() })
}

#[test]
fn forward_command_of_owner_forwards_the_message_replied_to() {
    let actor = FwdModuleActor { target: archive() };
    let step = actor.handle(envelope("!cufwd", Some(owner()), Some(4)));
    assert_eq!(
        step,
        Step::Issue {
            command: Command::Forward(ForwardSingleMessageCommand {
                forward_to: archive(),
                message_id: 4,
                message_chat: room(),
            }),
            pending: Pending::Forward,
        }
    );
}

#[test]
fn forward_that_went_through_is_confirmed_by_one_edit() {
    let actor = FwdModuleActor { target: archive() };
    let step = actor.resume(Pending::Forward, Reply::Done);
    assert_eq!(
        step,
        Step::Issue {
            command: edit("[PBOT] 💬 訊息已轉錄至個人群組。若要撤下請回覆告知。"),
            pending: Pending::Edit,
        }
    );
    assert_eq!(actor.resume(Pending::Edit, Reply::Done), Step::Finish(Ok(())));
}

#[test]
fn forward_run_issues_exactly_one_forward() {
    let actor = FwdModuleActor { target: archive() };
    let mut issued: Vec<Command> = Vec::new();
    let mut step = actor.handle(envelope(CMD, Some(owner()), Some(31)));
    let mut result = None;
    while result.is_none() {
        match step {
            Step::Issue { command, pending } => {
                issued.push(command);
                step = actor.resume(pending, Reply::Done);
            }
            Step::Finish(outcome) => {
                result = Some(outcome);
                step = Step::Finish(Ok(()));
            }
        }
    }
    assert_eq!(result, Some(Ok(())));
    assert_eq!(issued.len(), 2);
    let forwards = issued.iter().filter(|c| matches!(c, Command::Forward(_))).count();
    assert_eq!(forwards, 1);
    assert_eq!(issued[1], edit(FORWARDED_NOTICE));
}

#[test]
fn forward_command_without_reply_asks_for_one() {
    let actor = FwdModuleActor { target: archive() };
    let step = actor.handle(envelope("!cufwd", Some(owner()), None));
    assert_eq!(
        step,
        Step::Issue { command: edit("[PBOT] ⚠️ 請回覆訊息。"), pending: Pending::Edit }
    );
    assert_eq!(REPLY_NOTICE, "[PBOT] ⚠️ 請回覆訊息。");
}

#[test]
fn forward_command_of_stranger_is_a_silent_no_op() {
    let actor = FwdModuleActor { target: archive() };
    assert_eq!(actor.handle(envelope("!cufwd", Some(stranger()), Some(4))), Step::Finish(Ok(())));
    assert_eq!(actor.handle(envelope("!cufwd", None, Some(4))), Step::Finish(Ok(())));
    assert_eq!(actor.handle(envelope("!cufwd", Some(room()), Some(4))), Step::Finish(Ok(())));
}

#[test]
fn forward_module_wants_the_exact_command() {
    let actor = FwdModuleActor { target: archive() };
    for text in ["hello", "!cufwd now", " !cufwd", "!CUFWD", ""] {
        assert_eq!(actor.handle(envelope(text, Some(owner()), Some(4))), Step::Finish(Ok(())));
    }
}

#[test]
fn refused_forward_is_not_a_fault_of_the_module() {
    let actor = FwdModuleActor { target: archive() };
    let step = actor.resume(Pending::Forward, Reply::Refused("flood".to_string()));
    assert_eq!(step, Step::Finish(Ok(())));
}

#[test]
fn undelivered_forward_is_a_fault() {
    let actor = FwdModuleActor { target: archive() };
    let step = actor.resume(Pending::Forward, Reply::Undelivered("mailbox closed".to_string()));
    assert_eq!(step, Step::Finish(Err(ModuleError::Undelivered("mailbox closed".to_string()))));
}

#[test]
fn failed_edit_is_a_fault() {
    let actor = FwdModuleActor { target: archive() };
    let step = actor.resume(Pending::Edit, Reply::Refused("not modified".to_string()));
    assert_eq!(step, Step::Finish(Err(ModuleError::Platform("not modified".to_string()))));
    assert_eq!(
        conclude(Reply::Undelivered("gone".to_string())),
        Step::Finish(Err(ModuleError::Undelivered("gone".to_string())))
    );
    assert_eq!(conclude(Reply::Done), Step::Finish(Ok(())));
    assert_eq!(conclude(Reply::Replied(None)), Step::Finish(Ok(())));
}

#[test]
fn unaddressed_message_is_a_no_op_both_times() {
    let modules = [
        Module::Fwd(FwdModuleActor { target: archive() }),
        Module::AddRank(AddRankModuleActor),
        Module::Template(TemplateModuleActor {}),
    ];
    for module in modules.iter() {
        let first = module.handle(envelope("good morning", Some(owner()), Some(3)));
        let second = module.handle(envelope("good morning", Some(owner()), Some(3)));
        assert_eq!(first, Step::Finish(Ok(())));
        assert_eq!(second, Step::Finish(Ok(())));
    }
    assert_eq!(modules[0], Module::Fwd(FwdModuleActor { target: archive() }));
}

#[test]
fn rank_is_the_second_word_of_the_owners_command() {
    assert_eq!(
        extract_rank(&message("!addrank idiot", Some(owner()), None)),
        Some("idiot".to_string())
    );
    assert_eq!(
        extract_rank(&message("  !addrank \t 頭目  and more", Some(owner()), None)),
        Some("頭目".to_string())
    );
    assert_eq!(
        extract_rank(&message("!addrank\u{3000}boss\n", Some(owner()), None)),
        Some("boss".to_string())
    );
    assert_eq!(CMD_PREFIX, "!addrank");
}

#[test]
fn rank_is_missing_without_command_owner_or_argument() {
    assert_eq!(extract_rank(&message("!addrank", Some(owner()), None)), None);
    assert_eq!(extract_rank(&message("!addrank   ", Some(owner()), None)), None);
    assert_eq!(extract_rank(&message("", Some(owner()), None)), None);
    assert_eq!(extract_rank(&message(" \t\n", Some(owner()), None)), None);
    assert_eq!(extract_rank(&message("!addrankboss x", Some(owner()), None)), None);
    assert_eq!(extract_rank(&message("say !addrank boss", Some(owner()), None)), None);
    assert_eq!(extract_rank(&message("!addrank boss", Some(stranger()), None)), None);
    assert_eq!(extract_rank(&message("!addrank boss", None, None)), None);
}

#[test]
fn user_replied_to_is_the_person_who_sent_the_reply_target() {
    let alice = User { id: 2, is_self: false, full_name: "Alice Liddell".to_string() };
    assert_eq!(get_user_replied_to(Some(message("hi", Some(stranger()), None))), Some(alice));
    assert_eq!(get_user_replied_to(Some(message("hi", Some(room()), None))), None);
    assert_eq!(get_user_replied_to(Some(message("hi", None, None))), None);
    assert_eq!(get_user_replied_to(None), None);
}

#[test]
fn rank_notice_names_user_and_rank() {
    assert_eq!(
        compose_rank_set_notice("Alice Liddell", "boss"),
        "[PBOT] ✅ 成功將 Alice Liddell 的頭銜設定為 boss。"
    );
    assert_eq!(compose_rank_set_notice("", ""), "[PBOT] ✅ 成功將  的頭銜設定為 。");
}

#[test]
fn rank_command_runs_to_its_confirmation() {
    let actor = AddRankModuleActor;
    let step = actor.handle(envelope("!addrank boss", Some(owner()), Some(8)));
    assert_eq!(
        step,
        Step::Issue { command: Command::GetReply, pending: Pending::Reply { rank: "boss".to_string() } }
    );
    let target = message("hello", Some(stranger()), None);
    let step = actor.resume(
        &room(),
        Pending::Reply { rank: "boss".to_string() },
        Reply::Replied(Some(target)),
    );
    assert_eq!(
        step,
        Step::Issue {
            command: Command::SetRank {
                target: GetAdminRightsBuilderCommand {
                    channel: room(),
                    user: User { id: 2, is_self: false, full_name: "Alice Liddell".to_string() },
                },
                rank: "boss".to_string(),
            },
            pending: Pending::Rank { rank: "boss".to_string(), user: "Alice Liddell".to_string() },
        }
    );
    let step = actor.resume(
        &room(),
        Pending::Rank { rank: "boss".to_string(), user: "Alice Liddell".to_string() },
        Reply::Done,
    );
    assert_eq!(
        step,
        Step::Issue {
            command: edit("[PBOT] ✅ 成功將 Alice Liddell 的頭銜設定為 boss。"),
            pending: Pending::Edit,
        }
    );
    assert_eq!(actor.resume(&room(), Pending::Edit, Reply::Done), Step::Finish(Ok(())));
}

#[test]
fn rank_command_without_a_person_to_rank_asks_for_a_reply() {
    let actor = AddRankModuleActor;
    let pending = || Pending::Reply { rank: "boss".to_string() };
    let ask = Step::Issue { command: edit("[PBOT] ⚠️ 請回覆訊息。"), pending: Pending::Edit };
    assert_eq!(actor.resume(&room(), pending(), Reply::Replied(None)), ask);
    let by_group = message("hi", Some(room()), None);
    assert_eq!(actor.resume(&room(), pending(), Reply::Replied(Some(by_group))), ask);
    let by_nobody = message("hi", None, None);
    assert_eq!(actor.resume(&room(), pending(), Reply::Replied(Some(by_nobody))), ask);
    assert_eq!(actor.resume(&room(), pending(), Reply::Done), ask);
}

#[test]
fn rank_command_reports_every_failed_command() {
    let actor = AddRankModuleActor;
    let refused = || Reply::Refused("chat admin required".to_string());
    let fault = Step::Finish(Err(ModuleError::Platform("chat admin required".to_string())));
    assert_eq!(
        actor.resume(&room(), Pending::Reply { rank: "boss".to_string() }, refused()),
        fault
    );
    assert_eq!(
        actor.resume(
            &room(),
            Pending::Rank { rank: "boss".to_string(), user: "Alice".to_string() },
            refused()
        ),
        fault
    );
    assert_eq!(actor.resume(&room(), Pending::Edit, refused()), fault);
    assert_eq!(
        actor.resume(
            &room(),
            Pending::Rank { rank: "boss".to_string(), user: "Alice".to_string() },
            Reply::Undelivered("closed".to_string())
        ),
        Step::Finish(Err(ModuleError::Undelivered("closed".to_string())))
    );
}

#[test]
fn info_module_reports_every_message() {
    let actor = GetInfoModuleActor;
    let step = actor.handle(envelope("anything", None, None));
    assert_eq!(
        step,
        Step::Issue { command: Command::Report(message("anything", None, None)), pending: Pending::Report }
    );
    assert_eq!(actor.resume(Pending::Report, Reply::Done), Step::Finish(Ok(())));
    assert_eq!(
        actor.resume(Pending::Report, Reply::Refused("x".to_string())),
        Step::Finish(Ok(()))
    );
}

#[test]
fn template_module_does_nothing() {
    let actor = TemplateModuleActor::new(TemplateModuleConfig {});
    assert_eq!(actor, TemplateModuleActor {});
    assert_eq!(actor.handle(envelope("!cufwd", Some(owner()), Some(1))), Step::Finish(Ok(())));
    assert_eq!(actor.resume(Pending::Edit, Reply::Done), Step::Finish(Ok(())));
}

#[test]
fn modules_have_their_names() {
    assert_eq!(FwdModuleActor { target: archive() }.name(), "FwdModule");
    assert_eq!(GetInfoModuleActor.name(), "GetInfoModule");
    assert_eq!(AddRankModuleActor.name(), "AddRankModule");
    assert_eq!(TemplateModuleActor {}.name(), "TemplateModule");
    assert_eq!(Module::AddRank(AddRankModuleActor).name(), "AddRankModule");
}

#[test]
fn activation_keeps_name_and_module() {
    let info = FwdModuleActor { target: archive() }.activate_module();
    assert_eq!(info.name, "FwdModule");
    assert_eq!(info.recipient, FwdModuleActor { target: archive() });
}

#[test]
fn registry_holds_the_enabled_modules_in_order() {
    let all = enabled_modules(ModulesConfig {
        fwd_target: Some(archive()),
        getinfo: true,
        addrank: true,
    });
    let names: Vec<&str> = all.iter().map(|info| info.name).collect();
    assert_eq!(names, vec!["FwdModule", "GetInfoModule", "AddRankModule"]);
    assert_eq!(all[0].recipient, Module::Fwd(FwdModuleActor { target: archive() }));
    assert_eq!(all[1].recipient, Module::GetInfo(GetInfoModuleActor));
    assert_eq!(all[2].recipient, Module::AddRank(AddRankModuleActor));

    let some = enabled_modules(ModulesConfig { fwd_target: None, getinfo: false, addrank: true });
    assert_eq!(some.len(), 1);
    assert_eq!(some[0].name, "AddRankModule");

    let none = enabled_modules(ModulesConfig { fwd_target: None, getinfo: false, addrank: false });
    assert!(none.is_empty());
}

#[test]
fn module_of_the_registry_resumes_with_the_chat_of_the_command() {
    let module = Module::AddRank(AddRankModuleActor);
    let msg = envelope("!addrank chief", Some(owner()), Some(8));
    let step = module.resume(
        &msg,
        Pending::Reply { rank: "chief".to_string() },
        Reply::Replied(Some(message("hello", Some(stranger()), None))),
    );
    match step {
        Step::Issue { command: Command::SetRank { target, rank }, .. } => {
            assert_eq!(target.channel, room());
            assert_eq!(rank, "chief");
        }
        other => panic!("unexpected step {:?}", other),
    }
}

#[test]
fn commands_that_change_the_message_hold_it_alone() {
    assert_eq!(edit("x").access(), Access::Exclusive);
    assert_eq!(Command::GetReply.access(), Access::Exclusive);
    assert_eq!(Command::Report(message("x", None, None)).access(), Access::Shared);
    let forward = Command::Forward(ForwardSingleMessageCommand {
        forward_to: archive(),
        message_id: 4,
        message_chat: room(),
    });
    assert_eq!(forward.access(), Access::Shared);
    let rank = Command::SetRank {
        target: GetAdminRightsBuilderCommand {
            channel: room(),
            user: User { id: 2, is_self: false, full_name: "Alice".to_string() },
        },
        rank: "boss".to_string(),
    };
    assert_eq!(rank.access(), Access::Shared);
}

#[test]
fn envelope_is_copied_whole() {
    let msg = envelope("!cufwd", Some(owner()), Some(4));
    let copy = msg.clone();
    assert_eq!(copy, envelope("!cufwd", Some(owner()), Some(4)));
    assert!(Arc::ptr_eq(&copy.handle, &msg.handle));
    assert!(Arc::ptr_eq(&copy.message, &msg.message));
    let fault = ModuleError::Platform("x".to_string());
    assert_eq!(fault.clone(), ModuleError::Platform("x".to_string()));
}
