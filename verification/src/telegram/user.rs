//! The account: who owns it, and how it is logged in.

use vstd::prelude::*;
use crate::telegram::types::{Chat, Message};
use crate::utils::{trim, trimmed};

verus! {

/// The login configuration.
pub struct LoginConfig {
    /// The application identifier issued by the platform.
    pub api_id: usize,
    /// The application hash issued by the platform.
    pub api_hash: String,
    /// The phone number of the account.
    pub mobile_number: String,
    /// Where the session is kept between runs.
    pub session_path: &'static str,
}

/// Whether the message was sent by the account that is logged in.
pub open spec fn sent_by_owner(message: Message) -> bool {
    match message.sender {
        Some(Chat::User(user)) => user.is_self,
        _ => false,
    }
}

/// Tells whether the message was sent by the owner of the account: its sender
/// is known, is a person, and is the account that is logged in.
pub fn is_root_user(message: &Message) -> (owner: bool)
    ensures
        owner == sent_by_owner(*message),
{
    match &message.sender {
        Some(Chat::User(user)) => user.is_self,
        _ => false,
    }
}

/// Where a login stands: what it is waiting for.
#[derive(Debug, PartialEq, Eq)]
pub enum LoginPhase {
    /// The session is being loaded and the connection made.
    Connecting,
    /// The platform is being asked whether the session is authorized.
    CheckingAuthorization,
    /// A login code is being requested.
    RequestingCode,
    /// The operator is typing the login code.
    EnteringCode,
    /// The login code is being checked.
    SigningIn,
    /// The operator is typing the password.
    EnteringPassword,
    /// The password is being checked.
    CheckingPassword,
    /// The session is being stored.
    SavingSession,
}

/// What came of the last action of a login.
#[derive(Debug, PartialEq, Eq)]
pub enum LoginEvent {
    /// The action came through and has nothing to tell.
    Done,
    /// Whether the session is authorized already.
    Authorized(bool),
    /// What the operator typed.
    Entered(String),
    /// The account wants its password; with the hint, if it has one.
    PasswordRequired(Option<String>),
    /// The action failed.
    Failed(String),
}

/// Why a login came to nothing.
#[derive(Debug, PartialEq, Eq)]
pub enum LoginFault {
    /// The application identifier is larger than the platform takes.
    ApiIdOutOfRange,
    /// An action failed, for the reason given.
    Failed(String),
    /// An event came that the phase does not expect.
    Unexpected,
}

/// What the host does next in a login.
#[derive(Debug, PartialEq, Eq)]
pub enum LoginAction {
    /// Load the session, or create it, and connect.
    Connect {
        /// Where the session is kept.
        session_path: &'static str,
        /// The application identifier, as the platform takes it.
        api_id: i32,
    },
    /// Ask whether the session is authorized.
    CheckAuthorization,
    /// Request a login code for the phone number of the configuration.
    RequestLoginCode {
        /// The application identifier, as the platform takes it.
        api_id: i32,
    },
    /// Ask the operator for the login code.
    PromptLoginCode,
    /// Sign in with the code.
    SignIn {
        /// The code as the operator typed it.
        code: String,
    },
    /// Ask the operator for the password.
    PromptPassword {
        /// The hint to show.
        hint: String,
    },
    /// Check the password.
    CheckPassword {
        /// The password, without the white space around it.
        password: String,
    },
    /// Store the session.
    SaveSession {
        /// Where the session is kept.
        session_path: &'static str,
    },
    /// The login is complete.
    Finish,
    /// The login failed; the failure is returned to the caller.
    Fail(LoginFault),
    /// The login failed in a way that the process does not survive.
    Abort(LoginFault),
}

/// One step of a login: what to do, and what is then waited for.
#[derive(Debug, PartialEq, Eq)]
pub struct LoginStep {
    /// What the host does next.
    pub action: LoginAction,
    /// The phase in which the outcome is expected; none when the login is over.
    pub phase: Option<LoginPhase>,
}

/// The hint that is shown where the account has none.
pub const NO_HINT: &'static str = "None";

/// The hint to show for a password.
pub open spec fn hint_text(hint: Option<String>) -> Seq<char> {
    match hint {
        Some(text) => text@,
        None => NO_HINT@,
    }
}

/// The step that ends a login with `action`.
pub open spec fn last_step(action: LoginAction) -> LoginStep {
    LoginStep { action, phase: None }
}

/// The step that performs `action` and waits in `phase`.
pub open spec fn step_to(action: LoginAction, phase: LoginPhase) -> LoginStep {
    LoginStep { action, phase: Some(phase) }
}

/// Whether `step` is what follows when `event` comes in `phase`, under the
/// configuration `conf`.
///
/// A failure to connect, to ask for the authorization, to request the code or
/// to store the session is returned to the caller. A failure of a prompt, of
/// the sign-in or of the password check ends the process, and so does an event
/// that the phase does not expect. The session is stored only after a fresh
/// authorization.
pub open spec fn follows(conf: LoginConfig, phase: LoginPhase, event: LoginEvent, step: LoginStep) -> bool {
    match (phase, event) {
        (LoginPhase::Connecting, LoginEvent::Done) => step == step_to(
            LoginAction::CheckAuthorization,
            LoginPhase::CheckingAuthorization,
        ),
        (LoginPhase::CheckingAuthorization, LoginEvent::Authorized(true)) => step == last_step(
            LoginAction::Finish,
        ),
        (LoginPhase::CheckingAuthorization, LoginEvent::Authorized(false)) => {
            if conf.api_id <= i32::MAX {
                step == step_to(
                    LoginAction::RequestLoginCode { api_id: conf.api_id as i32 },
                    LoginPhase::RequestingCode,
                )
            } else {
                step == last_step(LoginAction::Fail(LoginFault::ApiIdOutOfRange))
            }
        },
        (LoginPhase::RequestingCode, LoginEvent::Done) => step == step_to(
            LoginAction::PromptLoginCode,
            LoginPhase::EnteringCode,
        ),
        (LoginPhase::EnteringCode, LoginEvent::Entered(code)) => step == step_to(
            LoginAction::SignIn { code },
            LoginPhase::SigningIn,
        ),
        (LoginPhase::SigningIn, LoginEvent::Done) => step == step_to(
            LoginAction::SaveSession { session_path: conf.session_path },
            LoginPhase::SavingSession,
        ),
        (LoginPhase::SigningIn, LoginEvent::PasswordRequired(hint)) => {
            &&& step.phase == Some(LoginPhase::EnteringPassword)
            &&& step.action matches LoginAction::PromptPassword { hint: shown }
            &&& shown@ == hint_text(hint)
        },
        (LoginPhase::EnteringPassword, LoginEvent::Entered(password)) => {
            &&& step.phase == Some(LoginPhase::CheckingPassword)
            &&& step.action matches LoginAction::CheckPassword { password: checked }
            &&& checked@ == trimmed(password@)
        },
        (LoginPhase::CheckingPassword, LoginEvent::Done) => step == step_to(
            LoginAction::SaveSession { session_path: conf.session_path },
            LoginPhase::SavingSession,
        ),
        (LoginPhase::SavingSession, LoginEvent::Done) => step == last_step(LoginAction::Finish),
        (_, LoginEvent::Failed(reason)) => {
            if returns_failure(phase) {
                step == last_step(LoginAction::Fail(LoginFault::Failed(reason)))
            } else {
                step == last_step(LoginAction::Abort(LoginFault::Failed(reason)))
            }
        },
        _ => step == last_step(LoginAction::Abort(LoginFault::Unexpected)),
    }
}

/// Whether a failure in `phase` is returned to the caller; in the other
/// phases it ends the process.
pub open spec fn returns_failure(phase: LoginPhase) -> bool {
    phase is Connecting || phase is CheckingAuthorization || phase is RequestingCode
        || phase is SavingSession
}

/// Login with our own account: the first step. The application identifier has
/// to fit the platform's 32 bits; else the login fails before anything is done.
pub fn login(conf: &LoginConfig) -> (step: LoginStep)
    ensures
        conf.api_id <= i32::MAX ==> step == step_to(
            LoginAction::Connect { session_path: conf.session_path, api_id: conf.api_id as i32 },
            LoginPhase::Connecting,
        ),
        conf.api_id > i32::MAX ==> step == last_step(LoginAction::Fail(LoginFault::ApiIdOutOfRange)),
{
    match platform_id(conf.api_id) {
        Some(api_id) => LoginStep {
            action: LoginAction::Connect { session_path: conf.session_path, api_id },
            phase: Some(LoginPhase::Connecting),
        },
        None => LoginStep { action: LoginAction::Fail(LoginFault::ApiIdOutOfRange), phase: None },
    }
}

/// The application identifier as the platform takes it, if it fits.
pub fn platform_id(api_id: usize) -> (id: Option<i32>)
    ensures
        api_id <= i32::MAX ==> id == Some(api_id as i32),
        api_id > i32::MAX ==> id is None,
{
    if api_id <= 0x7fff_ffff {
        Some(api_id as i32)
    } else {
        None
    }
}

/// Login with our own account: the step that follows when `event` comes in
/// `phase`.
pub fn login_step(conf: &LoginConfig, phase: LoginPhase, event: LoginEvent) -> (step: LoginStep)
    ensures
        follows(*conf, phase, event, step),
{
    match event {
        LoginEvent::Failed(reason) => {
            let fault = LoginFault::Failed(reason);
            let returned = match phase {
                LoginPhase::Connecting
                | LoginPhase::CheckingAuthorization
                | LoginPhase::RequestingCode
                | LoginPhase::SavingSession => true,
                _ => false,
            };
            if returned {
                LoginStep { action: LoginAction::Fail(fault), phase: None }
            } else {
                LoginStep { action: LoginAction::Abort(fault), phase: None }
            }
        },
        LoginEvent::Done => match phase {
            LoginPhase::Connecting => LoginStep {
                action: LoginAction::CheckAuthorization,
                phase: Some(LoginPhase::CheckingAuthorization),
            },
            LoginPhase::RequestingCode => LoginStep {
                action: LoginAction::PromptLoginCode,
                phase: Some(LoginPhase::EnteringCode),
            },
            LoginPhase::SigningIn | LoginPhase::CheckingPassword => LoginStep {
                action: LoginAction::SaveSession { session_path: conf.session_path },
                phase: Some(LoginPhase::SavingSession),
            },
            LoginPhase::SavingSession => LoginStep { action: LoginAction::Finish, phase: None },
            _ => unexpected(),
        },
        LoginEvent::Authorized(authorized) => match phase {
            LoginPhase::CheckingAuthorization => {
                if authorized {
                    LoginStep { action: LoginAction::Finish, phase: None }
                } else {
                    match platform_id(conf.api_id) {
                        Some(api_id) => LoginStep {
                            action: LoginAction::RequestLoginCode { api_id },
                            phase: Some(LoginPhase::RequestingCode),
                        },
                        None => LoginStep {
                            action: LoginAction::Fail(LoginFault::ApiIdOutOfRange),
                            phase: None,
                        },
                    }
                }
            },
            _ => unexpected(),
        },
        LoginEvent::Entered(typed) => match phase {
            LoginPhase::EnteringCode => LoginStep {
                action: LoginAction::SignIn { code: typed },
                phase: Some(LoginPhase::SigningIn),
            },
            LoginPhase::EnteringPassword => LoginStep {
                action: LoginAction::CheckPassword { password: trim(typed.as_str()) },
                phase: Some(LoginPhase::CheckingPassword),
            },
            _ => unexpected(),
        },
        LoginEvent::PasswordRequired(hint) => match phase {
            LoginPhase::SigningIn => {
                let shown = match hint {
                    Some(text) => text,
                    None => NO_HINT.to_owned(),
                };
                LoginStep {
                    action: LoginAction::PromptPassword { hint: shown },
                    phase: Some(LoginPhase::EnteringPassword),
                }
            },
            _ => unexpected(),
        },
    }
}

/// The step that ends the process on an event that the phase does not expect.
fn unexpected() -> (step: LoginStep)
    ensures
        step == last_step(LoginAction::Abort(LoginFault::Unexpected)),
{
    LoginStep { action: LoginAction::Abort(LoginFault::Unexpected), phase: None }
}

} // verus!
