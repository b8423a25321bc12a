//! A visit to the vault as a session that moves from command to command:
//! which command comes next, and what each outcome means for the rest.

use vstd::prelude::*;
use vstd::string::*;
use crate::bitwarden::token::{extract_session_token, session_token, TokenFault};
use crate::text::optional_text;
use crate::vault_item::VaultItemType;

verus! {

/// A value that the environment has to supply for the vault.
#[derive(Debug, Clone, Copy, PartialEq, Eq, Structural)]
pub enum VaultSetting {
    ClientId,
    ClientSecret,
    MasterPassword,
}

/// What went wrong with the vault tool.
#[derive(Debug, Clone, Copy, PartialEq, Eq, Structural)]
pub enum ToolFault {
    LoginRefused,
    UnlockRefused,
    OutputUnreadable,
    PatternRejected,
    SessionKeyMissing,
    ListRefused,
    GetRefused,
    LockRefused,
    LogoutRefused,
}

/// Why a visit to the vault failed.
#[derive(Debug, Clone, Copy, PartialEq, Eq, Structural)]
pub enum VaultError {
    /// A setting is absent from the environment.
    Configuration(VaultSetting),
    /// The tool ended with a failure, or printed what cannot be used.
    ExternalTool(ToolFault),
}

impl VaultError {
    /// What the operator is told of the error.
    pub open spec fn text(self) -> Seq<char> {
        match self {
            VaultError::Configuration(VaultSetting::ClientId) => "Failed to get BW_CLIENTID"@,
            VaultError::Configuration(VaultSetting::ClientSecret) =>
                "Failed to get BW_CLIENTSECRET"@,
            VaultError::Configuration(VaultSetting::MasterPassword) =>
                "Failed to get MASTER_PASSWORD"@,
            VaultError::ExternalTool(ToolFault::LoginRefused) => "Failed to login with API key"@,
            VaultError::ExternalTool(ToolFault::UnlockRefused) => "Failed to unlock vault"@,
            VaultError::ExternalTool(ToolFault::OutputUnreadable) => "Failed to parse output"@,
            VaultError::ExternalTool(ToolFault::PatternRejected) => "Failed to compile regex"@,
            VaultError::ExternalTool(ToolFault::SessionKeyMissing) =>
                "Failed to find session key in output"@,
            VaultError::ExternalTool(ToolFault::ListRefused) => "Failed to list vault items"@,
            VaultError::ExternalTool(ToolFault::GetRefused) => "Failed to get vault item"@,
            VaultError::ExternalTool(ToolFault::LockRefused) => "Failed to lock vault"@,
            VaultError::ExternalTool(ToolFault::LogoutRefused) => "Failed to logout"@,
        }
    }

    /// The text of the error for the operator.
    pub fn message(&self) -> (text: &'static str)
        ensures
            text@ == self.text(),
    {
        match self {
            VaultError::Configuration(VaultSetting::ClientId) => "Failed to get BW_CLIENTID",
            VaultError::Configuration(VaultSetting::ClientSecret) =>
                "Failed to get BW_CLIENTSECRET",
            VaultError::Configuration(VaultSetting::MasterPassword) =>
                "Failed to get MASTER_PASSWORD",
            VaultError::ExternalTool(ToolFault::LoginRefused) => "Failed to login with API key",
            VaultError::ExternalTool(ToolFault::UnlockRefused) => "Failed to unlock vault",
            VaultError::ExternalTool(ToolFault::OutputUnreadable) => "Failed to parse output",
            VaultError::ExternalTool(ToolFault::PatternRejected) => "Failed to compile regex",
            VaultError::ExternalTool(ToolFault::SessionKeyMissing) =>
                "Failed to find session key in output",
            VaultError::ExternalTool(ToolFault::ListRefused) => "Failed to list vault items",
            VaultError::ExternalTool(ToolFault::GetRefused) => "Failed to get vault item",
            VaultError::ExternalTool(ToolFault::LockRefused) => "Failed to lock vault",
            VaultError::ExternalTool(ToolFault::LogoutRefused) => "Failed to logout",
        }
    }
}

/// What the visit is for.
#[derive(Debug, Clone, PartialEq, Eq)]
pub enum VaultOperation {
    ListItems,
    GetItem { item_type: VaultItemType, name: String },
}

/// `VaultOperation` with its text as a sequence of characters.
pub enum OperationSpec {
    ListItems,
    GetItem { item_type: VaultItemType, name: Seq<char> },
}

impl View for VaultOperation {
    type V = OperationSpec;

    open spec fn view(&self) -> OperationSpec {
        match self {
            VaultOperation::ListItems => OperationSpec::ListItems,
            VaultOperation::GetItem { item_type, name } => OperationSpec::GetItem {
                item_type: *item_type,
                name: name@,
            },
        }
    }
}

/// The three values that the vault needs from the environment, each as it
/// was found there.
#[derive(Debug, Clone, PartialEq, Eq)]
pub struct VaultEnvironment {
    pub client_id: Option<String>,
    pub client_secret: Option<String>,
    pub master_password: Option<String>,
}

/// How one run of the tool ended: whether it reported success, and what it
/// printed, if that was text.
#[derive(Debug, Clone, PartialEq, Eq)]
pub struct ToolOutput {
    pub success: bool,
    pub stdout: Option<String>,
}

/// The command whose outcome a session waits for; `Done` when it waits for
/// none.
#[derive(Debug, Clone, Copy, PartialEq, Eq, Structural)]
pub enum Phase {
    Login,
    Unlock,
    Operate,
    Lock,
    Logout,
    Done,
}

impl Phase {
    /// What the operator is told when the command of the phase has
    /// succeeded; the errand has its output to show and no notice.
    pub open spec fn notice(self) -> Option<Seq<char>> {
        match self {
            Phase::Login => Some("Login successful"@),
            Phase::Unlock => Some("Unlock successful"@),
            Phase::Lock => Some("Lock successful"@),
            Phase::Logout => Some("Logout successful"@),
            Phase::Operate => None,
            Phase::Done => None,
        }
    }

    /// The notice to show after a success in this phase.
    pub fn success_notice(&self) -> (notice: Option<&'static str>)
        ensures
            match notice {
                Some(text) => self.notice() == Some(text@),
                None => self.notice() is None,
            },
    {
        match self {
            Phase::Login => Some("Login successful"),
            Phase::Unlock => Some("Unlock successful"),
            Phase::Lock => Some("Lock successful"),
            Phase::Logout => Some("Logout successful"),
            Phase::Operate => None,
            Phase::Done => None,
        }
    }
}

/// One run of the tool: the phase it belongs to, its arguments, and the
/// session token that it has to find in `BW_SESSION`, if there is one by
/// then.
#[derive(Debug, Clone, PartialEq, Eq)]
pub struct VaultCommand {
    pub phase: Phase,
    pub args: Vec<String>,
    pub session_token: Option<String>,
}

/// `VaultCommand` with its texts as sequences of characters.
pub struct CommandSpec {
    pub phase: Phase,
    pub args: Seq<Seq<char>>,
    pub session_token: Option<Seq<char>>,
}

impl View for VaultCommand {
    type V = CommandSpec;

    open spec fn view(&self) -> CommandSpec {
        CommandSpec {
            phase: self.phase,
            args: self.args@.map_values(|arg: String| arg@),
            session_token: optional_text(self.session_token),
        }
    }
}

/// A session as a mathematical value.
pub struct SessionState {
    pub operation: OperationSpec,
    pub master_password: Option<Seq<char>>,
    pub phase: Phase,
    pub logged_in: bool,
    pub unlocked: bool,
    pub token: Option<Seq<char>>,
    /// How the errand ended, once it has: with the text fetched, or with the
    /// first thing that went wrong.
    pub errand: Option<Result<Seq<char>, VaultError>>,
}

/// The outcome of one command, with what a search for the session token in
/// its output came to.
pub struct Event {
    pub success: bool,
    pub stdout: Option<Seq<char>>,
    pub token: Result<Seq<char>, TokenFault>,
}

/// The session before any command has run. Without both client credentials
/// there is nothing to log in with: the visit is over before the tool is
/// run at all, and its outcome is the credential that is missing, the
/// client's name before its secret.
pub open spec fn initial(
    operation: OperationSpec,
    has_client_id: bool,
    has_client_secret: bool,
    master_password: Option<Seq<char>>,
) -> SessionState {
    SessionState {
        operation,
        master_password,
        phase: if has_client_id && has_client_secret {
            Phase::Login
        } else {
            Phase::Done
        },
        logged_in: false,
        unlocked: false,
        token: None,
        errand: if !has_client_id {
            Some(Err(VaultError::Configuration(VaultSetting::ClientId)))
        } else if !has_client_secret {
            Some(Err(VaultError::Configuration(VaultSetting::ClientSecret)))
        } else {
            None
        },
    }
}

/// The session gives up on its errand for `error` and turns to the cleanup.
pub open spec fn failing(state: SessionState, error: VaultError) -> SessionState {
    SessionState { phase: Phase::Lock, errand: Some(Err(error)), ..state }
}

/// The fault of a search for the token, as a fault of the tool.
pub open spec fn token_fault(fault: TokenFault) -> ToolFault {
    match fault {
        TokenFault::Missing => ToolFault::SessionKeyMissing,
        TokenFault::PatternRejected => ToolFault::PatternRejected,
    }
}

/// What one command of the cleanup makes of the errand's end: a failure of
/// the cleanup takes the place of a success, and never that of an earlier
/// failure.
pub open spec fn after_cleanup(
    errand: Option<Result<Seq<char>, VaultError>>,
    success: bool,
    fault: ToolFault,
) -> Option<Result<Seq<char>, VaultError>> {
    match errand {
        Some(Ok(_)) => if success {
            errand
        } else {
            Some(Err(VaultError::ExternalTool(fault)))
        },
        _ => errand,
    }
}

/// The session after the awaited command ended as `event` says.
pub open spec fn step(state: SessionState, event: Event) -> SessionState {
    match state.phase {
        Phase::Login => if !event.success {
            failing(state, VaultError::ExternalTool(ToolFault::LoginRefused))
        } else if state.master_password is None {
            failing(
                SessionState { logged_in: true, ..state },
                VaultError::Configuration(VaultSetting::MasterPassword),
            )
        } else {
            SessionState { phase: Phase::Unlock, logged_in: true, ..state }
        },
        Phase::Unlock => if !event.success {
            failing(state, VaultError::ExternalTool(ToolFault::UnlockRefused))
        } else if event.stdout is None {
            failing(state, VaultError::ExternalTool(ToolFault::OutputUnreadable))
        } else {
            match event.token {
                Ok(token) => SessionState {
                    phase: Phase::Operate,
                    unlocked: true,
                    token: Some(token),
                    ..state
                },
                Err(fault) => failing(state, VaultError::ExternalTool(token_fault(fault))),
            }
        },
        Phase::Operate => if !event.success {
            failing(
                state,
                VaultError::ExternalTool(
                    match state.operation {
                        OperationSpec::ListItems => ToolFault::ListRefused,
                        OperationSpec::GetItem { .. } => ToolFault::GetRefused,
                    },
                ),
            )
        } else {
            match event.stdout {
                Some(text) => SessionState { phase: Phase::Lock, errand: Some(Ok(text)), ..state },
                None => failing(state, VaultError::ExternalTool(ToolFault::OutputUnreadable)),
            }
        },
        Phase::Lock => SessionState {
            phase: Phase::Logout,
            unlocked: state.unlocked && !event.success,
            errand: after_cleanup(state.errand, event.success, ToolFault::LockRefused),
            ..state
        },
        Phase::Logout => SessionState {
            phase: Phase::Done,
            logged_in: state.logged_in && !event.success,
            errand: after_cleanup(state.errand, event.success, ToolFault::LogoutRefused),
            ..state
        },
        Phase::Done => state,
    }
}

/// The arguments of the command that the session waits for.
pub open spec fn arguments(state: SessionState) -> Seq<Seq<char>> {
    match state.phase {
        Phase::Login => seq!["login"@, "--apikey"@],
        Phase::Unlock => seq!["unlock"@, state.master_password->0],
        Phase::Operate => match state.operation {
            OperationSpec::ListItems => seq!["list"@, "items"@],
            OperationSpec::GetItem { item_type, name } => seq!["get"@, item_type.canonical(), name],
        },
        Phase::Lock => seq!["lock"@],
        Phase::Logout => seq!["logout"@],
        Phase::Done => Seq::empty(),
    }
}

/// The command that the session waits for, if it waits for one. The session
/// token is handed to every command that comes after the unlock.
pub open spec fn command(state: SessionState) -> Option<CommandSpec> {
    if state.phase == Phase::Done || (state.phase == Phase::Unlock && state.master_password
        is None) {
        None
    } else {
        Some(
            CommandSpec {
                phase: state.phase,
                args: arguments(state),
                session_token: if state.phase == Phase::Login || state.phase == Phase::Unlock {
                    None
                } else {
                    state.token
                },
            },
        )
    }
}

/// What the visit came to, once it is over: the text fetched, or the first
/// thing that went wrong.
pub open spec fn outcome(state: SessionState) -> Option<Result<Seq<char>, VaultError>> {
    if state.phase == Phase::Done {
        state.errand
    } else {
        None
    }
}

/// The place of a phase in the order in which a visit passes through them.
pub open spec fn rank(phase: Phase) -> int {
    match phase {
        Phase::Login => 0,
        Phase::Unlock => 1,
        Phase::Operate => 2,
        Phase::Lock => 3,
        Phase::Logout => 4,
        Phase::Done => 5,
    }
}

/// The session after the commands it waited for ended as `events` say, one
/// after the other. Events that come after the visit is over change nothing.
pub open spec fn run(state: SessionState, events: Seq<Event>) -> SessionState
    decreases events.len(),
{
    if events.len() == 0 {
        state
    } else {
        run(step(state, events[0]), events.drop_first())
    }
}

/// The commands that were run to get those events, each named by its phase.
pub open spec fn issued(state: SessionState, events: Seq<Event>) -> Seq<Phase>
    decreases events.len(),
{
    if events.len() == 0 || state.phase == Phase::Done {
        Seq::empty()
    } else {
        seq![state.phase] + issued(step(state, events[0]), events.drop_first())
    }
}

/// Whether a run of commands ends with the cleanup and holds it nowhere
/// else: the last two are the lock and then the logout, and every command
/// before them belongs to the login, the unlock or the errand.
pub open spec fn cleaned_up(commands: Seq<Phase>) -> bool {
    &&& commands.len() >= 2
    &&& commands[commands.len() - 2] == Phase::Lock
    &&& commands[commands.len() - 1] == Phase::Logout
    &&& forall|i: int|
        0 <= i < commands.len() - 2 ==> rank(#[trigger] commands[i]) < rank(Phase::Lock)
}

/// Whether the commands come in the order of their phases, none twice.
pub open spec fn in_order(commands: Seq<Phase>) -> bool {
    forall|i: int, j: int|
        0 <= i < j < commands.len() ==> rank(#[trigger] commands[i]) < rank(
            #[trigger] commands[j],
        )
}

/// What holds of every session that `initial` and `step` can reach: the
/// errand has ended exactly when the session waits for the cleanup or for
/// nothing more, an unlock has its password and a fetch its token.
pub open spec fn coherent(state: SessionState) -> bool {
    &&& state.errand is Some <==> state.phase == Phase::Lock || state.phase == Phase::Logout
        || state.phase == Phase::Done
    &&& state.phase == Phase::Unlock ==> state.master_password is Some
    &&& state.phase == Phase::Operate ==> state.token is Some
}

/// A visit to the vault in progress.
pub struct VaultSession {
    operation: VaultOperation,
    master_password: Option<String>,
    phase: Phase,
    logged_in: bool,
    unlocked: bool,
    token: Option<String>,
    errand: Option<Result<String, VaultError>>,
}

impl View for VaultSession {
    type V = SessionState;

    closed spec fn view(&self) -> SessionState {
        SessionState {
            operation: self.operation@,
            master_password: optional_text(self.master_password),
            phase: self.phase,
            logged_in: self.logged_in,
            unlocked: self.unlocked,
            token: optional_text(self.token),
            errand: optional_outcome(self.errand),
        }
    }
}

/// The view of an optional command.
pub open spec fn optional_command(command: Option<VaultCommand>) -> Option<CommandSpec> {
    match command {
        Some(command) => Some(command@),
        None => None,
    }
}

/// The view of an optional outcome.
pub open spec fn optional_outcome(outcome: Option<Result<String, VaultError>>) -> Option<
    Result<Seq<char>, VaultError>,
> {
    match outcome {
        Some(Ok(text)) => Some(Ok(text@)),
        Some(Err(error)) => Some(Err(error)),
        None => None,
    }
}

/// The event that an output makes for a session in `state`. The text that a
/// successful unlock printed is searched for the session token; no other
/// output is, and its event carries no token.
pub open spec fn recorded(state: SessionState, output: ToolOutput) -> Event {
    Event {
        success: output.success,
        stdout: optional_text(output.stdout),
        token: match output.stdout {
            Some(text) => if state.phase == Phase::Unlock && output.success {
                session_token(text@)
            } else {
                Err(TokenFault::Missing)
            },
            None => Err(TokenFault::Missing),
        },
    }
}

/// The event that an outcome and a search for the token make together.
pub open spec fn event(success: bool, stdout: Option<String>, token: Result<String, TokenFault>) -> Event {
    Event {
        success,
        stdout: optional_text(stdout),
        token: match token {
            Ok(text) => Ok(text@),
            Err(fault) => Err(fault),
        },
    }
}

fn copy_of(text: &Option<String>) -> (copy: Option<String>)
    ensures
        optional_text(copy) == optional_text(*text),
{
    match text {
        Some(text) => Some(text.clone()),
        None => None,
    }
}

impl VaultSession {
    /// Opens a session for `operation` with what the environment holds.
    pub fn new(operation: VaultOperation, environment: VaultEnvironment) -> (session: VaultSession)
        ensures
            session@ == initial(
                operation@,
                environment.client_id is Some,
                environment.client_secret is Some,
                optional_text(environment.master_password),
            ),
            coherent(session@),
    {
        let has_client_id = environment.client_id.is_some();
        let has_client_secret = environment.client_secret.is_some();
        VaultSession {
            operation,
            master_password: environment.master_password,
            phase: if has_client_id && has_client_secret {
                Phase::Login
            } else {
                Phase::Done
            },
            logged_in: false,
            unlocked: false,
            token: None,
            errand: if !has_client_id {
                Some(Err(VaultError::Configuration(VaultSetting::ClientId)))
            } else if !has_client_secret {
                Some(Err(VaultError::Configuration(VaultSetting::ClientSecret)))
            } else {
                None
            },
        }
    }

    /// The command whose outcome the session waits for.
    pub fn phase(&self) -> (phase: Phase)
        ensures
            phase == self@.phase,
    {
        self.phase
    }

    /// Whether a login has succeeded and no logout has since.
    pub fn is_logged_in(&self) -> (flag: bool)
        ensures
            flag == self@.logged_in,
    {
        self.logged_in
    }

    /// Whether an unlock has succeeded and no lock has since.
    pub fn is_unlocked(&self) -> (flag: bool)
        ensures
            flag == self@.unlocked,
    {
        self.unlocked
    }

    /// Whether the visit is over.
    pub fn is_done(&self) -> (done: bool)
        ensures
            done == (self@.phase == Phase::Done),
    {
        match self.phase {
            Phase::Done => true,
            _ => false,
        }
    }

    /// The command to run next, or `None` when the visit is over.
    pub fn next_command(&self) -> (next: Option<VaultCommand>)
        ensures
            optional_command(next) == command(self@),
    {
        let mut args: Vec<String> = Vec::new();
        let mut session_token: Option<String> = None;
        match self.phase {
            Phase::Login => {
                args.push(String::from_str("login"));
                args.push(String::from_str("--apikey"));
            },
            Phase::Unlock => {
                args.push(String::from_str("unlock"));
                match &self.master_password {
                    Some(password) => {
                        args.push(password.clone());
                    },
                    None => {
                        return None;
                    },
                }
            },
            Phase::Operate => {
                match &self.operation {
                    VaultOperation::ListItems => {
                        args.push(String::from_str("list"));
                        args.push(String::from_str("items"));
                    },
                    VaultOperation::GetItem { item_type, name } => {
                        args.push(String::from_str("get"));
                        args.push(item_type.to_string());
                        args.push(name.clone());
                    },
                }
                session_token = copy_of(&self.token);
            },
            Phase::Lock => {
                args.push(String::from_str("lock"));
                session_token = copy_of(&self.token);
            },
            Phase::Logout => {
                args.push(String::from_str("logout"));
                session_token = copy_of(&self.token);
            },
            Phase::Done => {
                return None;
            },
        }
        let next = VaultCommand { phase: self.phase, args, session_token };
        assert(next@.args =~= command(self@)->0.args);
        Some(next)
    }

    /// Takes in how the awaited command ended, and what a search for the
    /// session token in its output came to.
    pub fn advance(&mut self, success: bool, stdout: Option<String>, token: Result<String, TokenFault>)
        ensures
            final(self)@ == step(old(self)@, event(success, stdout, token)),
            coherent(old(self)@) ==> coherent(final(self)@),
    {
        match self.phase {
            Phase::Login => {
                if !success {
                    self.fail(VaultError::ExternalTool(ToolFault::LoginRefused));
                } else {
                    self.logged_in = true;
                    if self.master_password.is_none() {
                        self.fail(VaultError::Configuration(VaultSetting::MasterPassword));
                    } else {
                        self.phase = Phase::Unlock;
                    }
                }
            },
            Phase::Unlock => {
                if !success {
                    self.fail(VaultError::ExternalTool(ToolFault::UnlockRefused));
                } else if stdout.is_none() {
                    self.fail(VaultError::ExternalTool(ToolFault::OutputUnreadable));
                } else {
                    match token {
                        Ok(text) => {
                            self.phase = Phase::Operate;
                            self.unlocked = true;
                            self.token = Some(text);
                        },
                        Err(TokenFault::Missing) => {
                            self.fail(VaultError::ExternalTool(ToolFault::SessionKeyMissing));
                        },
                        Err(TokenFault::PatternRejected) => {
                            self.fail(VaultError::ExternalTool(ToolFault::PatternRejected));
                        },
                    }
                }
            },
            Phase::Operate => {
                if !success {
                    let fault = match &self.operation {
                        VaultOperation::ListItems => ToolFault::ListRefused,
                        VaultOperation::GetItem { .. } => ToolFault::GetRefused,
                    };
                    self.fail(VaultError::ExternalTool(fault));
                } else {
                    match stdout {
                        Some(text) => {
                            self.phase = Phase::Lock;
                            self.errand = Some(Ok(text));
                        },
                        None => {
                            self.fail(VaultError::ExternalTool(ToolFault::OutputUnreadable));
                        },
                    }
                }
            },
            Phase::Lock => {
                self.phase = Phase::Logout;
                if success {
                    self.unlocked = false;
                } else {
                    self.cleanup_failed(ToolFault::LockRefused);
                }
            },
            Phase::Logout => {
                self.phase = Phase::Done;
                if success {
                    self.logged_in = false;
                } else {
                    self.cleanup_failed(ToolFault::LogoutRefused);
                }
            },
            Phase::Done => {},
        }
    }

    fn fail(&mut self, error: VaultError)
        ensures
            final(self)@ == failing(old(self)@, error),
    {
        self.phase = Phase::Lock;
        self.errand = Some(Err(error));
    }

    fn cleanup_failed(&mut self, fault: ToolFault)
        ensures
            final(self)@ == (SessionState {
                errand: after_cleanup(old(self)@.errand, false, fault),
                ..old(self)@
            }),
    {
        let succeeded = match &self.errand {
            Some(Ok(_)) => true,
            _ => false,
        };
        if succeeded {
            self.errand = Some(Err(VaultError::ExternalTool(fault)));
        }
    }

    /// Takes in how the awaited command ended. The output of a successful
    /// unlock is searched for the session token; no other output is.
    pub fn record(&mut self, output: ToolOutput)
        ensures
            final(self)@ == step(old(self)@, recorded(old(self)@, output)),
            coherent(old(self)@) ==> coherent(final(self)@),
    {
        let unlocking = match self.phase {
            Phase::Unlock => output.success,
            _ => false,
        };
        let token = match &output.stdout {
            Some(text) => if unlocking {
                extract_session_token(text.as_str())
            } else {
                Err(TokenFault::Missing)
            },
            None => Err(TokenFault::Missing),
        };
        assert(event(output.success, output.stdout, token) == recorded(self@, output));
        self.advance(output.success, output.stdout, token);
    }

    /// What the visit came to: `None` while it is under way, then the text
    /// fetched or the first thing that went wrong.
    pub fn outcome(&self) -> (result: Option<Result<String, VaultError>>)
        ensures
            optional_outcome(result) == outcome(self@),
    {
        match self.phase {
            Phase::Done => match &self.errand {
                Some(Ok(text)) => Some(Ok(text.clone())),
                Some(Err(error)) => Some(Err(*error)),
                None => None,
            },
            _ => None,
        }
    }
}

} // verus!
