//! Startup sequencing.
//!
//! Startup is a straight line with no retries: read the token, fetch the
//! current-user identity to learn the application id, bulk-replace the
//! global command set, open the gateway, then run the dispatcher. Any
//! failure aborts the process. The order is enforced here as a state
//! machine: the surrounding process performs each chosen action and
//! feeds the outcome back through `startup_step`.

use vstd::prelude::*;

use crate::model::CommandDef;

verus! {

/// Configuration resolved during startup and immutable afterwards: the
/// bot token and the application identity it resolved to.
pub struct StartupConfig {
    /// The bot authentication token, read from the process environment.
    pub token: String,
    /// The application id learned from the current-user fetch; later
    /// calls are addressed with it.
    pub application_id: u64,
}

/// Where startup stands. States advance only forward; `Failed` is
/// final.
pub enum StartupState {
    /// Nothing has happened yet: the token is being read from the
    /// environment.
    ReadingToken,
    /// The token is known; the current-user identity fetch is pending.
    FetchingIdentity { token: String },
    /// The identity resolved; the bulk command registration is pending.
    RegisteringCommands { config: StartupConfig },
    /// Commands are registered; the gateway handshake is pending.
    OpeningGateway { config: StartupConfig },
    /// Startup is complete; the dispatcher loop owns the process.
    Running { config: StartupConfig },
    /// A startup step failed, or an answer arrived out of order: the
    /// process must exit with a failure status.
    Failed,
}

/// The outcome of the last startup action, reported by the surrounding
/// process.
pub enum StartupEvent {
    /// The environment held a token.
    TokenRead(String),
    /// The environment variable was absent.
    TokenMissing,
    /// The current-user fetch succeeded and resolved this application id.
    IdentityFetched(u64),
    /// The current-user fetch failed.
    IdentityFailed,
    /// The bulk command registration succeeded.
    CommandsRegistered,
    /// The bulk command registration failed.
    RegistrationFailed,
    /// The gateway handshake succeeded.
    GatewayOpened,
    /// The gateway handshake failed.
    GatewayFailed,
}

/// What the surrounding process must do next.
pub enum StartupAction {
    /// Fetch the current user over HTTP to learn the application id.
    FetchIdentity,
    /// Bulk-replace the application's global command set with
    /// `bot_commands`.
    RegisterCommands,
    /// Open the gateway connection, subscribed to interaction creation
    /// only.
    OpenGateway,
    /// Enter the event-dispatch loop.
    RunDispatcher,
    /// Abort startup: exit the process with a failure status.
    Abort,
}

/// The startup transition relation. An event that does not answer the
/// pending step (which a correct driver never produces) aborts startup
/// rather than skipping a step.
pub open spec fn startup_next(s: StartupState, e: StartupEvent) -> (StartupState, StartupAction) {
    match (s, e) {
        (StartupState::ReadingToken, StartupEvent::TokenRead(token)) => (
            StartupState::FetchingIdentity { token },
            StartupAction::FetchIdentity,
        ),
        (StartupState::FetchingIdentity { token }, StartupEvent::IdentityFetched(id)) => (
            StartupState::RegisteringCommands {
                config: StartupConfig { token, application_id: id },
            },
            StartupAction::RegisterCommands,
        ),
        (StartupState::RegisteringCommands { config }, StartupEvent::CommandsRegistered) => (
            StartupState::OpeningGateway { config },
            StartupAction::OpenGateway,
        ),
        (StartupState::OpeningGateway { config }, StartupEvent::GatewayOpened) => (
            StartupState::Running { config },
            StartupAction::RunDispatcher,
        ),
        _ => (StartupState::Failed, StartupAction::Abort),
    }
}

/// Advances startup by one step: from the current state and the outcome
/// of the last action to the next state and the next action.
pub fn startup_step(state: StartupState, event: StartupEvent) -> (r: (StartupState, StartupAction))
    ensures
        r == startup_next(state, event),
{
    match (state, event) {
        (StartupState::ReadingToken, StartupEvent::TokenRead(token)) => (
            StartupState::FetchingIdentity { token },
            StartupAction::FetchIdentity,
        ),
        (StartupState::FetchingIdentity { token }, StartupEvent::IdentityFetched(id)) => (
            StartupState::RegisteringCommands {
                config: StartupConfig { token, application_id: id },
            },
            StartupAction::RegisterCommands,
        ),
        (StartupState::RegisteringCommands { config }, StartupEvent::CommandsRegistered) => (
            StartupState::OpeningGateway { config },
            StartupAction::OpenGateway,
        ),
        (StartupState::OpeningGateway { config }, StartupEvent::GatewayOpened) => (
            StartupState::Running { config },
            StartupAction::RunDispatcher,
        ),
        _ => (StartupState::Failed, StartupAction::Abort),
    }
}

/// The sequence of actions that startup chooses when driven from state
/// `s` by the outcomes in `events`, one action per event.
pub open spec fn startup_actions(s: StartupState, events: Seq<StartupEvent>) -> Seq<StartupAction>
    decreases events.len(),
{
    if events.len() == 0 {
        Seq::empty()
    } else {
        let step = startup_next(s, events[0]);
        seq![step.1] + startup_actions(step.0, events.drop_first())
    }
}

/// Command registration is attempted only as the immediate consequence
/// of a successful identity fetch: no other state and event choose it.
pub proof fn lemma_registration_follows_identity(s: StartupState, e: StartupEvent)
    ensures
        startup_next(s, e).1 is RegisterCommands ==> (s is FetchingIdentity
            && e is IdentityFetched),
{
}

/// A failed identity fetch aborts startup outright.
pub proof fn lemma_identity_failure_aborts(s: StartupState)
    requires
        s is FetchingIdentity,
    ensures
        startup_next(s, StartupEvent::IdentityFailed) == (
            StartupState::Failed,
            StartupAction::Abort,
        ),
{
}

/// Failure is final: once startup has failed, every further event keeps
/// it failed and asks the process to abort.
pub proof fn lemma_failed_is_final(e: StartupEvent)
    ensures
        startup_next(StartupState::Failed, e) == (StartupState::Failed, StartupAction::Abort),
{
}

/// Over a whole run: if the identity fetch never succeeded, command
/// registration is never attempted, from any starting state.
pub proof fn lemma_no_identity_no_registration(s: StartupState, events: Seq<StartupEvent>)
    requires
        forall|j: int| 0 <= j < events.len() ==> !(#[trigger] events[j] is IdentityFetched),
    ensures
        forall|i: int|
            0 <= i < startup_actions(s, events).len() ==> !(#[trigger] startup_actions(
                s,
                events,
            )[i] is RegisterCommands),
    decreases events.len(),
{
    if events.len() > 0 {
        let step = startup_next(s, events[0]);
        lemma_registration_follows_identity(s, events[0]);
        assert(forall|j: int|
            0 <= j < events.drop_first().len() ==> !(#[trigger] events.drop_first()[j] is IdentityFetched));
        lemma_no_identity_no_registration(step.0, events.drop_first());
        assert forall|i: int|
            0 <= i < startup_actions(s, events).len() implies !(#[trigger] startup_actions(
            s,
            events,
        )[i] is RegisterCommands) by {
            if i > 0 {
                assert(startup_actions(s, events)[i] == startup_actions(
                    step.0,
                    events.drop_first(),
                )[i - 1]);
            }
        }
    }
}

/// The bot's whole command surface: one command, named "ping", with a
/// short description and no options.
pub fn bot_commands() -> (cmds: Vec<CommandDef>)
    ensures
        cmds@.len() == 1,
        cmds@[0].name@ == "ping"@,
        cmds@[0].description@ == "Send a ping"@,
        cmds@[0].options@.len() == 0,
{
    let mut cmds: Vec<CommandDef> = Vec::new();
    cmds.push(
        CommandDef {
            name: "ping".to_owned(),
            description: "Send a ping".to_owned(),
            options: Vec::new(),
        },
    );
    cmds
}

} // verus!
