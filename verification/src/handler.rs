//! Classification of inbound events and construction of the one reply
//! this bot ever sends.
//!
//! `handle_event` and `handle_slash` decide, for one inbound event,
//! whether a callback is owed and with what payload; they perform no I/O
//! themselves. `settle_delivery` is the dispatcher boundary: it absorbs
//! a failed delivery so the event loop never stops because of one event.

use vstd::prelude::*;

use crate::model::CallbackData;
use crate::model::CallbackError;
use crate::model::CallbackRequest;
use crate::model::CommandInvocation;
use crate::model::GatewayEvent;
use crate::model::Interaction;
use crate::model::InteractionResponse;

verus! {

/// The payload of the one reply the bot sends: a plain "Pong!" message
/// with no embeds, no flags, no text-to-speech and no custom mention
/// policy.
pub open spec fn is_pong_payload(d: CallbackData) -> bool {
    &&& d.allowed_mentions is None
    &&& d.content matches Some(c) && c@ == "Pong!"@
    &&& d.embeds@.len() == 0
    &&& d.flags is None
    &&& d.tts is None
}

/// The full response payload: message-with-source kind carrying the pong
/// payload.
pub open spec fn is_pong_response(r: InteractionResponse) -> bool {
    match r {
        InteractionResponse::ChannelMessageWithSource(d) => is_pong_payload(d),
    }
}

/// `req` is the reply owed to the invocation `cmd`: addressed by the
/// interaction's id and token, carrying the pong response.
pub open spec fn answers(req: CallbackRequest, cmd: CommandInvocation) -> bool {
    &&& req.interaction_id == cmd.id
    &&& req.interaction_token@ == cmd.token@
    &&& is_pong_response(req.response)
}

/// What the handler must decide for one interaction: a liveness probe
/// and every unknown kind get no callback; an application command gets
/// the pong reply exactly when its name is "ping", and silence otherwise.
pub open spec fn slash_outcome(slash: Interaction, r: Option<CallbackRequest>) -> bool {
    match slash {
        Interaction::Ping => r is None,
        Interaction::ApplicationCommand(cmd) => {
            if cmd.name@ == "ping"@ {
                r matches Some(req) && answers(req, cmd)
            } else {
                r is None
            }
        },
        Interaction::Other => r is None,
    }
}

/// What the handler must decide for one gateway event: interactions are
/// handed to `slash_outcome`; every other event category is dropped.
pub open spec fn event_outcome(event: GatewayEvent, r: Option<CallbackRequest>) -> bool {
    match event {
        GatewayEvent::InteractionCreate(slash) => slash_outcome(slash, r),
        GatewayEvent::Other => r is None,
    }
}

/// Decides the reply for one interaction. Returns the one callback to
/// send, or `None` when the interaction earns no reply; the caller
/// performs the delivery.
pub fn handle_slash(slash: Interaction) -> (r: Option<CallbackRequest>)
    ensures
        slash_outcome(slash, r),
{
    let cmd = match slash {
        Interaction::Ping => {
            return None;
        },
        Interaction::ApplicationCommand(cmd) => cmd,
        Interaction::Other => {
            return None;
        },
    };
    let ping_name: String = "ping".to_owned();
    if cmd.name == ping_name {
        Some(
            CallbackRequest {
                interaction_id: cmd.id,
                interaction_token: cmd.token,
                response: InteractionResponse::ChannelMessageWithSource(
                    CallbackData {
                        allowed_mentions: None,
                        content: Some("Pong!".to_owned()),
                        embeds: Vec::new(),
                        flags: None,
                        tts: None,
                    },
                ),
            },
        )
    } else {
        None
    }
}

/// Decides the reply for one gateway event: only an interaction-created
/// event can earn a callback; every other category is a no-op.
pub fn handle_event(event: GatewayEvent) -> (r: Option<CallbackRequest>)
    ensures
        event_outcome(event, r),
{
    match event {
        GatewayEvent::InteractionCreate(slash) => handle_slash(slash),
        GatewayEvent::Other => None,
    }
}

/// The dispatcher's verdict on one finished event. Neither variant is a
/// failure: the event loop continues after both.
pub enum EventDisposition {
    /// The event was handled and any owed delivery succeeded.
    Completed,
    /// The delivery failed; the error is worth a warning in the log and
    /// nothing more.
    Warned(CallbackError),
}

/// The dispatcher boundary around one handler run: a failed callback
/// delivery is demoted to a warning and swallowed, never propagated, so
/// the process keeps consuming events.
pub fn settle_delivery(outcome: Result<(), CallbackError>) -> (r: EventDisposition)
    ensures
        outcome matches Ok(()) ==> r is Completed,
        outcome matches Err(e) ==> (r matches EventDisposition::Warned(w) && w == e),
{
    match outcome {
        Ok(()) => EventDisposition::Completed,
        Err(e) => EventDisposition::Warned(e),
    }
}

/// A liveness probe is acknowledged silently: the handler owes it no
/// callback at all.
pub proof fn lemma_liveness_probe_silent(slash: Interaction, r: Option<CallbackRequest>)
    requires
        slash is Ping,
        slash_outcome(slash, r),
    ensures
        r is None,
{
}

/// An application command named "ping" is answered with exactly one
/// callback, addressed by the interaction's id and token and carrying
/// the message-with-source "Pong!" payload.
pub proof fn lemma_ping_command_answered(cmd: CommandInvocation, r: Option<CallbackRequest>)
    requires
        cmd.name@ == "ping"@,
        slash_outcome(Interaction::ApplicationCommand(cmd), r),
    ensures
        r matches Some(req) && answers(req, cmd),
{
}

/// An application command with any name other than "ping" earns no
/// callback, and the silence is success, not an error.
pub proof fn lemma_unknown_command_silent(cmd: CommandInvocation, r: Option<CallbackRequest>)
    requires
        cmd.name@ != "ping"@,
        slash_outcome(Interaction::ApplicationCommand(cmd), r),
    ensures
        r is None,
{
}

/// A gateway event that is not an interaction is a no-op: no callback,
/// no error.
pub proof fn lemma_non_interaction_ignored(r: Option<CallbackRequest>)
    requires
        event_outcome(GatewayEvent::Other, r),
    ensures
        r is None,
{
}

} // verus!
