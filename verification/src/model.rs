//! Data carried between the gateway, the handler and the HTTP callback.
//!
//! Every field is a plain value: the surrounding process translates the
//! platform's wire types into these records before the library sees them,
//! and back when it performs the chosen action.

use vstd::prelude::*;

verus! {

/// One inbound interaction, as delivered by the gateway.
///
/// Only the application-command variant is ever answered; the liveness
/// probe and every unknown kind are acknowledged silently.
pub enum Interaction {
    /// A liveness probe from the platform (distinct from the bot's own
    /// "ping" command). Never answered over HTTP.
    Ping,
    /// A slash-command invocation together with its callback address.
    ApplicationCommand(CommandInvocation),
    /// Any interaction kind the bot does not know.
    Other,
}

/// The parts of a slash-command invocation that the handler reads.
pub struct CommandInvocation {
    /// Identifier of the interaction; half of the callback address.
    pub id: u64,
    /// Short-lived credential bound to this interaction; the other half
    /// of the callback address.
    pub token: String,
    /// Name of the invoked command.
    pub name: String,
}

/// One inbound gateway event. The gateway is subscribed to interaction
/// creation only, but the stream type still admits other categories, and
/// the dispatcher must ignore them.
pub enum GatewayEvent {
    /// An interaction was created and awaits handling.
    InteractionCreate(Interaction),
    /// Any other event category: dropped without action.
    Other,
}

/// A rich embed attached to a reply. The bot sends none; the field exists
/// so the payload record is complete and provably empty.
pub struct Embed {
    pub title: String,
    pub description: String,
}

/// An allowed-mentions policy restricting whom a reply may ping. The bot
/// never sets one.
pub struct AllowedMentions {
    pub user_ids: Vec<u64>,
    pub role_ids: Vec<u64>,
}

/// The body of a reply message.
pub struct CallbackData {
    /// Mention policy; absent means the platform default.
    pub allowed_mentions: Option<AllowedMentions>,
    /// Text content of the reply.
    pub content: Option<String>,
    /// Rich embeds; always empty for this bot.
    pub embeds: Vec<Embed>,
    /// Message-flag bitmask; absent means no flags.
    pub flags: Option<u64>,
    /// Text-to-speech marker; absent means off.
    pub tts: Option<bool>,
}

/// The response payload sent through the interaction callback, tagged by
/// its kind.
pub enum InteractionResponse {
    /// An immediate channel message shown with its source command.
    ChannelMessageWithSource(CallbackData),
}

/// One fully addressed outbound callback: which interaction it answers
/// and with what payload. This is the single side effect the handler may
/// request.
pub struct CallbackRequest {
    /// Identifier of the interaction being answered.
    pub interaction_id: u64,
    /// The interaction's callback token.
    pub interaction_token: String,
    /// The payload to deliver.
    pub response: InteractionResponse,
}

/// A slash-command declaration, sent once at startup as part of the bulk
/// replacement of the application's global command set.
pub struct CommandDef {
    /// Command name as invoked by users.
    pub name: String,
    /// Human-readable description shown by the platform.
    pub description: String,
    /// Declared options; this bot's one command takes none.
    pub options: Vec<String>,
}

/// Why a callback delivery failed, as reported by the surrounding
/// process. Every variant is absorbed at the dispatcher boundary.
#[derive(Clone, Copy, Debug)]
pub enum CallbackError {
    /// The HTTP request did not complete.
    Network,
    /// The platform rejected the interaction token as expired or invalid.
    ExpiredToken,
    /// The platform rejected the payload itself.
    MalformedPayload,
}

} // verus!
