use pingbot::handler::handle_event;
use pingbot::handler::handle_slash;
use pingbot::handler::settle_delivery;
use pingbot::handler::EventDisposition;
use pingbot::model::CallbackError;
use pingbot::model::CallbackRequest;
use pingbot::model::CommandInvocation;
use pingbot::model::GatewayEvent;
use pingbot::model::Interaction;
use pingbot::model::InteractionResponse;

fn invocation(id: u64, token: &str, name: &str) -> CommandInvocation {
    CommandInvocation { id, token: token.to_owned(), name: name.to_owned() }
}

fn assert_pong(req: &CallbackRequest, id: u64, token: &str) {
    assert_eq!(req.interaction_id, id);
    assert_eq!(req.interaction_token, token);
    let InteractionResponse::ChannelMessageWithSource(data) = &req.response;
    assert_eq!(data.content.as_deref(), Some("Pong!"));
    assert!(data.embeds.is_empty());
    assert!(data.flags.is_none());
    assert!(data.allowed_mentions.is_none());
    assert!(data.tts.is_none());
}

#[test]
fn liveness_probe_sends_nothing() {
    let r = handle_slash(Interaction::Ping);
    assert!(r.is_none());
}

#[test]
fn unknown_interaction_kind_sends_nothing() {
    let r = handle_slash(Interaction::Other);
    assert!(r.is_none());
}

#[test]
fn ping_command_earns_one_pong_callback() {
    let slash = Interaction::ApplicationCommand(invocation(42, "tok-42", "ping"));
    let r = handle_slash(slash);
    let req = r.expect("a ping command must be answered");
    assert_pong(&req, 42, "tok-42");
}

#[test]
fn other_command_name_is_silent() {
    let slash = Interaction::ApplicationCommand(invocation(42, "tok-42", "pong"));
    assert!(handle_slash(slash).is_none());
}

#[test]
fn empty_command_name_is_silent() {
    let slash = Interaction::ApplicationCommand(invocation(42, "tok-42", ""));
    assert!(handle_slash(slash).is_none());
}

#[test]
fn name_match_is_exact_not_prefix() {
    let slash = Interaction::ApplicationCommand(invocation(1, "t", "pings"));
    assert!(handle_slash(slash).is_none());
    let slash = Interaction::ApplicationCommand(invocation(1, "t", "pin"));
    assert!(handle_slash(slash).is_none());
    let slash = Interaction::ApplicationCommand(invocation(1, "t", "Ping"));
    assert!(handle_slash(slash).is_none());
}

#[test]
fn non_interaction_event_is_a_no_op() {
    assert!(handle_event(GatewayEvent::Other).is_none());
}

#[test]
fn interaction_event_is_forwarded() {
    let event = GatewayEvent::InteractionCreate(
        Interaction::ApplicationCommand(invocation(9, "tok-9", "ping")),
    );
    let req = handle_event(event).expect("a ping command must be answered");
    assert_pong(&req, 9, "tok-9");
}

#[test]
fn delivery_success_completes_the_event() {
    let r = settle_delivery(Ok(()));
    assert!(matches!(r, EventDisposition::Completed));
}

#[test]
fn network_failure_is_absorbed_as_warning() {
    let r = settle_delivery(Err(CallbackError::Network));
    assert!(matches!(r, EventDisposition::Warned(CallbackError::Network)));
}

#[test]
fn expired_token_is_absorbed_as_warning() {
    let r = settle_delivery(Err(CallbackError::ExpiredToken));
    assert!(matches!(r, EventDisposition::Warned(CallbackError::ExpiredToken)));
}

#[test]
fn malformed_payload_is_absorbed_as_warning() {
    let r = settle_delivery(Err(CallbackError::MalformedPayload));
    assert!(matches!(r, EventDisposition::Warned(CallbackError::MalformedPayload)));
}

#[test]
fn failed_delivery_then_next_event_still_handled() {
    let r = settle_delivery(Err(CallbackError::Network));
    assert!(matches!(r, EventDisposition::Warned(_)));
    let event = GatewayEvent::InteractionCreate(
        Interaction::ApplicationCommand(invocation(5, "tok-5", "ping")),
    );
    let req = handle_event(event).expect("the loop keeps answering after a failure");
    assert_pong(&req, 5, "tok-5");
}
