use vstd::prelude::*;
use crate::broadcast::{BroadcastError, DeliveryReport, Payload};

verus! {

/// What the per-connection read loop just observed on the transport.
pub enum InboundEvent {
    /// A text frame, carrying the client's message.
    Text(String),
    /// A frame of any other kind (binary, ping, ...).
    NonText,
    /// The stream ended, or reading it failed.
    StreamEnd,
}

/// What the read loop is to do about it.
pub enum InboundAction {
    /// Hand the payload to the broadcast engine, to reach every connection —
    /// the sender included: a client hears its own text echoed back.
    Rebroadcast(Payload),
    /// Drop the frame; non-text frames are not forwarded.
    Ignore,
    /// Tear this one connection down: unregister it and let both loops end.
    Teardown,
}

/// The read loop's whole decision, one event at a time: text is rebroadcast
/// verbatim, every other frame is ignored, and end-of-stream or a read error
/// starts teardown of this connection only.
pub fn on_inbound_event(ev: InboundEvent) -> (a: InboundAction)
    ensures
        ev matches InboundEvent::Text(s) ==> (a matches InboundAction::Rebroadcast(p)
            && p.is_text() && p.text() == s@),
        ev is NonText ==> a is Ignore,
        ev is StreamEnd ==> a is Teardown,
{
    match ev {
        InboundEvent::Text(s) => InboundAction::Rebroadcast(Payload::Text(s)),
        InboundEvent::NonText => InboundAction::Ignore,
        InboundEvent::StreamEnd => InboundAction::Teardown,
    }
}

/// The webhook's HTTP status code and body for a broadcast outcome: plain
/// success once the fan-out has been attempted, an internal-error reply when
/// the payload could not even be encoded.
pub fn webhook_reply(outcome: &Result<DeliveryReport, BroadcastError>) -> (r: (u16, &'static str))
    ensures
        outcome is Ok ==> r.0 == 200 && r.1@ == "Message broadcasted"@,
        outcome is Err ==> r.0 == 500 && r.1@ == "Error broadcasting message"@,
{
    match outcome {
        Ok(_) => (200, "Message broadcasted"),
        Err(_) => (500, "Error broadcasting message"),
    }
}

} // verus!
