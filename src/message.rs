//! Messages of the peer transport: acknowledgements and payloads.
use vstd::prelude::*;
use crate::protocol::Address;

verus! {

#[derive(Debug, PartialEq, Eq, Clone)]
pub struct PayloadMsg {
    pub id: u128,
    pub data: Vec<u8>,
}

#[derive(Debug, PartialEq, Eq, Clone)]
pub enum Message {
    ACK(u128),
    Payload(PayloadMsg),
}

/// A message to or from the peer `peer_id`.
#[derive(Debug, Clone)]
pub struct NetworkMessage {
    pub peer_id: Address,
    pub msg: Message,
}

/// Relies on std::time::SystemTime::now: the milliseconds since the Unix
/// epoch; nothing is promised of the value.
#[verifier::external_body]
fn unix_ts() -> (r: u128) {
    match std::time::SystemTime::now().duration_since(std::time::UNIX_EPOCH) {
        Ok(d) => d.as_millis(),
        Err(_) => 0,
    }
}

impl Message {
    /// Acknowledges the message `message_id`.
    pub fn new_ack(message_id: u128) -> (r: Message)
        ensures
            r == Message::ACK(message_id),
    {
        Message::ACK(message_id)
    }

    /// A payload whose id is the current time; the id is returned too.
    pub fn new_payload(data: Vec<u8>) -> (r: (Message, u128))
        ensures
            r.0 == Message::Payload(PayloadMsg { id: r.1, data }),
    {
        let message_id = unix_ts();
        (Message::Payload(PayloadMsg { id: message_id, data }), message_id)
    }

    /// A payload with id zero.
    pub fn new_message(data: Vec<u8>) -> (r: Message)
        ensures
            r == Message::Payload(PayloadMsg { id: 0, data }),
    {
        Message::Payload(PayloadMsg { id: 0, data })
    }
}

} // verus!
