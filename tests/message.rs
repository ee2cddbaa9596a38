use sgnode::message::{Message, PayloadMsg};
use sgnode::service::NodeService;
use std::sync::Arc;

#[test]
fn ack_carries_its_id() {
    assert_eq!(Message::new_ack(17), Message::ACK(17));
}

#[test]
fn new_message_has_id_zero() {
    assert_eq!(
        Message::new_message(vec![1, 2]),
        Message::Payload(PayloadMsg { id: 0, data: vec![1, 2] })
    );
}

#[test]
fn new_payload_returns_its_id() {
    let (m, id) = Message::new_payload(vec![4]);
    assert!(id > 0);
    assert_eq!(m, Message::Payload(PayloadMsg { id, data: vec![4] }));
}

#[test]
fn service_holds_its_node() {
    let node = Arc::new(5u32);
    let s = NodeService::new(node.clone());
    assert!(Arc::ptr_eq(s.node(), &node));
}
