use sgnode::framing::{add_message_type, parse_message_type, MessageType};
use sgnode::node::{AfterApply, NodeCore, ProposalVerdict, RequestStep, Verification};
use sgnode::pending_txn::{
    ChannelTransactionProposal, ChannelTransactionSigs, PendingTransaction, TransactionOutput,
};
use sgnode::processor::Outcome;
use sgnode::error::ErrorCode;
use sgnode::protocol::{ChannelTransactionRequest, ChannelTransactionResponse, NextHop, TxnOperator};
use sgnode::routing::plan_htlc_payment;
use std::collections::HashMap;

const A: u64 = 0xA;
const B: u64 = 0xB;
const C: u64 = 0xC;

fn id_body(id: u64) -> Vec<u8> {
    id.to_be_bytes().to_vec()
}

fn id_of(body: &[u8]) -> u64 {
    let mut b = [0u8; 8];
    b.copy_from_slice(body);
    u64::from_be_bytes(b)
}

/// Stand-in for the wallet: a fresh request always needs an approval and
/// an approval yields a response with the same id.
fn approve(req: &ChannelTransactionRequest) -> ChannelTransactionResponse {
    ChannelTransactionResponse { request_id: req.request_id, signed: vec![0xAA] }
}

/// The receiving side: verify, approve automatically, apply successfully.
fn receive(core: &NodeCore<&'static str>, peer: u64, req: &ChannelTransactionRequest, hops: &Vec<NextHop>) -> (ChannelTransactionResponse, AfterApply) {
    let resp = match core.on_verified(req.request_id, Verification::NeedsApproval) {
        RequestStep::Approve => approve(req),
        other => panic!("expected an approval, got {:?}", other),
    };
    (resp, core.after_apply(peer, req, hops, Ok(())))
}

#[test]
fn scenario_open_channel() {
    let mut a: NodeCore<&'static str> = NodeCore::new(A, false);
    let b: NodeCore<&'static str> = NodeCore::new(B, true);
    a.check_open_channel(100, 50, true).unwrap();
    let req = ChannelTransactionRequest { request_id: 1, operator: TxnOperator::Open, signed: vec![] };
    assert_eq!(a.register_request(1, "open caller").ok().unwrap(), Some(20000));
    let wire = add_message_type(id_body(1), MessageType::ChannelTransactionRequest);

    let (t, body) = parse_message_type(&wire).unwrap();
    assert_eq!(t, MessageType::ChannelTransactionRequest);
    assert_eq!(id_of(&body), 1);
    let (resp, after) = receive(&b, A, &req, &vec![]);
    assert!(matches!(after, AfterApply::Continue { settle: None, forward: None }));

    let wire = add_message_type(id_body(resp.request_id), MessageType::ChannelTransactionResponse);
    let (t, body) = parse_message_type(&wire).unwrap();
    assert_eq!(t, MessageType::ChannelTransactionResponse);
    let d = a.on_response_applied(id_of(&body), 1).unwrap();
    assert_eq!(d.waiter, "open caller");
    assert!(matches!(d.outcome, Outcome::Success(1)));
    // The timer that fires afterwards finds nothing.
    assert!(a.on_timeout(1).is_none());
}

#[test]
fn scenario_three_hop_htlc() {
    let mut a: NodeCore<&'static str> = NodeCore::new(A, true);
    let mut b: NodeCore<&'static str> = NodeCore::new(B, true);
    let mut c: NodeCore<&'static str> = NodeCore::new(C, true);
    let amt = 40;
    let invoice = c.add_invoice(amt, b"open sesame".to_vec());
    assert_eq!(invoice.receiver, C);

    // A plans along [A, B, C] and sends to B with one hop left.
    let plan = plan_htlc_payment(Some(vec![A, B, C]), A, amt).unwrap();
    assert_eq!(plan.receiver, B);
    assert_eq!(plan.hops, vec![NextHop { remote_addr: C, amount: amt }]);
    let req1 = ChannelTransactionRequest {
        request_id: 10,
        operator: TxnOperator::HtlcTransfer { hash_lock: invoice.r_hash.clone(), amount: amt, timeout: 500 },
        signed: vec![],
    };
    a.register_request(10, "payer").ok().unwrap();

    // B applies and relays to C with no hops left.
    let (resp1, after) = receive(&b, A, &req1, &plan.hops);
    let fwd = match after {
        AfterApply::Continue { settle: None, forward: Some(f) } => f,
        other => panic!("unexpected {:?}", other),
    };
    assert_eq!(fwd.to, C);
    assert_eq!(fwd.amount, amt);
    assert_eq!(fwd.hash_lock, invoice.r_hash);
    assert_eq!(fwd.timeout, 500);
    assert!(fwd.hops.is_empty());
    let req2 = ChannelTransactionRequest {
        request_id: 20,
        operator: TxnOperator::HtlcTransfer { hash_lock: fwd.hash_lock.clone(), amount: fwd.amount, timeout: fwd.timeout },
        signed: vec![],
    };
    b.forward_sent(A, fwd.hash_lock.clone(), 20, "relay").ok().unwrap();

    // A gets B's response to the first step.
    let d = a.on_response_applied(resp1.request_id, 1).unwrap();
    assert_eq!(d.waiter, "payer");

    // C holds the invoice: it settles with B at once.
    let (resp2, after) = receive(&c, B, &req2, &fwd.hops);
    let settle = match after {
        AfterApply::Continue { settle: Some(s), forward: None } => s,
        other => panic!("unexpected {:?}", other),
    };
    assert_eq!(settle.to, B);
    assert_eq!(settle.preimage, b"open sesame".to_vec());
    assert_eq!(b.on_response_applied(resp2.request_id, 1).unwrap().waiter, "relay");
    let req3 = ChannelTransactionRequest {
        request_id: 30,
        operator: TxnOperator::HtlcReceive { preimage: settle.preimage.clone() },
        signed: vec![],
    };
    c.register_request(30, "collect").ok().unwrap();

    // B applies the settlement and passes it back to A.
    let (resp3, after) = receive(&b, C, &req3, &vec![]);
    let back = match after {
        AfterApply::Continue { settle: Some(s), forward: None } => s,
        other => panic!("unexpected {:?}", other),
    };
    assert_eq!(back.to, A);
    assert_eq!(back.preimage, b"open sesame".to_vec());
    assert_eq!(c.on_response_applied(resp3.request_id, 2).unwrap().waiter, "collect");
    let req4 = ChannelTransactionRequest {
        request_id: 40,
        operator: TxnOperator::HtlcReceive { preimage: back.preimage.clone() },
        signed: vec![],
    };
    b.register_request(40, "pass back").ok().unwrap();

    // A is the original payer: nothing further to relay.
    let (resp4, after) = receive(&a, B, &req4, &vec![]);
    assert!(matches!(after, AfterApply::Continue { settle: None, forward: None }));
    assert_eq!(b.on_response_applied(resp4.request_id, 2).unwrap().waiter, "pass back");
    assert!(!a.is_pending(10));
    assert!(!b.is_pending(20));
}

#[test]
fn scenario_timeout_then_late_response() {
    let mut a: NodeCore<&'static str> = NodeCore::new(A, false);
    let timer = a.register_request(5, "caller").ok().unwrap();
    assert_eq!(timer, Some(20000));
    let d = a.on_timeout(5).unwrap();
    assert_eq!(d.waiter, "caller");
    assert!(matches!(d.outcome, Outcome::TimedOut));
    assert!(a.on_response_applied(5, 3).is_none());
    assert!(a.on_timeout(5).is_none());
}

#[test]
fn scenario_reject_proposal() {
    let b: NodeCore<&'static str> = NodeCore::new(B, false);
    let req = ChannelTransactionRequest { request_id: 7, operator: TxnOperator::Transfer, signed: vec![] };
    assert!(matches!(b.on_verified(req.request_id, Verification::NeedsApproval), RequestStep::AwaitUser));
    let mut pending = PendingTransaction::WaitForSig {
        proposal: ChannelTransactionProposal { request_id: 7, proposer: A, channel_txn: vec![] },
        output: TransactionOutput { write_set: vec![], gas_used: 0 },
        signatures: HashMap::new(),
    };
    pending.add_signature(ChannelTransactionSigs { address: A, signature: vec![1] });
    assert!(!pending.try_fullfill(&[A, B]));
    match b.on_proposal_decided(7, ProposalVerdict::Rejected) {
        RequestStep::Reply(m) => {
            assert_eq!(m.request_id, 7);
            assert_eq!(m.error.code, ErrorCode::Reject);
            let wire = add_message_type(id_body(m.request_id), MessageType::ErrorMessage);
            assert_eq!(parse_message_type(&wire).unwrap().0, MessageType::ErrorMessage);
        }
        other => panic!("unexpected {:?}", other),
    }
    assert!(!pending.fullfilled());
    drop(pending);
}
