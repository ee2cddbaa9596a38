use sgnode::error::{ErrorCode, SgError};
use sgnode::node::{
    balance_query_key, balance_query_reply, check_connected, recovery_step, shutdown_sequence,
    AfterApply, LoopInput, LoopStep, NodeCore, ProposalVerdict, RecoveryStep, RequestStep,
    RunLoop, ShutdownStep, Verification, DEFAULT_FUTURE_TIMEOUT,
};
use sgnode::processor::Outcome;
use sgnode::protocol::{
    BalanceQueryRequest, BalanceQueryResponse, ChannelTransactionRequest,
    ChannelTransactionResponse, ErrorMessage, NextHop, TxnOperator,
};

fn response(id: u64) -> ChannelTransactionResponse {
    ChannelTransactionResponse { request_id: id, signed: vec![1] }
}

#[test]
fn verified_prepared_response_is_applied() {
    let core: NodeCore<u8> = NodeCore::new(1, false);
    match core.on_verified(3, Verification::Prepared(response(3))) {
        RequestStep::Apply(r) => assert_eq!(r.request_id, 3),
        other => panic!("unexpected {:?}", other),
    }
}

#[test]
fn approval_depends_on_auto_approve() {
    let manual: NodeCore<u8> = NodeCore::new(1, false);
    assert!(matches!(manual.on_verified(3, Verification::NeedsApproval), RequestStep::AwaitUser));
    let auto: NodeCore<u8> = NodeCore::new(1, true);
    assert!(matches!(auto.on_verified(3, Verification::NeedsApproval), RequestStep::Approve));
}

#[test]
fn failed_verification_is_reported_with_request_id() {
    let core: NodeCore<u8> = NodeCore::new(1, true);
    let e = SgError::new(ErrorCode::VerificationFailure, "bad".to_string());
    match core.on_verified(12, Verification::Failed(e)) {
        RequestStep::Reply(m) => {
            assert_eq!(m.request_id, 12);
            assert_eq!(m.error.code, ErrorCode::VerificationFailure);
        }
        other => panic!("unexpected {:?}", other),
    }
}

#[test]
fn failed_apply_is_reported_and_stops() {
    let mut core: NodeCore<u8> = NodeCore::new(1, true);
    let inv = core.add_invoice(10, b"p".to_vec());
    let req = ChannelTransactionRequest {
        request_id: 8,
        operator: TxnOperator::HtlcTransfer { hash_lock: inv.r_hash, amount: 10, timeout: 99 },
        signed: vec![],
    };
    let e = SgError::new(ErrorCode::ApplyFailure, "disk".to_string());
    match core.after_apply(2, &req, &vec![NextHop { remote_addr: 3, amount: 10 }], Err(e)) {
        AfterApply::Reply(m) => {
            assert_eq!(m.request_id, 8);
            assert_eq!(m.error.code, ErrorCode::ApplyFailure);
        }
        other => panic!("unexpected {:?}", other),
    }
}

#[test]
fn plain_transfer_has_no_follow_up() {
    let core: NodeCore<u8> = NodeCore::new(1, true);
    let req = ChannelTransactionRequest { request_id: 8, operator: TxnOperator::Transfer, signed: vec![] };
    match core.after_apply(2, &req, &vec![NextHop { remote_addr: 3, amount: 1 }], Ok(())) {
        AfterApply::Continue { settle, forward } => {
            assert!(settle.is_none());
            assert!(forward.is_none());
        }
        other => panic!("unexpected {:?}", other),
    }
}

#[test]
fn proposal_decisions() {
    let core: NodeCore<u8> = NodeCore::new(1, false);
    assert!(matches!(
        core.on_proposal_decided(4, ProposalVerdict::Approved(response(4))),
        RequestStep::Apply(_)
    ));
    match core.on_proposal_decided(4, ProposalVerdict::Rejected) {
        RequestStep::Reply(m) => {
            assert_eq!(m.request_id, 4);
            assert_eq!(m.error.code, ErrorCode::Reject);
        }
        other => panic!("unexpected {:?}", other),
    }
    let e = SgError::new(ErrorCode::Unknown, "gone".to_string());
    match core.on_proposal_decided(4, ProposalVerdict::WalletError(e)) {
        RequestStep::Reply(m) => assert_eq!(m.error.code, ErrorCode::Unknown),
        other => panic!("unexpected {:?}", other),
    }
}

#[test]
fn open_channel_checks() {
    let core: NodeCore<u8> = NodeCore::new(1, false);
    assert!(core.check_open_channel(100, 50, true).is_ok());
    assert_eq!(core.check_open_channel(100, 50, false).unwrap_err().code, ErrorCode::DisconnectedPeer);
    assert_eq!(core.check_open_channel(40, 50, true).unwrap_err().code, ErrorCode::InvalidArgument);
    assert_eq!(
        core.check_open_channel(20_000_000, 10_000_001, true).unwrap_err().code,
        ErrorCode::InvalidArgument
    );
    assert!(core.check_open_channel(20_000_000, 10_000_000, true).is_ok());
    assert!(check_connected(true).is_ok());
    assert_eq!(check_connected(false).unwrap_err().code, ErrorCode::DisconnectedPeer);
}

#[test]
fn timer_follows_timeout_setting() {
    let mut core: NodeCore<u8> = NodeCore::new(1, false);
    assert_eq!(core.timer(), Some(DEFAULT_FUTURE_TIMEOUT));
    assert_eq!(core.register_request(1, 1).ok().unwrap(), Some(20000));
    core.set_timeout(0);
    assert_eq!(core.timer(), None);
    assert_eq!(core.register_request(2, 2).ok().unwrap(), None);
    core.set_timeout(5);
    assert_eq!(core.register_request(1, 3).err().unwrap().waiter, 3);
}

#[test]
fn error_message_fails_the_waiter() {
    let mut core: NodeCore<&str> = NodeCore::new(1, false);
    core.register_request(9, "w").ok().unwrap();
    let msg = ErrorMessage { request_id: 9, error: SgError::new(ErrorCode::Reject, "r".to_string()) };
    let d = core.on_error_message(msg).unwrap();
    assert_eq!(d.waiter, "w");
    assert!(matches!(d.outcome, Outcome::Failure(ref e) if e.code == ErrorCode::Reject));
    assert!(!core.is_pending(9));
    let late = ErrorMessage { request_id: 9, error: SgError::new(ErrorCode::Reject, "r".to_string()) };
    assert!(core.on_error_message(late).is_none());
}

#[test]
fn balance_query_round() {
    let mut core: NodeCore<&str> = NodeCore::new(1, false);
    let (req, timer) = core.register_balance_query(1, 2, "q").ok().unwrap();
    assert_eq!(req, BalanceQueryRequest { local_addr: 1, remote_addr: 2 });
    assert_eq!(timer, Some(20000));
    assert!(core.register_balance_query(1, 3, "again").is_err());
    let reply = balance_query_reply(req);
    assert_eq!(reply, BalanceQueryResponse { local_addr: 1, remote_addr: 2, local_balance: 0, remote_balance: 0 });
    let d = core.on_balance_response(reply).unwrap();
    assert_eq!(d.waiter, "q");
    assert!(core.on_balance_response(reply).is_none());
    assert!(core.on_balance_timeout(balance_query_key(1)).is_none());
}

#[test]
fn balance_key_is_hash_of_address() {
    let a: u64 = 0x0102030405060708;
    let d = tiny_keccak::sha3_256(&a.to_be_bytes());
    let mut first = [0u8; 8];
    first.copy_from_slice(&d[0..8]);
    assert_eq!(balance_query_key(a), u64::from_be_bytes(first));
    assert_ne!(balance_query_key(a), a);
    assert_ne!(balance_query_key(1), balance_query_key(2));
}

#[test]
fn balance_query_times_out() {
    let mut core: NodeCore<&str> = NodeCore::new(1, false);
    core.register_balance_query(7, 2, "q").ok().unwrap();
    let d = core.on_balance_timeout(balance_query_key(7)).unwrap();
    assert!(matches!(d.outcome, Outcome::TimedOut));
}

#[test]
fn recovery_steps() {
    assert_eq!(recovery_step(true, true), RecoveryStep::Resend);
    assert_eq!(recovery_step(true, false), RecoveryStep::SkipOffline);
    assert_eq!(recovery_step(false, true), RecoveryStep::NothingPending);
    assert_eq!(recovery_step(false, false), RecoveryStep::NothingPending);
}

#[test]
fn run_loop_stops_on_shutdown() {
    let mut l = RunLoop::new();
    assert!(matches!(l.next_step::<u8, u8>(LoopInput::Network(1)), LoopStep::HandleNetwork(1)));
    assert!(matches!(l.next_step::<u8, u8>(LoopInput::Command(2)), LoopStep::HandleCommand(2)));
    assert!(matches!(l.next_step::<u8, u8>(LoopInput::Shutdown), LoopStep::Stop));
    assert!(matches!(l.next_step::<u8, u8>(LoopInput::Network(3)), LoopStep::Closed));
    assert!(matches!(l.next_step::<u8, u8>(LoopInput::Shutdown), LoopStep::Closed));
    assert_eq!(
        shutdown_sequence(),
        vec![ShutdownStep::CloseTransport, ShutdownStep::StopWallet, ShutdownStep::ShutdownRouter]
    );
}
