//! The node's dispatch rules. Each inbound message, local command and wallet
//! answer is handed to one of these functions, which update the correlation
//! tables and invoices and say what to do next; the caller performs it.
use vstd::prelude::*;
use crate::digest::{sha3_256, sha3_256_of};
use crate::error::{ErrorCode, SgError};
use crate::invoice::{Invoice, InvoiceManager};
use crate::processor::{AlreadyPending, Delivery, MessageProcessor};
use crate::protocol::{
    copy_bytes, Address, BalanceQueryRequest, BalanceQueryResponse, ChannelTransactionRequest,
    ChannelTransactionResponse, ErrorMessage, NextHop, TxnOperator,
};

verus! {

/// Milliseconds a registration waits for its answer unless set otherwise.
pub const DEFAULT_FUTURE_TIMEOUT: u64 = 20000;

/// Largest amount a counterparty may be asked to put into a new channel.
pub const DEFAULT_MAX_DEPOSIT: u64 = 10000000;

/// What the wallet said of an inbound channel-transaction request.
#[derive(Debug)]
pub enum Verification {
    /// The request was seen before and this response was prepared for it.
    Prepared(ChannelTransactionResponse),
    /// The request is valid and waits for an approval.
    NeedsApproval,
    /// The request does not verify against the channel state.
    Failed(SgError),
}

/// What to do with an inbound request, or with a local decision on one.
#[derive(Debug)]
pub enum RequestStep {
    /// Send this response to the peer, then have the wallet apply it.
    Apply(ChannelTransactionResponse),
    /// Have the wallet approve the request, then send and apply its response.
    Approve,
    /// Leave the request pending until the local user decides.
    AwaitUser,
    /// Report this failure to the peer and stop.
    Reply(ErrorMessage),
}

/// The local user's decision on a waiting proposal, as the wallet carried it out.
#[derive(Debug)]
pub enum ProposalVerdict {
    /// Approved; the wallet produced this response.
    Approved(ChannelTransactionResponse),
    /// Rejected; the wallet discarded the proposal.
    Rejected,
    /// The wallet failed to carry out the decision.
    WalletError(SgError),
}

/// Settle a conditional payment with the peer `to` by revealing `preimage`.
#[derive(Debug)]
pub struct Settle {
    pub to: Address,
    pub preimage: Vec<u8>,
}

/// Relay a conditional payment: send `amount` to `to` under the same hash
/// lock and timeout, with `hops` left for the relays after it.
#[derive(Debug)]
pub struct Forward {
    pub to: Address,
    pub amount: u64,
    pub hash_lock: Vec<u8>,
    pub timeout: u64,
    pub hops: Vec<NextHop>,
}

/// What follows the wallet's attempt to apply a response.
#[derive(Debug)]
pub enum AfterApply {
    /// The apply failed: report this to the peer; nothing counts as committed.
    Reply(ErrorMessage),
    /// The transaction is committed; settle and relay as given.
    Continue { settle: Option<Settle>, forward: Option<Forward> },
}

/// What startup recovery does for one channel.
#[derive(Clone, Copy, Debug, PartialEq, Eq, Structural)]
pub enum RecoveryStep {
    /// Send the pending request to the peer again.
    Resend,
    /// The peer is offline: skip it.
    SkipOffline,
    /// Nothing is pending with this peer.
    NothingPending,
}

/// What the node does on shutdown, in this order.
#[derive(Clone, Copy, Debug, PartialEq, Eq, Structural)]
pub enum ShutdownStep {
    CloseTransport,
    StopWallet,
    ShutdownRouter,
}

/// The error report sent to a peer about the request `request_id`.
pub fn error_message(e: SgError, request_id: u64) -> (r: ErrorMessage)
    ensures
        r.request_id == request_id,
        r.error == e,
{
    ErrorMessage { request_id, error: e }
}

/// The error for a peer that is not connected.
pub fn check_connected(connected: bool) -> (r: Result<(), SgError>)
    ensures
        r is Ok <==> connected,
        r is Err ==> r->Err_0.code == ErrorCode::DisconnectedPeer,
{
    if connected {
        Ok(())
    } else {
        Err(SgError::new(ErrorCode::DisconnectedPeer, "could not connect to receiver".to_owned()))
    }
}

/// The answer to a peer's balance query.
pub fn balance_query_reply(req: BalanceQueryRequest) -> (r: BalanceQueryResponse)
    ensures
        r == (BalanceQueryResponse {
            local_addr: req.local_addr,
            remote_addr: req.remote_addr,
            local_balance: 0,
            remote_balance: 0,
        }),
{
    BalanceQueryResponse::new(req.local_addr, req.remote_addr, 0, 0)
}

/// Startup recovery for one channel: a pending request is sent again when
/// its peer is reachable and skipped otherwise.
pub fn recovery_step(has_pending: bool, connected: bool) -> (r: RecoveryStep)
    ensures
        r == (if !has_pending {
            RecoveryStep::NothingPending
        } else if connected {
            RecoveryStep::Resend
        } else {
            RecoveryStep::SkipOffline
        }),
{
    if !has_pending {
        RecoveryStep::NothingPending
    } else if connected {
        RecoveryStep::Resend
    } else {
        RecoveryStep::SkipOffline
    }
}

/// Stop accepting input, close the transport, stop the wallet, shut the
/// router down.
pub fn shutdown_sequence() -> (r: Vec<ShutdownStep>)
    ensures
        r@ == seq![ShutdownStep::CloseTransport, ShutdownStep::StopWallet, ShutdownStep::ShutdownRouter],
{
    let mut r: Vec<ShutdownStep> = Vec::new();
    r.push(ShutdownStep::CloseTransport);
    r.push(ShutdownStep::StopWallet);
    r.push(ShutdownStep::ShutdownRouter);
    r
}

/// The relay step of a committed conditional payment with hops left: the
/// first hop, the hash lock, the timeout and the hops after the first.
pub open spec fn forwarding(op: TxnOperator, hops: Seq<NextHop>) -> Option<
    (NextHop, Seq<u8>, u64, Seq<NextHop>),
> {
    match op {
        TxnOperator::HtlcTransfer { hash_lock, timeout, .. } => if hops.len() > 0 {
            Some((hops[0], hash_lock@, timeout, hops.drop_first()))
        } else {
            None
        },
        _ => None,
    }
}

/// An address as eight bytes, most significant first.
pub open spec fn address_bytes(a: Address) -> Seq<u8> {
    seq![
        (a >> 56u64) as u8,
        (a >> 48u64) as u8,
        (a >> 40u64) as u8,
        (a >> 32u64) as u8,
        (a >> 24u64) as u8,
        (a >> 16u64) as u8,
        (a >> 8u64) as u8,
        a as u8,
    ]
}

/// The first eight bytes of a digest read as a big-endian number.
pub open spec fn digest_key(d: Seq<u8>) -> u64 {
    (d[0] as u64) << 56u64 | (d[1] as u64) << 48u64 | (d[2] as u64) << 40u64 | (d[3] as u64)
        << 32u64 | (d[4] as u64) << 24u64 | (d[5] as u64) << 16u64 | (d[6] as u64) << 8u64
        | (d[7] as u64)
}

/// The correlation key of a balance query: derived from the hash of the
/// querying address, not from a request id.
pub open spec fn balance_key(a: Address) -> u64 {
    digest_key(sha3_256_of(address_bytes(a)))
}

/// The correlation key of a balance query about `a`.
pub fn balance_query_key(a: Address) -> (r: u64)
    ensures
        r == balance_key(a),
{
    let mut bytes: Vec<u8> = Vec::new();
    bytes.push((a >> 56u64) as u8);
    bytes.push((a >> 48u64) as u8);
    bytes.push((a >> 40u64) as u8);
    bytes.push((a >> 32u64) as u8);
    bytes.push((a >> 24u64) as u8);
    bytes.push((a >> 16u64) as u8);
    bytes.push((a >> 8u64) as u8);
    bytes.push(a as u8);
    assert(bytes@ =~= address_bytes(a));
    let d = sha3_256(&bytes);
    (d[0] as u64) << 56u64 | (d[1] as u64) << 48u64 | (d[2] as u64) << 40u64 | (d[3] as u64)
        << 32u64 | (d[4] as u64) << 24u64 | (d[5] as u64) << 16u64 | (d[6] as u64) << 8u64
        | (d[7] as u64)
}

/// One input of the run loop.
pub enum LoopInput<N, C> {
    Network(N),
    Command(C),
    Shutdown,
}

/// What the run loop does with an input: handle it to completion before
/// taking the next, stop, or refuse it once stopped.
pub enum LoopStep<N, C> {
    HandleNetwork(N),
    HandleCommand(C),
    Stop,
    Closed,
}

/// The run loop's own state: whether it has stopped.
pub struct RunLoop {
    stopped: bool,
}

impl RunLoop {
    pub closed spec fn is_stopped(&self) -> bool {
        self.stopped
    }

    pub fn new() -> (r: Self)
        ensures
            !r.is_stopped(),
    {
        RunLoop { stopped: false }
    }

    /// Takes the next input. A shutdown stops the loop; after that every
    /// input is refused and the loop stays stopped.
    pub fn next_step<N, C>(&mut self, input: LoopInput<N, C>) -> (r: LoopStep<N, C>)
        ensures
            old(self).is_stopped() ==> r is Closed && final(self).is_stopped(),
            !old(self).is_stopped() ==> match input {
                LoopInput::Network(n) => r == LoopStep::<N, C>::HandleNetwork(n)
                    && !final(self).is_stopped(),
                LoopInput::Command(c) => r == LoopStep::<N, C>::HandleCommand(c)
                    && !final(self).is_stopped(),
                LoopInput::Shutdown => r is Stop && final(self).is_stopped(),
            },
    {
        if self.stopped {
            return LoopStep::Closed;
        }
        match input {
            LoopInput::Network(n) => LoopStep::HandleNetwork(n),
            LoopInput::Command(c) => LoopStep::HandleCommand(c),
            LoopInput::Shutdown => {
                self.stopped = true;
                LoopStep::Stop
            },
        }
    }
}

/// The node's tables and settings, owned by the run loop. `W` is whatever
/// wakes a local caller that waits for an answer.
pub struct NodeCore<W> {
    self_addr: Address,
    auto_approve: bool,
    default_future_timeout: u64,
    max_deposit: u64,
    message_processor: MessageProcessor<W>,
    network_processor: MessageProcessor<W>,
    invoices: InvoiceManager,
}

impl<W> NodeCore<W> {
    pub closed spec fn spec_self_addr(&self) -> Address {
        self.self_addr
    }

    pub closed spec fn spec_auto_approve(&self) -> bool {
        self.auto_approve
    }

    pub closed spec fn spec_timeout(&self) -> u64 {
        self.default_future_timeout
    }

    pub closed spec fn spec_max_deposit(&self) -> u64 {
        self.max_deposit
    }

    /// Waiters for channel transactions, by request id.
    pub closed spec fn pending(&self) -> Map<u64, W> {
        self.message_processor@
    }

    /// Waiters for balance queries, by the key of the querying address.
    pub closed spec fn balance_waiters(&self) -> Map<u64, W> {
        self.network_processor@
    }

    pub closed spec fn preimages(&self) -> Map<Seq<u8>, Vec<u8>> {
        self.invoices.preimage_table()
    }

    pub closed spec fn previous_hops(&self) -> Map<Seq<u8>, Address> {
        self.invoices.hop_table()
    }

    /// The timer a new registration gets, in milliseconds; none when the
    /// timeout is zero.
    pub open spec fn spec_timer(&self) -> Option<u64> {
        if self.spec_timeout() == 0 {
            None
        } else {
            Some(self.spec_timeout())
        }
    }

    /// Whom the revealed preimage settles with, after a committed request.
    pub open spec fn settlement(&self, peer: Address, op: TxnOperator) -> Option<(Address, Seq<u8>)> {
        match op {
            TxnOperator::HtlcTransfer { hash_lock, .. } => if self.preimages().contains_key(
                hash_lock@,
            ) {
                Some((peer, self.preimages()[hash_lock@]@))
            } else {
                None
            },
            TxnOperator::HtlcReceive { preimage } => if self.previous_hops().contains_key(
                sha3_256_of(preimage@),
            ) {
                Some((self.previous_hops()[sha3_256_of(preimage@)], preimage@))
            } else {
                None
            },
            _ => None,
        }
    }

    pub fn new(self_addr: Address, auto_approve: bool) -> (r: Self)
        ensures
            r.spec_self_addr() == self_addr,
            r.spec_auto_approve() == auto_approve,
            r.spec_timeout() == DEFAULT_FUTURE_TIMEOUT,
            r.spec_max_deposit() == DEFAULT_MAX_DEPOSIT,
            r.pending() == Map::<u64, W>::empty(),
            r.balance_waiters() == Map::<u64, W>::empty(),
            r.preimages() == Map::<Seq<u8>, Vec<u8>>::empty(),
            r.previous_hops() == Map::<Seq<u8>, Address>::empty(),
    {
        NodeCore {
            self_addr,
            auto_approve,
            default_future_timeout: DEFAULT_FUTURE_TIMEOUT,
            max_deposit: DEFAULT_MAX_DEPOSIT,
            message_processor: MessageProcessor::new(),
            network_processor: MessageProcessor::new(),
            invoices: InvoiceManager::new(),
        }
    }

    pub fn self_addr(&self) -> (r: Address)
        ensures
            r == self.spec_self_addr(),
    {
        self.self_addr
    }

    /// Whether an answer for `request_id` is still awaited.
    pub fn is_pending(&self, request_id: u64) -> (r: bool)
        ensures
            r == self.pending().contains_key(request_id),
    {
        self.message_processor.is_pending(request_id)
    }

    /// Sets the delay after which an unanswered registration is cancelled.
    pub fn set_timeout(&mut self, timeout: u64)
        ensures
            final(self).spec_timeout() == timeout,
            final(self).spec_self_addr() == old(self).spec_self_addr(),
            final(self).spec_auto_approve() == old(self).spec_auto_approve(),
            final(self).spec_max_deposit() == old(self).spec_max_deposit(),
            final(self).pending() == old(self).pending(),
            final(self).balance_waiters() == old(self).balance_waiters(),
            final(self).preimages() == old(self).preimages(),
            final(self).previous_hops() == old(self).previous_hops(),
    {
        self.default_future_timeout = timeout;
    }

    /// The timer to start for a new registration.
    pub fn timer(&self) -> (r: Option<u64>)
        ensures
            r == self.spec_timer(),
    {
        if self.default_future_timeout == 0 {
            None
        } else {
            Some(self.default_future_timeout)
        }
    }

    /// Checks a local request to open a channel before anything is sent.
    pub fn check_open_channel(&self, sender_amount: u64, receiver_amount: u64, connected: bool) -> (r:
        Result<(), SgError>)
        ensures
            r is Ok <==> (receiver_amount <= self.spec_max_deposit() && receiver_amount
                <= sender_amount && connected),
            r is Err && (receiver_amount > self.spec_max_deposit() || receiver_amount
                > sender_amount) ==> r->Err_0.code == ErrorCode::InvalidArgument,
            r is Err && receiver_amount <= self.spec_max_deposit() && receiver_amount
                <= sender_amount ==> r->Err_0.code == ErrorCode::DisconnectedPeer,
    {
        if receiver_amount > self.max_deposit {
            return Err(SgError::new(ErrorCode::InvalidArgument, "deposit coin amount too big".to_owned()));
        }
        if receiver_amount > sender_amount {
            return Err(
                SgError::new(
                    ErrorCode::InvalidArgument,
                    "sender amount should bigger than receiver amount.".to_owned(),
                ),
            );
        }
        check_connected(connected)
    }

    /// Registers `waiter` for the answer to the outbound request
    /// `request_id` and gives the timer to start for it.
    pub fn register_request(&mut self, request_id: u64, waiter: W) -> (r: Result<
        Option<u64>,
        AlreadyPending<W>,
    >)
        ensures
            old(self).pending().contains_key(request_id) ==> r == Err::<Option<u64>, AlreadyPending<W>>(
                AlreadyPending { waiter },
            ) && final(self).pending() == old(self).pending(),
            !old(self).pending().contains_key(request_id) ==> r == Ok::<Option<u64>, AlreadyPending<W>>(
                old(self).spec_timer(),
            ) && final(self).pending() == old(self).pending().insert(request_id, waiter),
            final(self).spec_timeout() == old(self).spec_timeout(),
            final(self).spec_self_addr() == old(self).spec_self_addr(),
            final(self).spec_auto_approve() == old(self).spec_auto_approve(),
            final(self).spec_max_deposit() == old(self).spec_max_deposit(),
            final(self).balance_waiters() == old(self).balance_waiters(),
            final(self).preimages() == old(self).preimages(),
            final(self).previous_hops() == old(self).previous_hops(),
    {
        match self.message_processor.register(request_id, waiter) {
            Ok(()) => Ok(self.timer()),
            Err(e) => Err(e),
        }
    }

    /// Decides on an inbound request once the wallet has checked it: an
    /// existing response is sent and applied; a request that needs approval is
    /// approved when auto-approval is on and left to the user otherwise; a
    /// failed verification is reported to the peer under the request's id.
    pub fn on_verified(&self, request_id: u64, verdict: Verification) -> (r: RequestStep)
        ensures
            match verdict {
                Verification::Prepared(resp) => r == RequestStep::Apply(resp),
                Verification::NeedsApproval => r == (if self.spec_auto_approve() {
                    RequestStep::Approve
                } else {
                    RequestStep::AwaitUser
                }),
                Verification::Failed(e) => r == RequestStep::Reply(
                    ErrorMessage { request_id, error: e },
                ),
            },
    {
        match verdict {
            Verification::Prepared(resp) => RequestStep::Apply(resp),
            Verification::NeedsApproval => {
                if self.auto_approve {
                    RequestStep::Approve
                } else {
                    RequestStep::AwaitUser
                }
            },
            Verification::Failed(e) => RequestStep::Reply(error_message(e, request_id)),
        }
    }

    /// Decides after a local approval or rejection of a waiting proposal:
    /// an approval's response is sent and applied; a rejection is reported
    /// to the peer as such; a wallet failure is reported as it came.
    pub fn on_proposal_decided(&self, request_id: u64, verdict: ProposalVerdict) -> (r: RequestStep)
        ensures
            match verdict {
                ProposalVerdict::Approved(resp) => r == RequestStep::Apply(resp),
                ProposalVerdict::Rejected => r is Reply && r->Reply_0.request_id == request_id
                    && r->Reply_0.error.code == ErrorCode::Reject,
                ProposalVerdict::WalletError(e) => r == RequestStep::Reply(
                    ErrorMessage { request_id, error: e },
                ),
            },
    {
        match verdict {
            ProposalVerdict::Approved(resp) => RequestStep::Apply(resp),
            ProposalVerdict::Rejected => RequestStep::Reply(
                error_message(
                    SgError::new(ErrorCode::Reject, "transaction reject by participant".to_owned()),
                    request_id,
                ),
            ),
            ProposalVerdict::WalletError(e) => RequestStep::Reply(error_message(e, request_id)),
        }
    }

    /// The settlement a committed request calls for, if any.
    fn settlement_for(&self, peer: Address, op: &TxnOperator) -> (r: Option<Settle>)
        ensures
            match r {
                Some(s) => self.settlement(peer, *op) == Some((s.to, s.preimage@)),
                None => self.settlement(peer, *op) is None,
            },
    {
        match op {
            TxnOperator::HtlcTransfer { hash_lock, .. } => {
                match self.invoices.get_preimage(hash_lock) {
                    Some(preimage) => Some(Settle { to: peer, preimage }),
                    None => None,
                }
            },
            TxnOperator::HtlcReceive { preimage } => {
                match self.invoices.get_previous_hop(preimage) {
                    Some(previous) => Some(Settle { to: previous, preimage: copy_bytes(preimage) }),
                    None => None,
                }
            },
            _ => None,
        }
    }

    /// Decides what follows the wallet's attempt to apply the response to an
    /// inbound `request` from `peer`, which came with `hops` left to relay.
    /// A failed apply is reported to the peer under the request's id and
    /// nothing else happens. A committed conditional payment whose preimage
    /// this node holds is settled with the sender at once; a committed
    /// settlement is passed back to whoever sent the payment here; a
    /// committed conditional payment with hops left is relayed to the first.
    pub fn after_apply(
        &self,
        peer: Address,
        request: &ChannelTransactionRequest,
        hops: &Vec<NextHop>,
        applied: Result<(), SgError>,
    ) -> (r: AfterApply)
        ensures
            match applied {
                Err(e) => r == AfterApply::Reply(
                    ErrorMessage { request_id: request.request_id, error: e },
                ),
                Ok(()) => r is Continue,
            },
            r matches AfterApply::Continue { settle, forward } ==> {
                &&& match settle {
                    Some(s) => self.settlement(peer, request.operator) == Some((s.to, s.preimage@)),
                    None => self.settlement(peer, request.operator) is None,
                }
                &&& match forward {
                    Some(f) => forwarding(request.operator, hops@) == Some(
                        (
                            NextHop { remote_addr: f.to, amount: f.amount },
                            f.hash_lock@,
                            f.timeout,
                            f.hops@,
                        ),
                    ),
                    None => forwarding(request.operator, hops@) is None,
                }
            },
    {
        match applied {
            Err(e) => AfterApply::Reply(error_message(e, request.request_id)),
            Ok(()) => {
                let settle = self.settlement_for(peer, &request.operator);
                let forward = forward_for(&request.operator, hops);
                AfterApply::Continue { settle, forward }
            },
        }
    }

    /// Registers the relayed payment's request and remembers that the
    /// payment locked by `hash_lock` came from `from`, so that its
    /// settlement can be passed back.
    pub fn forward_sent(&mut self, from: Address, hash_lock: Vec<u8>, request_id: u64, waiter: W) -> (r:
        Result<Option<u64>, AlreadyPending<W>>)
        ensures
            old(self).pending().contains_key(request_id) ==> r == Err::<Option<u64>, AlreadyPending<W>>(
                AlreadyPending { waiter },
            ) && final(self).pending() == old(self).pending() && final(self).previous_hops()
                == old(self).previous_hops(),
            !old(self).pending().contains_key(request_id) ==> r == Ok::<Option<u64>, AlreadyPending<W>>(
                old(self).spec_timer(),
            ) && final(self).pending() == old(self).pending().insert(request_id, waiter)
                && final(self).previous_hops() == old(self).previous_hops().insert(hash_lock@, from),
            final(self).preimages() == old(self).preimages(),
            final(self).balance_waiters() == old(self).balance_waiters(),
            final(self).spec_timeout() == old(self).spec_timeout(),
            final(self).spec_self_addr() == old(self).spec_self_addr(),
            final(self).spec_auto_approve() == old(self).spec_auto_approve(),
    {
        match self.message_processor.register(request_id, waiter) {
            Ok(()) => {
                self.invoices.add_previous_hop(hash_lock, from);
                Ok(self.timer())
            },
            Err(e) => Err(e),
        }
    }

    /// The counterparty's response to `request_id` was verified and applied,
    /// leaving the channel at sequence number `seq`: the waiter gets `seq`.
    pub fn on_response_applied(&mut self, request_id: u64, seq: u64) -> (r: Option<Delivery<W, u64>>)
        ensures
            final(self).pending() == old(self).pending().remove(request_id),
            match r {
                Some(d) => old(self).pending().contains_key(request_id) && d.waiter == old(
                    self,
                ).pending()[request_id] && d.outcome == crate::processor::Outcome::Success(seq),
                None => !old(self).pending().contains_key(request_id),
            },
            final(self).balance_waiters() == old(self).balance_waiters(),
            final(self).preimages() == old(self).preimages(),
            final(self).previous_hops() == old(self).previous_hops(),
            final(self).spec_timeout() == old(self).spec_timeout(),
            final(self).spec_self_addr() == old(self).spec_self_addr(),
            final(self).spec_auto_approve() == old(self).spec_auto_approve(),
    {
        self.message_processor.resolve(request_id, seq)
    }

    /// A peer reported a failure: the waiter of its correlation id gets it.
    pub fn on_error_message(&mut self, msg: ErrorMessage) -> (r: Option<Delivery<W, u64>>)
        ensures
            final(self).pending() == old(self).pending().remove(msg.request_id),
            match r {
                Some(d) => old(self).pending().contains_key(msg.request_id) && d.waiter == old(
                    self,
                ).pending()[msg.request_id] && d.outcome == crate::processor::Outcome::<u64>::Failure(
                    msg.error,
                ),
                None => !old(self).pending().contains_key(msg.request_id),
            },
            final(self).balance_waiters() == old(self).balance_waiters(),
            final(self).preimages() == old(self).preimages(),
            final(self).previous_hops() == old(self).previous_hops(),
            final(self).spec_timeout() == old(self).spec_timeout(),
            final(self).spec_self_addr() == old(self).spec_self_addr(),
            final(self).spec_auto_approve() == old(self).spec_auto_approve(),
    {
        self.message_processor.fail(msg.request_id, msg.error)
    }

    /// The timer of `request_id` fired: a waiter still there is woken with a
    /// timeout; one already answered is not touched.
    pub fn on_timeout(&mut self, request_id: u64) -> (r: Option<Delivery<W, u64>>)
        ensures
            final(self).pending() == old(self).pending().remove(request_id),
            match r {
                Some(d) => old(self).pending().contains_key(request_id) && d.waiter == old(
                    self,
                ).pending()[request_id] && d.outcome == crate::processor::Outcome::<u64>::TimedOut,
                None => !old(self).pending().contains_key(request_id),
            },
            final(self).balance_waiters() == old(self).balance_waiters(),
            final(self).preimages() == old(self).preimages(),
            final(self).previous_hops() == old(self).previous_hops(),
            final(self).spec_timeout() == old(self).spec_timeout(),
            final(self).spec_self_addr() == old(self).spec_self_addr(),
            final(self).spec_auto_approve() == old(self).spec_auto_approve(),
    {
        self.message_processor.cancel(request_id)
    }

    /// Issues an invoice payable to this node, locked by the hash of
    /// `preimage`.
    pub fn add_invoice(&mut self, amount: u64, preimage: Vec<u8>) -> (r: Invoice)
        ensures
            r.receiver == old(self).spec_self_addr(),
            r.amount == amount,
            r.r_hash@ == sha3_256_of(preimage@),
            final(self).preimages() == old(self).preimages().insert(sha3_256_of(preimage@), preimage),
            final(self).previous_hops() == old(self).previous_hops(),
            final(self).pending() == old(self).pending(),
            final(self).balance_waiters() == old(self).balance_waiters(),
            final(self).spec_timeout() == old(self).spec_timeout(),
            final(self).spec_self_addr() == old(self).spec_self_addr(),
            final(self).spec_auto_approve() == old(self).spec_auto_approve(),
    {
        self.invoices.new_invoice(amount, self.self_addr, preimage)
    }
}

impl<W> NodeCore<W> {
    /// Registers `waiter` for the answer to a balance query about the
    /// channel from `local_addr` to `remote_addr`, keyed by the hash of
    /// `local_addr`. Gives the request to send and the timer to start.
    pub fn register_balance_query(&mut self, local_addr: Address, remote_addr: Address, waiter: W) -> (r:
        Result<(BalanceQueryRequest, Option<u64>), AlreadyPending<W>>)
        ensures
            old(self).balance_waiters().contains_key(balance_key(local_addr)) ==> r == Err::<
                (BalanceQueryRequest, Option<u64>),
                AlreadyPending<W>,
            >(AlreadyPending { waiter }) && final(self).balance_waiters() == old(
                self,
            ).balance_waiters(),
            !old(self).balance_waiters().contains_key(balance_key(local_addr)) ==> r == Ok::<
                (BalanceQueryRequest, Option<u64>),
                AlreadyPending<W>,
            >((BalanceQueryRequest { local_addr, remote_addr }, old(self).spec_timer()))
                && final(self).balance_waiters() == old(self).balance_waiters().insert(
                balance_key(local_addr),
                waiter,
            ),
            final(self).pending() == old(self).pending(),
            final(self).preimages() == old(self).preimages(),
            final(self).previous_hops() == old(self).previous_hops(),
            final(self).spec_timeout() == old(self).spec_timeout(),
    {
        let key = balance_query_key(local_addr);
        match self.network_processor.register(key, waiter) {
            Ok(()) => Ok((BalanceQueryRequest { local_addr, remote_addr }, self.timer())),
            Err(e) => Err(e),
        }
    }

    /// A balance answer arrived: the waiter keyed by the hash of its
    /// `local_addr` gets it.
    pub fn on_balance_response(&mut self, resp: BalanceQueryResponse) -> (r: Option<
        Delivery<W, BalanceQueryResponse>,
    >)
        ensures
            final(self).balance_waiters() == old(self).balance_waiters().remove(
                balance_key(resp.local_addr),
            ),
            match r {
                Some(d) => old(self).balance_waiters().contains_key(balance_key(resp.local_addr))
                    && d.waiter == old(self).balance_waiters()[balance_key(resp.local_addr)]
                    && d.outcome == crate::processor::Outcome::Success(resp),
                None => !old(self).balance_waiters().contains_key(balance_key(resp.local_addr)),
            },
            final(self).pending() == old(self).pending(),
            final(self).preimages() == old(self).preimages(),
            final(self).previous_hops() == old(self).previous_hops(),
            final(self).spec_timeout() == old(self).spec_timeout(),
    {
        let key = balance_query_key(resp.local_addr);
        self.network_processor.resolve(key, resp)
    }

    /// The timer of a balance query fired.
    pub fn on_balance_timeout(&mut self, key: u64) -> (r: Option<Delivery<W, BalanceQueryResponse>>)
        ensures
            final(self).balance_waiters() == old(self).balance_waiters().remove(key),
            match r {
                Some(d) => old(self).balance_waiters().contains_key(key) && d.waiter == old(
                    self,
                ).balance_waiters()[key] && d.outcome
                    == crate::processor::Outcome::<BalanceQueryResponse>::TimedOut,
                None => !old(self).balance_waiters().contains_key(key),
            },
            final(self).pending() == old(self).pending(),
            final(self).preimages() == old(self).preimages(),
            final(self).previous_hops() == old(self).previous_hops(),
            final(self).spec_timeout() == old(self).spec_timeout(),
    {
        self.network_processor.cancel(key)
    }
}

/// The relay step that a committed request calls for, if any.
fn forward_for(op: &TxnOperator, hops: &Vec<NextHop>) -> (r: Option<Forward>)
    ensures
        match r {
            Some(f) => forwarding(*op, hops@) == Some(
                (NextHop { remote_addr: f.to, amount: f.amount }, f.hash_lock@, f.timeout, f.hops@),
            ),
            None => forwarding(*op, hops@) is None,
        },
{
    match op {
        TxnOperator::HtlcTransfer { hash_lock, timeout, .. } => {
            if hops.len() == 0 {
                return None;
            }
            let first = hops[0];
            let mut rest: Vec<NextHop> = Vec::new();
            let mut i: usize = 1;
            while i < hops.len()
                invariant
                    1 <= i <= hops@.len(),
                    rest@ == hops@.subrange(1, i as int),
                decreases hops@.len() - i,
            {
                rest.push(hops[i]);
                i = i + 1;
                assert(rest@ =~= hops@.subrange(1, i as int));
            }
            assert(rest@ =~= hops@.drop_first());
            Some(
                Forward {
                    to: first.remote_addr,
                    amount: first.amount,
                    hash_lock: copy_bytes(hash_lock),
                    timeout: *timeout,
                    hops: rest,
                },
            )
        },
        _ => None,
    }
}

/// Back-resolution finds the way home: once a relay has recorded that the
/// payment locked by the hash of `preimage` came from `from`, a committed
/// settlement revealing `preimage` is passed back to `from`, whoever sent it.
pub proof fn lemma_settlement_returns_to_sender<W>(
    before: NodeCore<W>,
    after: NodeCore<W>,
    from: Address,
    peer: Address,
    preimage: Vec<u8>,
)
    requires
        after.previous_hops() == before.previous_hops().insert(sha3_256_of(preimage@), from),
    ensures
        after.settlement(peer, TxnOperator::HtlcReceive { preimage }) == Some((from, preimage@)),
{
}

/// A node that issued the invoice for a hash lock settles a committed
/// conditional payment under that lock with its sender, revealing the
/// preimage, whatever hops remain.
pub proof fn lemma_invoice_holder_settles<W>(
    node: NodeCore<W>,
    peer: Address,
    hash_lock: Vec<u8>,
    amount: u64,
    timeout: u64,
)
    requires
        node.preimages().contains_key(hash_lock@),
    ensures
        node.settlement(peer, TxnOperator::HtlcTransfer { hash_lock, amount, timeout }) == Some(
            (peer, node.preimages()[hash_lock@]@),
        ),
{
}

} // verus!
