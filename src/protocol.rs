//! The values exchanged between peers: channel-transaction requests and
//! responses, multi-hop requests, error reports and balance queries.
use vstd::prelude::*;
use crate::error::SgError;

verus! {

/// Participant identifier: fixed size, totally ordered, usable as a key.
pub type Address = u64;

/// What a channel transaction does, with the arguments the node reads.
#[derive(Debug)]
pub enum TxnOperator {
    Open,
    Deposit,
    Withdraw,
    Transfer,
    /// A conditional payment locked by `hash_lock` until `timeout`.
    HtlcTransfer { hash_lock: Vec<u8>, amount: u64, timeout: u64 },
    /// Settles a conditional payment by revealing its preimage.
    HtlcReceive { preimage: Vec<u8> },
    /// A channel script run through an installed package.
    Script,
}

/// A signed proposal for one channel transaction. `signed` holds the
/// cryptographic material, which the node passes on without reading.
#[derive(Debug)]
pub struct ChannelTransactionRequest {
    pub request_id: u64,
    pub operator: TxnOperator,
    pub signed: Vec<u8>,
}

/// The counterparty's signed answer to a request.
#[derive(Debug)]
pub struct ChannelTransactionResponse {
    pub request_id: u64,
    pub signed: Vec<u8>,
}

/// One relay further along a multi-hop payment.
#[derive(Clone, Copy, Debug, PartialEq, Eq, Structural)]
pub struct NextHop {
    pub remote_addr: Address,
    pub amount: u64,
}

/// A single-hop request together with the hops that still have to relay it.
#[derive(Debug)]
pub struct MultiHopChannelRequest {
    pub request: ChannelTransactionRequest,
    pub hops: Vec<NextHop>,
}

/// A failure reported to a peer, correlated with the request it concerns.
#[derive(Debug)]
pub struct ErrorMessage {
    pub request_id: u64,
    pub error: SgError,
}

#[derive(Clone, Copy, Debug, PartialEq, Eq, Structural)]
pub struct BalanceQueryRequest {
    pub local_addr: Address,
    pub remote_addr: Address,
}

#[derive(Clone, Copy, Debug, PartialEq, Eq, Structural)]
pub struct BalanceQueryResponse {
    pub local_addr: Address,
    pub remote_addr: Address,
    pub local_balance: u64,
    pub remote_balance: u64,
}

impl MultiHopChannelRequest {
    pub fn new(request: ChannelTransactionRequest, hops: Vec<NextHop>) -> (r: Self)
        ensures
            r.request == request,
            r.hops@ == hops@,
    {
        MultiHopChannelRequest { request, hops }
    }
}

impl BalanceQueryResponse {
    pub fn new(local_addr: Address, remote_addr: Address, local_balance: u64, remote_balance: u64) -> (r: Self)
        ensures
            r == (BalanceQueryResponse { local_addr, remote_addr, local_balance, remote_balance }),
    {
        BalanceQueryResponse { local_addr, remote_addr, local_balance, remote_balance }
    }
}

/// A copy of a byte string.
pub fn copy_bytes(v: &Vec<u8>) -> (r: Vec<u8>)
    ensures
        r@ == v@,
{
    let r = v.clone();
    assert(r@ =~= v@);
    r
}

} // verus!
