//! Turning a path through the channel graph into a multi-hop payment.
use vstd::prelude::*;
use crate::error::{ErrorCode, SgError};
use crate::protocol::{Address, NextHop};

verus! {

/// The immediate counterparty of a multi-hop payment and the hops that
/// relay it further.
#[derive(Debug)]
pub struct MultiHopPlan {
    pub receiver: Address,
    pub hops: Vec<NextHop>,
}

/// Each relay of `rest` forwards the same `amount`.
pub open spec fn hops_for(rest: Seq<Address>, amount: u64) -> Seq<NextHop> {
    Seq::new(rest.len(), |i: int| NextHop { remote_addr: rest[i], amount })
}

/// Plans a payment of `amount` along `vertexes`, a path that starts at
/// `self_addr`. The second address receives a single-hop payment and every
/// later one becomes a hop carrying the same amount. A path with fewer than
/// two addresses, or one that does not start here, is a routing failure.
pub fn get_multi_hop_request(vertexes: &Vec<Address>, self_addr: Address, amount: u64) -> (r: Result<
    MultiHopPlan,
    SgError,
>)
    ensures
        r is Ok <==> (vertexes@.len() >= 2 && vertexes@[0] == self_addr),
        r is Ok ==> r->Ok_0.receiver == vertexes@[1] && r->Ok_0.hops@ == hops_for(
            vertexes@.subrange(2, vertexes@.len() as int),
            amount,
        ) && r->Ok_0.hops@.len() == vertexes@.len() - 2,
        r is Err ==> r->Err_0.code == ErrorCode::NotPath,
{
    if vertexes.len() < 2 {
        return Err(SgError::new(ErrorCode::NotPath, "should have at least 2 hops".to_owned()));
    }
    if vertexes[0] != self_addr {
        return Err(SgError::new(ErrorCode::NotPath, "path does not start at this node".to_owned()));
    }
    let receiver = vertexes[1];
    let mut hops: Vec<NextHop> = Vec::new();
    let mut i: usize = 2;
    while i < vertexes.len()
        invariant
            2 <= i <= vertexes@.len(),
            hops@ == hops_for(vertexes@.subrange(2, i as int), amount),
        decreases vertexes@.len() - i,
    {
        hops.push(NextHop { remote_addr: vertexes[i], amount });
        i = i + 1;
        assert(hops@ =~= hops_for(vertexes@.subrange(2, i as int), amount));
    }
    Ok(MultiHopPlan { receiver, hops })
}

/// Plans a conditional payment from the router's answer: no path is a
/// routing failure, as is a path that `get_multi_hop_request` refuses.
pub fn plan_htlc_payment(path: Option<Vec<Address>>, self_addr: Address, amount: u64) -> (r: Result<
    MultiHopPlan,
    SgError,
>)
    ensures
        r is Ok <==> (path is Some && path->0@.len() >= 2 && path->0@[0] == self_addr),
        r is Ok ==> r->Ok_0.receiver == path->0@[1] && r->Ok_0.hops@ == hops_for(
            path->0@.subrange(2, path->0@.len() as int),
            amount,
        ),
        r is Err ==> r->Err_0.code == ErrorCode::NotPath,
{
    match path {
        Some(v) => get_multi_hop_request(&v, self_addr, amount),
        None => Err(SgError::new(ErrorCode::NotPath, "could not find path".to_owned())),
    }
}

} // verus!
