//! The handle that the RPC front end holds on a running node.
use vstd::prelude::*;
use std::sync::Arc;

verus! {

pub struct NodeService<N> {
    node: Arc<N>,
}

impl<N> NodeService<N> {
    pub closed spec fn spec_node(&self) -> Arc<N> {
        self.node
    }

    pub fn new(node: Arc<N>) -> (r: Self)
        ensures
            r.spec_node() == node,
    {
        NodeService { node }
    }

    /// The node this service answers for.
    pub fn node(&self) -> (r: &Arc<N>)
        ensures
            *r == self.spec_node(),
    {
        &self.node
    }
}

} // verus!
