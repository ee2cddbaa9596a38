//! Signature collection for one channel transaction: it waits for the
//! signature of every participant, then waits to be applied.
use vstd::prelude::*;
use std::collections::{HashMap, HashSet};
use crate::protocol::{copy_bytes, Address};

verus! {

broadcast use vstd::std_specs::hash::group_hash_axioms;

/// The proposed channel transaction; its contents are opaque here.
#[derive(Debug)]
pub struct ChannelTransactionProposal {
    pub request_id: u64,
    pub proposer: Address,
    pub channel_txn: Vec<u8>,
}

/// The effects of executing the proposal; opaque here.
#[derive(Debug)]
pub struct TransactionOutput {
    pub write_set: Vec<u8>,
    pub gas_used: u64,
}

/// One participant's signature over the proposal.
#[derive(Debug)]
pub struct ChannelTransactionSigs {
    pub address: Address,
    pub signature: Vec<u8>,
}

#[derive(Debug)]
pub enum PendingTransaction {
    WaitForSig {
        proposal: ChannelTransactionProposal,
        output: TransactionOutput,
        signatures: HashMap<Address, ChannelTransactionSigs>,
    },
    WaitForApply {
        proposal: ChannelTransactionProposal,
        output: TransactionOutput,
        signatures: HashMap<Address, ChannelTransactionSigs>,
    },
}

/// Whether the signers are exactly the participants.
fn signed_by_exactly(
    signatures: &HashMap<Address, ChannelTransactionSigs>,
    participants: &[Address],
) -> (r: bool)
    ensures
        r == (signatures@.dom() == participants@.to_set()),
{
    let mut seen: HashSet<Address> = HashSet::new();
    let mut all_signed = true;
    let mut i: usize = 0;
    while i < participants.len()
        invariant
            0 <= i <= participants@.len(),
            seen@ == participants@.take(i as int).to_set(),
            all_signed == (forall|j: int|
                0 <= j < i ==> signatures@.contains_key(#[trigger] participants@[j])),
        decreases participants@.len() - i,
    {
        let p = participants[i];
        if !signatures.contains_key(&p) {
            all_signed = false;
        }
        seen.insert(p);
        proof {
            let s0 = participants@.take(i as int);
            let s1 = participants@.take(i + 1);
            assert(s1 =~= s0.push(p));
            assert forall|x: Address| #[trigger] s1.contains(x) <==> s0.to_set().insert(p).contains(
                x,
            ) by {
                if s1.contains(x) {
                    let k = choose|k: int| 0 <= k < s1.len() && s1[k] == x;
                    if k < i {
                        assert(s0[k] == x);
                    }
                }
                if s0.contains(x) {
                    let k = choose|k: int| 0 <= k < s0.len() && s0[k] == x;
                    assert(s1[k] == x);
                }
                if x == p {
                    assert(s1[i as int] == x);
                }
            }
            assert(s1.to_set() =~= s0.to_set().insert(p));
        }
        i = i + 1;
    }
    assert(participants@.take(i as int) == participants@);
    let same_size = seen.len() == signatures.len();
    proof {
        let ps = participants@.to_set();
        let ks = signatures@.dom();
        if all_signed {
            assert(ps.subset_of(ks));
            if same_size {
                vstd::set_lib::lemma_subset_equality(ps, ks);
            }
        } else {
            let j = choose|j: int| 0 <= j < i && !signatures@.contains_key(participants@[j]);
            assert(ps.contains(participants@[j]));
        }
    }
    all_signed && same_size
}

impl PendingTransaction {
    /// The signatures collected so far, by signer.
    pub open spec fn sig_map(&self) -> Map<Address, ChannelTransactionSigs> {
        match self {
            PendingTransaction::WaitForSig { signatures, .. } => signatures@,
            PendingTransaction::WaitForApply { signatures, .. } => signatures@,
        }
    }

    pub open spec fn spec_proposal(&self) -> ChannelTransactionProposal {
        match self {
            PendingTransaction::WaitForSig { proposal, .. } => *proposal,
            PendingTransaction::WaitForApply { proposal, .. } => *proposal,
        }
    }

    pub open spec fn spec_output(&self) -> TransactionOutput {
        match self {
            PendingTransaction::WaitForSig { output, .. } => *output,
            PendingTransaction::WaitForApply { output, .. } => *output,
        }
    }

    /// Records a signature while signatures are still being collected; once
    /// every signature is in, nothing changes.
    pub fn add_signature(&mut self, sig: ChannelTransactionSigs)
        ensures
            *old(self) is WaitForSig ==> *final(self) is WaitForSig && final(self).sig_map()
                == old(self).sig_map().insert(sig.address, sig),
            *old(self) is WaitForApply ==> *final(self) == *old(self),
            final(self).spec_proposal() == old(self).spec_proposal(),
            final(self).spec_output() == old(self).spec_output(),
    {
        match self {
            PendingTransaction::WaitForSig { signatures, .. } => {
                signatures.insert(sig.address, sig);
            },
            PendingTransaction::WaitForApply { .. } => {},
        }
    }

    /// A copy of the signature of `address`, if it signed.
    pub fn get_signature(&self, address: Address) -> (r: Option<ChannelTransactionSigs>)
        ensures
            match r {
                Some(s) => self.sig_map().contains_key(address) && s.address
                    == self.sig_map()[address].address && s.signature@
                    == self.sig_map()[address].signature@,
                None => !self.sig_map().contains_key(address),
            },
    {
        let found = match self {
            PendingTransaction::WaitForSig { signatures, .. } => signatures.get(&address),
            PendingTransaction::WaitForApply { signatures, .. } => signatures.get(&address),
        };
        match found {
            Some(s) => Some(ChannelTransactionSigs { address: s.address, signature: copy_bytes(&s.signature) }),
            None => None,
        }
    }

    /// Whether every signature is in and the transaction waits to be applied.
    pub fn fullfilled(&self) -> (r: bool)
        ensures
            r == (self is WaitForApply),
    {
        match self {
            PendingTransaction::WaitForApply { .. } => true,
            _ => false,
        }
    }

    /// Moves from waiting for signatures to waiting to be applied when the
    /// signers are exactly `participants`; a strict subset keeps it waiting.
    /// The move happens once and is never undone. Returns whether the
    /// transaction now waits to be applied.
    pub fn try_fullfill(&mut self, participants: &[Address]) -> (r: bool)
        ensures
            r == (*final(self) is WaitForApply),
            (*final(self) is WaitForApply) == (*old(self) is WaitForApply
                || old(self).sig_map().dom() == participants@.to_set()),
            final(self).sig_map() == old(self).sig_map(),
            final(self).spec_proposal() == old(self).spec_proposal(),
            final(self).spec_output() == old(self).spec_output(),
    {
        let complete = match self {
            PendingTransaction::WaitForSig { signatures, .. } => signed_by_exactly(
                signatures,
                participants,
            ),
            PendingTransaction::WaitForApply { .. } => false,
        };
        if complete {
            let mut taken = PendingTransaction::WaitForApply {
                proposal: ChannelTransactionProposal {
                    request_id: 0,
                    proposer: 0,
                    channel_txn: Vec::new(),
                },
                output: TransactionOutput { write_set: Vec::new(), gas_used: 0 },
                signatures: HashMap::new(),
            };
            std::mem::swap(self, &mut taken);
            *self = match taken {
                PendingTransaction::WaitForSig { proposal, output, signatures } => {
                    PendingTransaction::WaitForApply { proposal, output, signatures }
                },
                PendingTransaction::WaitForApply { proposal, output, signatures } => {
                    PendingTransaction::WaitForApply { proposal, output, signatures }
                },
            };
        }
        self.fullfilled()
    }

    /// The id of the proposed transaction.
    pub fn request_id(&self) -> (r: u64)
        ensures
            r == self.spec_proposal().request_id,
    {
        match self {
            PendingTransaction::WaitForSig { proposal, .. } => proposal.request_id,
            PendingTransaction::WaitForApply { proposal, .. } => proposal.request_id,
        }
    }
}

} // verus!
