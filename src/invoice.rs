//! Invoices and the two lookup tables of conditional payments: hash lock to
//! preimage, and hash lock to the peer a payment came from.
use vstd::prelude::*;
use crate::byte_map::ByteMap;
use crate::digest::{sha3_256, sha3_256_of};
use crate::protocol::{copy_bytes, Address};

verus! {

/// A receiver's request to be paid `amount`, locked by `r_hash`.
#[derive(Debug)]
pub struct Invoice {
    pub receiver: Address,
    pub amount: u64,
    pub r_hash: Vec<u8>,
}

pub struct InvoiceManager {
    preimages: ByteMap<Vec<u8>>,
    previous_hops: ByteMap<Address>,
}

impl InvoiceManager {
    /// Hash lock to preimage, for invoices issued here.
    pub closed spec fn preimage_table(&self) -> Map<Seq<u8>, Vec<u8>> {
        self.preimages@
    }

    /// Hash lock to the peer that sent the payment this node relayed.
    pub closed spec fn hop_table(&self) -> Map<Seq<u8>, Address> {
        self.previous_hops@
    }

    pub fn new() -> (r: Self)
        ensures
            r.preimage_table() == Map::<Seq<u8>, Vec<u8>>::empty(),
            r.hop_table() == Map::<Seq<u8>, Address>::empty(),
    {
        InvoiceManager { preimages: ByteMap::new(), previous_hops: ByteMap::new() }
    }

    /// Issues an invoice for `amount` payable to `receiver`, locked by the
    /// hash of `preimage`, and remembers the preimage.
    pub fn new_invoice(&mut self, amount: u64, receiver: Address, preimage: Vec<u8>) -> (r: Invoice)
        ensures
            r.receiver == receiver,
            r.amount == amount,
            r.r_hash@ == sha3_256_of(preimage@),
            final(self).preimage_table() == old(self).preimage_table().insert(
                sha3_256_of(preimage@),
                preimage,
            ),
            final(self).hop_table() == old(self).hop_table(),
    {
        let r_hash = sha3_256(&preimage);
        let key = copy_bytes(&r_hash);
        self.preimages.insert(key, preimage);
        Invoice { receiver, amount, r_hash }
    }

    /// The preimage of `hash_lock`, when this node issued its invoice.
    pub fn get_preimage(&self, hash_lock: &Vec<u8>) -> (r: Option<Vec<u8>>)
        ensures
            match r {
                Some(p) => self.preimage_table().contains_key(hash_lock@)
                    && p@ == self.preimage_table()[hash_lock@]@,
                None => !self.preimage_table().contains_key(hash_lock@),
            },
    {
        match self.preimages.get(hash_lock) {
            Some(p) => Some(copy_bytes(p)),
            None => None,
        }
    }

    /// Remembers that the payment locked by `hash_lock` came from `addr`.
    pub fn add_previous_hop(&mut self, hash_lock: Vec<u8>, addr: Address)
        ensures
            final(self).hop_table() == old(self).hop_table().insert(hash_lock@, addr),
            final(self).preimage_table() == old(self).preimage_table(),
    {
        self.previous_hops.insert(hash_lock, addr);
    }

    /// The peer that sent the payment which `preimage` unlocks, if this node
    /// relayed it.
    pub fn get_previous_hop(&self, preimage: &Vec<u8>) -> (r: Option<Address>)
        ensures
            match r {
                Some(a) => self.hop_table().contains_key(sha3_256_of(preimage@))
                    && a == self.hop_table()[sha3_256_of(preimage@)],
                None => !self.hop_table().contains_key(sha3_256_of(preimage@)),
            },
    {
        let hash_lock = sha3_256(preimage);
        match self.previous_hops.get(&hash_lock) {
            Some(a) => Some(*a),
            None => None,
        }
    }
}

} // verus!
