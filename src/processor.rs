//! Correlation of outstanding requests with their single response slot.
use vstd::prelude::*;
use std::collections::HashMap;
use crate::error::SgError;

verus! {

broadcast use vstd::std_specs::hash::group_hash_axioms;

/// What a waiter is woken with.
#[derive(Debug)]
pub enum Outcome<T> {
    /// The response arrived.
    Success(T),
    /// The peer reported a failure.
    Failure(SgError),
    /// The registration was cancelled, by its timer or otherwise.
    TimedOut,
}

/// A waiter taken out of the table, with what it is to be woken with.
pub struct Delivery<W, T> {
    pub waiter: W,
    pub outcome: Outcome<T>,
}

/// `register` found the key already live; the refused waiter is handed back.
pub struct AlreadyPending<W> {
    pub waiter: W,
}

/// Maps each correlation key to the one waiter that expects its answer.
/// A key leaves the table the first time it is resolved, failed or
/// cancelled; later calls for it find nothing and deliver nothing.
pub struct MessageProcessor<W> {
    waiters: HashMap<u64, W>,
}

impl<W> View for MessageProcessor<W> {
    type V = Map<u64, W>;

    closed spec fn view(&self) -> Map<u64, W> {
        self.waiters@
    }
}

impl<W> MessageProcessor<W> {
    pub fn new() -> (r: Self)
        ensures
            r@ == Map::<u64, W>::empty(),
    {
        MessageProcessor { waiters: HashMap::new() }
    }

    /// Whether a waiter is registered under `key`.
    pub fn is_pending(&self, key: u64) -> (r: bool)
        ensures
            r == self@.contains_key(key),
    {
        self.waiters.contains_key(&key)
    }

    /// Number of live registrations.
    pub fn len(&self) -> (r: usize)
        ensures
            r == self@.len(),
    {
        self.waiters.len()
    }

    /// Binds `waiter` to `key`. A key that is already live is refused and
    /// the table is left as it was.
    pub fn register(&mut self, key: u64, waiter: W) -> (r: Result<(), AlreadyPending<W>>)
        ensures
            old(self)@.contains_key(key) ==> r == Err::<(), AlreadyPending<W>>(
                AlreadyPending { waiter },
            ) && final(self)@ == old(self)@,
            !old(self)@.contains_key(key) ==> r is Ok && final(self)@ == old(self)@.insert(
                key,
                waiter,
            ),
    {
        if self.waiters.contains_key(&key) {
            Err(AlreadyPending { waiter })
        } else {
            self.waiters.insert(key, waiter);
            Ok(())
        }
    }

    /// Removes the waiter of `key`, if there is one.
    fn take(&mut self, key: u64) -> (r: Option<W>)
        ensures
            final(self)@ == old(self)@.remove(key),
            match r {
                Some(w) => old(self)@.contains_key(key) && w == old(self)@[key],
                None => !old(self)@.contains_key(key),
            },
    {
        self.waiters.remove(&key)
    }

    /// Delivers `value` to the waiter of `key` and removes it. Without a
    /// waiter the value is dropped.
    pub fn resolve<T>(&mut self, key: u64, value: T) -> (r: Option<Delivery<W, T>>)
        ensures
            final(self)@ == old(self)@.remove(key),
            match r {
                Some(d) => old(self)@.contains_key(key) && d.waiter == old(self)@[key]
                    && d.outcome == Outcome::Success(value),
                None => !old(self)@.contains_key(key),
            },
    {
        match self.take(key) {
            Some(waiter) => Some(Delivery { waiter, outcome: Outcome::Success(value) }),
            None => None,
        }
    }

    /// Delivers `error` as a failure to the waiter of `key` and removes it.
    pub fn fail<T>(&mut self, key: u64, error: SgError) -> (r: Option<Delivery<W, T>>)
        ensures
            final(self)@ == old(self)@.remove(key),
            match r {
                Some(d) => old(self)@.contains_key(key) && d.waiter == old(self)@[key]
                    && d.outcome == Outcome::<T>::Failure(error),
                None => !old(self)@.contains_key(key),
            },
    {
        match self.take(key) {
            Some(waiter) => Some(Delivery { waiter, outcome: Outcome::Failure(error) }),
            None => None,
        }
    }

    /// Removes the registration of `key`, waking its waiter with a timeout.
    pub fn cancel<T>(&mut self, key: u64) -> (r: Option<Delivery<W, T>>)
        ensures
            final(self)@ == old(self)@.remove(key),
            match r {
                Some(d) => old(self)@.contains_key(key) && d.waiter == old(self)@[key]
                    && d.outcome == Outcome::<T>::TimedOut,
                None => !old(self)@.contains_key(key),
            },
    {
        match self.take(key) {
            Some(waiter) => Some(Delivery { waiter, outcome: Outcome::TimedOut }),
            None => None,
        }
    }
}

/// How many deliveries reach the waiter of `key` when the calls in `keys`
/// (each a `resolve`, `fail` or `cancel` of the key it names) run in order
/// on a table with contents `m`.
pub open spec fn deliveries_to<W>(m: Map<u64, W>, keys: Seq<u64>, key: u64) -> nat
    decreases keys.len(),
{
    if keys.len() == 0 {
        0
    } else {
        let here: nat = if keys[0] == key && m.contains_key(key) {
            1
        } else {
            0
        };
        here + deliveries_to(m.remove(keys[0]), keys.drop_first(), key)
    }
}

/// A key that was never registered: `resolve`, `fail` and `cancel` leave the
/// table as it is and deliver nothing, whatever runs before or after them.
pub proof fn lemma_unregistered_key_is_noop<W>(m: Map<u64, W>, keys: Seq<u64>, key: u64)
    requires
        !m.contains_key(key),
    ensures
        m.remove(key) == m,
        deliveries_to(m, keys, key) == 0,
    decreases keys.len(),
{
    assert(m.remove(key) =~= m);
    if keys.len() > 0 {
        lemma_unregistered_key_is_noop(m.remove(keys[0]), keys.drop_first(), key);
    }
}

/// A registered key receives exactly one delivery over any run of `resolve`,
/// `fail` and `cancel` calls that names it at least once: the first such call
/// delivers and every later one is a no-op.
pub proof fn lemma_single_delivery<W>(m: Map<u64, W>, keys: Seq<u64>, key: u64)
    requires
        m.contains_key(key),
        keys.contains(key),
    ensures
        deliveries_to(m, keys, key) == 1,
    decreases keys.len(),
{
    if keys[0] == key {
        lemma_unregistered_key_is_noop(m.remove(key), keys.drop_first(), key);
    } else {
        let i = choose|i: int| 0 <= i < keys.len() && keys[i] == key;
        assert(keys.drop_first()[i - 1] == key);
        lemma_single_delivery(m.remove(keys[0]), keys.drop_first(), key);
    }
}

} // verus!
