//! What the tasks of a program share: one completion queue, its events, and its keys.
use crate::events::Events;
use vstd::prelude::*;

verus! {

/// The key after `key`; the last key is followed by the first.
pub open spec fn following(key: u64) -> u64 {
    if key < u64::MAX {
        (key + 1) as u64
    } else {
        0
    }
}

/// The number of distinct keys.
pub open spec fn keys() -> int {
    0x1_0000_0000_0000_0000
}

/// The key of the `n`th operation after the one whose key is `first`.
pub open spec fn nth_key(first: u64, n: nat) -> u64
    decreases n,
{
    if n == 0 {
        first
    } else {
        following(nth_key(first, (n - 1) as nat))
    }
}

/// The source of the keys by which operations and completions find each other.
#[derive(Debug)]
pub struct Keys {
    /// The next operation ID to use.
    pub next_id: u64,
}

impl Keys {
    /// Start with the first key.
    pub fn new() -> (keys: Keys)
        ensures
            keys == (Keys { next_id: 0 }),
    {
        Keys { next_id: 0 }
    }

    /// The key of a new operation.
    pub fn operation(&mut self) -> (key: u64)
        ensures
            key == old(self).next_id,
            final(self).next_id == following(old(self).next_id),
    {
        let key: u64 = self.next_id;
        self.next_id = key.wrapping_add(1);
        key
    }
}

/// The runtime dictating how to handle the completion queue, which is of type `R`.
pub struct Runtime<R, C> {
    /// The inner interface to the completion queue.
    pub ring: R,
    /// The buffer for events. To hold it is the exclusive right to poll the ring.
    pub events: Events<C>,
    /// The keys of the operations.
    pub keys: Keys,
}

impl<R, C> Runtime<R, C> {
    /// The runtime around a completion queue, if one can be had.
    pub fn get<E>(ring: Result<R, E>) -> (runtime: Option<Self>)
        ensures
            match ring {
                Ok(ring) => {
                    &&& runtime matches Some(runtime)
                    &&& runtime.ring == ring
                    &&& runtime.events@.wf()
                    &&& runtime.events@.buffer.len() == 0
                    &&& runtime.events@.stored.is_empty()
                    &&& runtime.keys == (Keys { next_id: 0 })
                },
                Err(_) => runtime is None,
            },
    {
        match ring {
            Ok(ring) => Some(Runtime { ring, events: Events::default(), keys: Keys::new() }),
            Err(_) => None,
        }
    }
}

proof fn lemma_nth_key(first: u64, n: nat)
    ensures
        nth_key(first, n) == (first + n) % keys(),
    decreases n,
{
    if n > 0 {
        lemma_nth_key(first, (n - 1) as nat);
    }
}

/// Two operations never share a key unless all the keys have been used in between.
pub proof fn law_keys_are_distinct(first: u64, m: nat, n: nat)
    requires
        m < n < m + keys(),
    ensures
        nth_key(first, m) != nth_key(first, n),
{
    lemma_nth_key(first, m);
    lemma_nth_key(first, n);
}

} // verus!
