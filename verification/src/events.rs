//! Completion events, and the tasks that wait for them.
//!
//! Any number of tasks share one completion queue. The task that holds the [`Events`] polls
//! the queue on behalf of all of them: it keeps the completion that it is waiting for and
//! files the others under their keys, where their own tasks find them.
use std::collections::HashMap;
use vstd::prelude::*;

verus! {

/// A completed operation, as the completion queue reports it.
#[derive(Debug)]
pub struct Completion<C> {
    /// The key of the operation that completed.
    pub key: u64,
    /// What the queue says about the operation.
    pub payload: C,
}

/// The latest of `buffer` that has the given key.
pub open spec fn latest<C>(buffer: Seq<Completion<C>>, key: u64) -> Option<Completion<C>>
    decreases buffer.len(),
{
    if buffer.len() == 0 {
        None
    } else if buffer.last().key == key {
        Some(buffer.last())
    } else {
        latest(buffer.drop_last(), key)
    }
}

/// The filed completions after `buffer` has been sorted by a task that waits for `key`: the
/// latest completion of every other key is filed, in place of what was there before.
pub open spec fn filed<C>(
    stored: Map<u64, Completion<C>>,
    buffer: Seq<Completion<C>>,
    key: u64,
) -> Map<u64, Completion<C>> {
    Map::new(
        |k: u64| stored.contains_key(k) || (k != key && latest(buffer, k) is Some),
        |k: u64|
            if k != key && latest(buffer, k) is Some {
                latest(buffer, k).unwrap()
            } else {
                stored[k]
            },
    )
}

/// What an event buffer holds.
#[verifier::ext_equal]
pub struct EventsView<C> {
    /// The completions that were delivered and not yet sorted, oldest first.
    pub buffer: Seq<Completion<C>>,
    /// The completions that wait for their tasks, under their keys.
    pub stored: Map<u64, Completion<C>>,
}

/// Event buffer shared by the tasks that wait on one completion queue.
pub struct Events<C> {
    /// Raw buffer for completion events.
    buffer: Vec<Completion<C>>,
    /// Events organized by their key.
    events: HashMap<u64, Completion<C>>,
}

impl<C> View for Events<C> {
    type V = EventsView<C>;

    closed spec fn view(&self) -> EventsView<C> {
        EventsView { buffer: self.buffer@, stored: self.events@ }
    }
}

impl<C> EventsView<C> {
    /// Every filed completion is filed under its own key.
    pub open spec fn wf(self) -> bool {
        forall|k: u64| #[trigger]
            self.stored.contains_key(k) ==> self.stored[k].key == k
    }
}

impl<C> Default for Events<C> {
    fn default() -> (events: Self)
        ensures
            events@.wf(),
            events@.buffer == Seq::<Completion<C>>::empty(),
            events@.stored == Map::<u64, Completion<C>>::empty(),
    {
        Events { buffer: Vec::new(), events: HashMap::new() }
    }
}

impl<C> Events<C> {
    /// Add a completion that the queue delivered to the raw buffer.
    pub fn deliver(&mut self, completion: Completion<C>)
        requires
            old(self)@.wf(),
        ensures
            final(self)@.buffer == old(self)@.buffer.push(completion),
            final(self)@.stored == old(self)@.stored,
            final(self)@.wf(),
    {
        self.buffer.push(completion);
    }

    /// Take out the completion that is filed under `key`, if there is one.
    pub fn take(&mut self, key: u64) -> (taken: Option<Completion<C>>)
        requires
            old(self)@.wf(),
        ensures
            final(self)@.buffer == old(self)@.buffer,
            final(self)@.stored == old(self)@.stored.remove(key),
            final(self)@.wf(),
            taken == (if old(self)@.stored.contains_key(key) {
                Some(old(self)@.stored[key])
            } else {
                None
            }),
            taken matches Some(completion) ==> completion.key == key,
    {
        let taken = self.events.remove(&key);
        assert(self@.stored == old(self)@.stored.remove(key));
        taken
    }

    /// Sort the raw buffer for a task that waits for `key`: file every other completion, and
    /// return the task's own if it is there.
    pub fn sort(&mut self, key: u64) -> (own: Option<Completion<C>>)
        requires
            old(self)@.wf(),
        ensures
            final(self)@.buffer == Seq::<Completion<C>>::empty(),
            final(self)@.stored == filed(old(self)@.stored, old(self)@.buffer, key),
            final(self)@.wf(),
            own == latest(old(self)@.buffer, key),
            own matches Some(completion) ==> completion.key == key,
    {
        let mut own: Option<Completion<C>> = None;
        let mut delivered: Vec<Completion<C>> = Vec::new();
        core::mem::swap(&mut delivered, &mut self.buffer);
        let ghost all = delivered@;
        let ghost before = self.events@;
        assert(filed(before, all.take(0), key) == before);
        for completion in iter: delivered
            invariant
                iter.seq() == all,
                self.buffer@.len() == 0,
                self.events@ == filed(before, all.take(iter.index()), key),
                own == latest(all.take(iter.index()), key),
        {
            let ghost n = iter.index();
            assert(all.take(n + 1).drop_last() == all.take(n));
            assert(all.take(n + 1).last() == all[n]);
            if completion.key == key {
                own = Some(completion);
            } else {
                self.events.insert(completion.key, completion);
            }
            assert(self.events@ == filed(before, all.take(n + 1), key));
        }
        assert(all.take(all.len() as int) == all);
        proof {
            lemma_latest_has_the_key(all, key);
            assert forall|k: u64| #[trigger]
                self@.stored.contains_key(k) implies self@.stored[k].key == k by {
                lemma_latest_has_the_key(all, k);
                assert(old(self)@.stored.contains_key(k) ==> old(self)@.stored[k].key == k);
            }
        }
        own
    }
}

/// How long each poll of the queue may last, in microseconds, after so many fruitless ones.
pub open spec fn delays() -> Seq<u64> {
    seq![2u64, 3, 5, 10, 50, 75, 100, 250, 500, 750, 1000, 2500, 5000, 10_000]
}

/// The time limit, in microseconds, of the poll that follows `snoozes` fruitless ones in a row.
pub open spec fn time_limit(snoozes: usize) -> Option<u64> {
    if snoozes < delays().len() {
        Some(delays()[snoozes as int])
    } else {
        None
    }
}

/// One fruitless poll more.
pub open spec fn snoozed(snoozes: usize) -> usize {
    if snoozes < usize::MAX {
        (snoozes + 1) as usize
    } else {
        snoozes
    }
}

/// The time limit, in microseconds, of the poll that follows `snoozes` fruitless ones in a row.
///
/// The limits make sure that other tasks have a chance to check for events. This helps
/// fairness immediately after a large batch of events is delivered. After long enough without
/// events there is no limit.
pub fn backoff(snoozes: usize) -> (limit: Option<u64>)
    ensures
        limit == time_limit(snoozes),
{
    match snoozes {
        0 => Some(2),
        1 => Some(3),
        2 => Some(5),
        3 => Some(10),
        4 => Some(50),
        5 => Some(75),
        6 => Some(100),
        7 => Some(250),
        8 => Some(500),
        9 => Some(750),
        10 => Some(1000),
        11 => Some(2500),
        12 => Some(5000),
        13 => Some(10_000),
        _ => None,
    }
}

/// A task that waits for the completion of one operation.
///
/// The task locks the [`Events`] and calls [`Pump::check`]. Unless its completion is there, it
/// polls the queue, delivers what comes out, and calls [`Pump::wake`]. It releases the lock and
/// starts over until one of the two hands it an outcome.
#[derive(Debug)]
pub struct Pump {
    /// The key of the operation.
    pub key: u64,
    /// How many fruitless polls in a row the task has made.
    pub backoff_index: usize,
}

/// What a task does after it has checked the events.
#[derive(Debug)]
pub enum Checked<C> {
    /// Return this completion.
    Found(Completion<C>),
    /// Poll the queue, for no longer than this many microseconds if a limit is given.
    Poll(Option<u64>),
}

/// How a poll of the queue ended.
#[derive(Debug)]
pub enum Wake<E> {
    /// The time limit passed.
    TimedOut,
    /// The queue delivered so many completions, or failed.
    Polled(Result<usize, E>),
}

/// What a task does after it has polled the queue.
#[derive(Debug)]
pub enum Pumped<C, E> {
    /// Return this.
    Done(Result<Completion<C>, E>),
    /// Release the events, so that other tasks can look for theirs, and check again.
    Again,
}

impl Pump {
    /// Wait for the operation with this key.
    pub fn new(key: u64) -> (pump: Pump)
        ensures
            pump == (Pump { key, backoff_index: 0 }),
    {
        Pump { key, backoff_index: 0 }
    }

    /// Look for the task's completion among the filed ones.
    pub fn check<C>(&self, events: &mut Events<C>) -> (checked: Checked<C>)
        requires
            old(events)@.wf(),
        ensures
            final(events)@.wf(),
            final(events)@.buffer == old(events)@.buffer,
            final(events)@.stored == old(events)@.stored.remove(self.key),
            checked == (if old(events)@.stored.contains_key(self.key) {
                Checked::Found(old(events)@.stored[self.key])
            } else {
                Checked::Poll(time_limit(self.backoff_index))
            }),
            checked matches Checked::Found(completion) ==> completion.key == self.key,
    {
        match events.take(self.key) {
            Some(completion) => Checked::Found(completion),
            None => Checked::Poll(backoff(self.backoff_index)),
        }
    }

    /// Go on after a poll of the queue.
    ///
    /// A failure is the outcome. A poll without events lengthens the next one. After a poll
    /// with events the buffer is sorted, and the wait is over if the task's own completion was
    /// in it; otherwise the backoff starts over.
    pub fn wake<C, E>(&mut self, events: &mut Events<C>, wake: Wake<E>) -> (pumped: Pumped<C, E>)
        requires
            old(events)@.wf(),
        ensures
            final(events)@.wf(),
            final(self).key == old(self).key,
            match wake {
                Wake::Polled(Err(error)) => {
                    &&& pumped == Pumped::<C, E>::Done(Err(error))
                    &&& final(events)@ == old(events)@
                    &&& final(self).backoff_index == old(self).backoff_index
                },
                Wake::TimedOut | Wake::Polled(Ok(0)) => {
                    &&& pumped == Pumped::<C, E>::Again
                    &&& final(events)@ == old(events)@
                    &&& final(self).backoff_index == snoozed(old(self).backoff_index)
                },
                Wake::Polled(Ok(_)) => {
                    &&& final(events)@.buffer == Seq::<Completion<C>>::empty()
                    &&& final(events)@.stored == filed(
                        old(events)@.stored,
                        old(events)@.buffer,
                        old(self).key,
                    )
                    &&& match latest(old(events)@.buffer, old(self).key) {
                        Some(own) => {
                            &&& pumped == Pumped::<C, E>::Done(Ok(own))
                            &&& final(self).backoff_index == old(self).backoff_index
                        },
                        None => {
                            &&& pumped == Pumped::<C, E>::Again
                            &&& final(self).backoff_index == 0
                        },
                    }
                },
            },
            pumped matches Pumped::Done(Ok(completion)) ==> completion.key == old(self).key,
    {
        let delivered: usize = match wake {
            Wake::TimedOut => 0,
            Wake::Polled(Ok(delivered)) => delivered,
            Wake::Polled(Err(error)) => {
                return Pumped::Done(Err(error));
            },
        };
        if delivered == 0 {
            self.backoff_index = self.backoff_index.saturating_add(1);
            Pumped::Again
        } else {
            match events.sort(self.key) {
                Some(completion) => Pumped::Done(Ok(completion)),
                None => {
                    self.backoff_index = 0;
                    Pumped::Again
                },
            }
        }
    }
}

/// The latest completion of a key has that key.
proof fn lemma_latest_has_the_key<C>(buffer: Seq<Completion<C>>, key: u64)
    ensures
        latest(buffer, key) matches Some(completion) ==> completion.key == key,
    decreases buffer.len(),
{
    if buffer.len() > 0 {
        lemma_latest_has_the_key(buffer.drop_last(), key);
    }
}

proof fn lemma_latest_is_the_only_one<C>(buffer: Seq<Completion<C>>, i: int)
    requires
        0 <= i < buffer.len(),
        forall|a: int, b: int| 0 <= a < b < buffer.len() ==> buffer[a].key != buffer[b].key,
    ensures
        latest(buffer, buffer[i].key) == Some(buffer[i]),
    decreases buffer.len(),
{
    if i < buffer.len() - 1 {
        lemma_latest_is_the_only_one(buffer.drop_last(), i);
        assert(buffer.drop_last()[i] == buffer[i]);
    }
}

/// A task gets the last of the delivered completions that have its key.
pub proof fn law_the_last_completion_counts<C>(buffer: Seq<Completion<C>>, i: int)
    requires
        0 <= i < buffer.len(),
        forall|j: int| i < j < buffer.len() ==> (#[trigger] buffer[j]).key != buffer[i].key,
    ensures
        latest(buffer, buffer[i].key) == Some(buffer[i]),
    decreases buffer.len(),
{
    if i < buffer.len() - 1 {
        assert(buffer.drop_last()[i] == buffer[i]);
        assert forall|j: int| i < j < buffer.drop_last().len() implies (
        #[trigger] buffer.drop_last()[j]).key != buffer.drop_last()[i].key by {
            assert(buffer.drop_last()[j] == buffer[j]);
        }
        law_the_last_completion_counts(buffer.drop_last(), i);
    }
}

/// A task gets nothing where no delivered completion has its key.
pub proof fn law_foreign_completions_do_not_count<C>(buffer: Seq<Completion<C>>, key: u64)
    requires
        forall|j: int| 0 <= j < buffer.len() ==> (#[trigger] buffer[j]).key != key,
    ensures
        latest(buffer, key) is None,
    decreases buffer.len(),
{
    if buffer.len() > 0 {
        assert forall|j: int| 0 <= j < buffer.drop_last().len() implies (
        #[trigger] buffer.drop_last()[j]).key != key by {
            assert(buffer.drop_last()[j] == buffer[j]);
        }
        law_foreign_completions_do_not_count(buffer.drop_last(), key);
    }
}

/// No completion is lost. When every operation completes once, each completion that a task
/// sorts is either the one it waits for, which it gets, or is filed under its own key.
pub proof fn law_no_completion_is_lost<C>(
    stored: Map<u64, Completion<C>>,
    buffer: Seq<Completion<C>>,
    key: u64,
    i: int,
)
    requires
        0 <= i < buffer.len(),
        forall|a: int, b: int| 0 <= a < b < buffer.len() ==> buffer[a].key != buffer[b].key,
    ensures
        buffer[i].key == key ==> latest(buffer, key) == Some(buffer[i]),
        buffer[i].key != key ==> filed(stored, buffer, key).contains_key(buffer[i].key) && filed(
            stored,
            buffer,
            key,
        )[buffer[i].key] == buffer[i],
{
    lemma_latest_is_the_only_one(buffer, i);
}

/// A completion stays filed until its own task comes: sorting a buffer that holds no
/// completion of `other`, and taking out the completion of another key, leave it there.
pub proof fn law_filed_completions_stay<C>(
    stored: Map<u64, Completion<C>>,
    buffer: Seq<Completion<C>>,
    key: u64,
    other: u64,
)
    requires
        stored.contains_key(other),
        latest(buffer, other) is None,
    ensures
        filed(stored, buffer, key).contains_key(other),
        filed(stored, buffer, key)[other] == stored[other],
        other != key ==> stored.remove(key).contains_key(other) && stored.remove(key)[other]
            == stored[other],
{
}

/// Nothing is filed that was not delivered, and nothing under the key of the sorting task.
pub proof fn law_only_delivered_completions_are_filed<C>(
    stored: Map<u64, Completion<C>>,
    buffer: Seq<Completion<C>>,
    key: u64,
    other: u64,
)
    requires
        filed(stored, buffer, key).contains_key(other),
    ensures
        ({
            ||| stored.contains_key(other) && filed(stored, buffer, key)[other] == stored[other]
            ||| other != key && buffer.contains(filed(stored, buffer, key)[other])
        }),
{
    if other != key && latest(buffer, other) is Some {
        lemma_latest_is_in_the_buffer(buffer, other);
    }
}

proof fn lemma_latest_is_in_the_buffer<C>(buffer: Seq<Completion<C>>, key: u64)
    ensures
        latest(buffer, key) matches Some(completion) ==> buffer.contains(completion),
    decreases buffer.len(),
{
    if buffer.len() > 0 {
        if buffer.last().key == key {
            assert(buffer[buffer.len() - 1] == buffer.last());
        } else {
            lemma_latest_is_in_the_buffer(buffer.drop_last(), key);
            if let Some(completion) = latest(buffer.drop_last(), key) {
                let i = choose|i: int|
                    0 <= i < buffer.drop_last().len() && buffer.drop_last()[i] == completion;
                assert(buffer[i] == completion);
            }
        }
    }
}

/// A task finds the completion that another task sorted for it.
pub proof fn law_a_task_finds_what_another_sorted<C>(
    stored: Map<u64, Completion<C>>,
    buffer: Seq<Completion<C>>,
    sorter: u64,
    waiter: u64,
)
    requires
        sorter != waiter,
    ensures
        latest(buffer, waiter) matches Some(completion) ==> filed(
            stored,
            buffer,
            sorter,
        ).contains_key(waiter) && filed(stored, buffer, sorter)[waiter] == completion,
{
}

/// The number of fruitless polls in a row that a task counts after `n` of them.
pub open spec fn snoozes_after(n: nat) -> usize
    decreases n,
{
    if n == 0 {
        0
    } else {
        snoozed(snoozes_after((n - 1) as nat))
    }
}

/// A waiting task is patient by degrees: as long as polls are limited each is longer than the
/// one before, and from some point on they are not limited any more.
pub proof fn law_backoff_grows(n: nat)
    ensures
        n < delays().len() ==> time_limit(snoozes_after(n)) == Some(delays()[n as int]),
        n + 1 < delays().len() ==> delays()[n as int] < delays()[n as int + 1],
        n >= delays().len() ==> time_limit(snoozes_after(n)) is None,
{
    lemma_snoozes_after(n);
}

proof fn lemma_snoozes_after(n: nat)
    ensures
        snoozes_after(n) == (if n < usize::MAX {
            n as usize
        } else {
            usize::MAX
        }),
    decreases n,
{
    if n > 0 {
        lemma_snoozes_after((n - 1) as nat);
    }
}

} // verus!
