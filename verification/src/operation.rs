//! Single reads and writes: what to do, in which order, and what comes out.
//!
//! An operation alternates work that only a thread pool or a completion queue can do with
//! decisions about what to do next. The decisions are [`Run::step`]; whoever runs the operation
//! does what it says and reports what happened.
use crate::handle::{Handle, RawContainer, Repr};
use crate::seek::SeekFrom;
use vstd::prelude::*;
use vstd::std_specs::convert::FromSpecImpl;

verus! {

/// Which way the bytes go.
#[derive(Debug, Copy, Clone, PartialEq, Eq, Structural)]
pub enum Direction {
    /// From the object into the buffer.
    Read,
    /// From the buffer into the object.
    Write,
}

/// A read into, or a write from, a buffer at a position of an object.
#[derive(Debug)]
pub struct Transfer<B> {
    /// Which way the bytes go.
    pub direction: Direction,
    /// The buffer, which belongs to the transfer until it is over.
    pub buffer: B,
    /// The position in the object.
    pub offset: u64,
}

/// What a thread of the pool does once the object has been asked to move.
#[derive(Debug)]
pub enum Positioned<B, E> {
    /// Read or write.
    Perform(Transfer<B>),
    /// Give back the buffer with this error.
    Fail(B, E),
}

impl<B> Transfer<B> {
    /// Where a thread of the pool asks the object to move before it reads or writes.
    pub fn target(&self) -> (target: SeekFrom)
        ensures
            target == SeekFrom::Start(self.offset),
    {
        SeekFrom::Start(self.offset)
    }

    /// Go on, on a thread of the pool, after the object was asked to move. An object that
    /// ignores the request is read or written where it stands.
    pub fn sought<E>(self, moved: Result<Option<u64>, E>) -> (positioned: Positioned<B, E>)
        ensures
            positioned == (match moved {
                Ok(_) => Positioned::Perform(self),
                Err(error) => Positioned::Fail(self.buffer, error),
            }),
    {
        match moved {
            Ok(_) => Positioned::Perform(self),
            Err(error) => Positioned::Fail(self.buffer, error),
        }
    }
}

/// A buffer that can be moved out.
#[derive(Debug)]
pub struct MovableBuf<B>(Option<B>);

impl<B> View for MovableBuf<B> {
    type V = Option<B>;

    closed spec fn view(&self) -> Option<B> {
        self.0
    }
}

impl<B> From<B> for MovableBuf<B> {
    fn from(buf: B) -> (movable: Self)
        ensures
            movable@ == Some(buf),
    {
        MovableBuf(Some(buf))
    }
}

impl<B> FromSpecImpl<B> for MovableBuf<B> {
    open spec fn obeys_from_spec() -> bool {
        false
    }

    open spec fn from_spec(buf: B) -> Self {
        arbitrary()
    }
}

impl<B> MovableBuf<B> {
    /// The buffer, if it has not been moved out.
    pub fn get(&self) -> (held: Option<&B>)
        ensures
            held == (match self@ {
                Some(buf) => Some(&buf),
                None => None,
            }),
    {
        self.0.as_ref()
    }

    /// Move the buffer out.
    pub fn take(&mut self) -> (taken: Option<B>)
        ensures
            taken == old(self)@,
            final(self)@ == None::<B>,
    {
        self.0.take()
    }
}

/// The count of transferred bytes that the completion queue reports, as an unsigned number.
pub open spec fn unsigned_count(result: isize) -> usize {
    if result < 0 {
        (result + usize::MAX + 1) as usize
    } else {
        result as usize
    }
}

/// Convert the count of transferred bytes that the completion queue reports.
pub fn transferred(result: isize) -> (count: usize)
    ensures
        count == unsigned_count(result),
{
    let count: usize = #[verifier::truncate] (result as usize);
    assert(count == (if result >= 0 {
        result as int
    } else if usize::BITS == 32 {
        result + 0x1_0000_0000
    } else {
        result + 0x1_0000_0000_0000_0000
    })) by (bit_vector)
        requires
            count == result as usize,
    ;
    count
}

/// Where an operation stands.
#[derive(Debug)]
pub enum Run<B, E> {
    /// The thread pool has the operation.
    OnPool,
    /// The operation needs a key.
    Unkeyed {
        /// The raw handle of the object.
        raw: RawContainer,
        /// The operation.
        transfer: Transfer<B>,
    },
    /// The operation has been handed to the completion queue.
    Submitting {
        /// The key of the operation.
        key: u64,
    },
    /// The task waits for the completion.
    Waiting {
        /// The key of the operation.
        key: u64,
    },
    /// The operation is over, and its buffer is coming back.
    Unlocking,
    /// The wait failed with this error, and the operation is being cancelled.
    Cancelling(E),
    /// The result has been returned.
    Finished,
}

/// What happened to an operation.
#[derive(Debug)]
pub enum Happened<B, C, E> {
    /// The thread pool ran the operation.
    Ran(B, Result<usize, E>),
    /// The operation got this key.
    Keyed(u64),
    /// The completion queue accepted the operation, or did not.
    Submitted(Result<(), E>),
    /// The operation completed, or waiting for it failed.
    Waited(Result<C, E>),
    /// The buffer of the completed operation came back, with the result.
    Unlocked(B, Result<isize, E>),
    /// The buffer of the cancelled operation came back.
    Cancelled(B),
}

/// What to do next with an operation.
#[derive(Debug)]
pub enum Next<B, C, E> {
    /// Run this on the thread pool.
    RunOnPool(Transfer<B>),
    /// Get a key for the operation.
    GetKey,
    /// Submit the operation to the completion queue.
    Submit {
        /// The key of the operation.
        key: u64,
        /// The raw handle of the object.
        raw: RawContainer,
        /// The operation, with a buffer that can be moved out once it is over.
        transfer: Transfer<MovableBuf<B>>,
    },
    /// Wait for the completion of the operation with this key.
    Wait(u64),
    /// Unlock the operation that this completes, and move its buffer out.
    Unlock(C),
    /// Cancel the operation, and move its buffer out.
    Cancel,
    /// Return this.
    Return(B, Result<usize, E>),
}

impl<B, E> Run<B, E> {
    /// The things that can happen to an operation that stands here.
    pub open spec fn awaits<C>(self, happened: Happened<B, C, E>) -> bool {
        match happened {
            Happened::Ran(..) => self is OnPool,
            Happened::Keyed(_) => self is Unkeyed,
            Happened::Submitted(_) => self is Submitting,
            Happened::Waited(_) => self is Waiting,
            Happened::Unlocked(..) => self is Unlocking,
            Happened::Cancelled(_) => self is Cancelling,
        }
    }

    /// Where the operation stands after something happened to it.
    pub open spec fn after<C>(self, happened: Happened<B, C, E>) -> Run<B, E> {
        match happened {
            Happened::Keyed(key) => Run::Submitting { key },
            Happened::Submitted(_) => Run::Waiting { key: self->Submitting_key },
            Happened::Waited(Ok(_)) => Run::Unlocking,
            Happened::Waited(Err(error)) => Run::Cancelling(error),
            _ => Run::Finished,
        }
    }

    /// What is to be done after something happened to the operation.
    pub open spec fn calls_for<C>(
        self,
        happened: Happened<B, C, E>,
        next: Next<B, C, E>,
    ) -> bool {
        match happened {
            // What the pool says is returned as it is.
            Happened::Ran(buffer, result) => next == Next::<B, C, E>::Return(buffer, result),
            Happened::Keyed(key) => {
                &&& next matches Next::Submit { key: k, raw, transfer }
                &&& k == key
                &&& raw == self->raw
                &&& transfer.direction == self->transfer.direction
                &&& transfer.buffer@ == Some(self->transfer.buffer)
                &&& transfer.offset == self->transfer.offset
            },
            // An operation that was not accepted is waited for all the same.
            Happened::Submitted(_) => next == Next::<B, C, E>::Wait(self->Submitting_key),
            Happened::Waited(Ok(completion)) => next == Next::<B, C, E>::Unlock(completion),
            Happened::Waited(Err(_)) => next == Next::<B, C, E>::Cancel,
            Happened::Unlocked(buffer, Ok(count)) => next == Next::<B, C, E>::Return(
                buffer,
                Ok(unsigned_count(count)),
            ),
            Happened::Unlocked(buffer, Err(error)) => next == Next::<B, C, E>::Return(
                buffer,
                Err(error),
            ),
            Happened::Cancelled(buffer) => next == Next::<B, C, E>::Return(
                buffer,
                Err(self->Cancelling_0),
            ),
        }
    }

    /// Go on with the operation after something happened to it.
    pub fn step<C>(self, happened: Happened<B, C, E>) -> (went_on: (Run<B, E>, Next<B, C, E>))
        requires
            self.awaits(happened),
        ensures
            went_on.0 == self.after(happened),
            self.calls_for(happened, went_on.1),
    {
        match (self, happened) {
            (Run::OnPool, Happened::Ran(buffer, result)) => (
                Run::Finished,
                Next::Return(buffer, result),
            ),
            (Run::Unkeyed { raw, transfer }, Happened::Keyed(key)) => {
                let Transfer { direction, buffer, offset } = transfer;
                let transfer = Transfer { direction, buffer: MovableBuf::from(buffer), offset };
                (Run::Submitting { key }, Next::Submit { key, raw, transfer })
            },
            (Run::Submitting { key }, Happened::Submitted(_)) => (
                Run::Waiting { key },
                Next::Wait(key),
            ),
            (Run::Waiting { .. }, Happened::Waited(Ok(completion))) => (
                Run::Unlocking,
                Next::Unlock(completion),
            ),
            (Run::Waiting { .. }, Happened::Waited(Err(error))) => (
                Run::Cancelling(error),
                Next::Cancel,
            ),
            (Run::Unlocking, Happened::Unlocked(buffer, Ok(count))) => (
                Run::Finished,
                Next::Return(buffer, Ok(transferred(count))),
            ),
            (Run::Unlocking, Happened::Unlocked(buffer, Err(error))) => (
                Run::Finished,
                Next::Return(buffer, Err(error)),
            ),
            (Run::Cancelling(error), Happened::Cancelled(buffer)) => (
                Run::Finished,
                Next::Return(buffer, Err(error)),
            ),
            _ => {
                assert(false);
                (Run::Finished, Next::Cancel)
            },
        }
    }
}

/// Where an operation on a handle of this kind stands at first, and what to do first.
pub open spec fn begun<T, B, C, E>(handle: Repr<T>, transfer: Transfer<B>) -> (
    Run<B, E>,
    Next<B, C, E>,
) {
    match handle {
        Repr::Blocking(_) => (Run::OnPool, Next::RunOnPool(transfer)),
        Repr::Submission { raw, .. } => (Run::Unkeyed { raw, transfer }, Next::GetKey),
    }
}

impl<T> Handle<T> {
    /// Run the operation on either the thread pool or the completion queue.
    pub fn run_operation<B, C, E>(&self, transfer: Transfer<B>) -> (started: (
        Run<B, E>,
        Next<B, C, E>,
    ))
        ensures
            started == begun::<T, B, C, E>(self@, transfer),
    {
        match self.raw() {
            None => (Run::OnPool, Next::RunOnPool(transfer)),
            Some(raw) => (Run::Unkeyed { raw, transfer }, Next::GetKey),
        }
    }

    /// Read into the given buffer at the given offset.
    ///
    /// The operation owns the buffer until it is over, and gives it back alongside the number
    /// of bytes read.
    pub fn read_into<B, C, E>(&self, buf: B, offset: u64) -> (started: (Run<B, E>, Next<B, C, E>))
        ensures
            started == begun::<T, B, C, E>(
                self@,
                (Transfer { direction: Direction::Read, buffer: buf, offset }),
            ),
    {
        self.run_operation(Transfer { direction: Direction::Read, buffer: buf, offset })
    }

    /// Write from the buffer at the given offset.
    ///
    /// The operation owns the buffer until it is over, and gives it back alongside the number
    /// of bytes written.
    pub fn write_from<B, C, E>(&self, buf: B, offset: u64) -> (started: (Run<B, E>, Next<B, C, E>))
        ensures
            started == begun::<T, B, C, E>(
                self@,
                (Transfer { direction: Direction::Write, buffer: buf, offset }),
            ),
    {
        self.run_operation(Transfer { direction: Direction::Write, buffer: buf, offset })
    }
}

/// An operation on the completion queue, from beginning to end, when it completes. Whatever
/// the queue says when the operation is submitted, the task waits for the key under which it
/// was submitted, unlocks the operation with that completion, and returns the buffer that comes
/// back, together with the count or the error that the completion carries.
pub proof fn law_completed_operation<T, B, C, E>(
    io: T,
    raw: RawContainer,
    transfer: Transfer<B>,
    key: u64,
    accepted: Result<(), E>,
    completion: C,
    buffer: B,
    result: Result<isize, E>,
)
    ensures
        ({
            let keyed = Happened::<B, C, E>::Keyed(key);
            let submitted = Happened::<B, C, E>::Submitted(accepted);
            let waited = Happened::<B, C, E>::Waited(Ok(completion));
            let unlocked = Happened::<B, C, E>::Unlocked(buffer, result);
            let (s0, n0) = begun::<T, B, C, E>(Repr::Submission { io, raw }, transfer);
            let s1 = s0.after(keyed);
            let s2 = s1.after(submitted);
            let s3 = s2.after(waited);
            &&& n0 is GetKey
            &&& s0.awaits(keyed)
            &&& forall|next: Next<B, C, E>| #[trigger]
                s0.calls_for(keyed, next) ==> {
                    &&& next matches Next::Submit { key: k, raw: r, transfer: t }
                    &&& k == key
                    &&& r == raw
                    &&& t.direction == transfer.direction
                    &&& t.buffer@ == Some(transfer.buffer)
                    &&& t.offset == transfer.offset
                }
            &&& s1.awaits(submitted)
            &&& forall|next: Next<B, C, E>| #[trigger]
                s1.calls_for(submitted, next) ==> next == Next::<B, C, E>::Wait(key)
            &&& s2.awaits(waited)
            &&& forall|next: Next<B, C, E>| #[trigger]
                s2.calls_for(waited, next) ==> next == Next::<B, C, E>::Unlock(completion)
            &&& s3.awaits(unlocked)
            &&& forall|next: Next<B, C, E>| #[trigger]
                s3.calls_for(unlocked, next) ==> next == Next::<B, C, E>::Return(
                    buffer,
                    match result {
                        Ok(count) => Ok(unsigned_count(count)),
                        Err(error) => Err(error),
                    },
                )
            &&& s3.after(unlocked) is Finished
        }),
{
}

/// An operation on the thread pool is handed over as a whole, and what the pool says is
/// returned as it is.
pub proof fn law_pooled_operation<T, B, C, E>(
    pool: blocking::Unblock<T>,
    transfer: Transfer<B>,
    buffer: B,
    result: Result<usize, E>,
)
    ensures
        ({
            let ran = Happened::<B, C, E>::Ran(buffer, result);
            let (s0, n0) = begun::<T, B, C, E>(Repr::Blocking(pool), transfer);
            &&& n0 == Next::<B, C, E>::RunOnPool(transfer)
            &&& s0.awaits(ran)
            &&& forall|next: Next<B, C, E>| #[trigger]
                s0.calls_for(ran, next) ==> next == Next::<B, C, E>::Return(buffer, result)
            &&& s0.after(ran) is Finished
        }),
{
}

/// When waiting for an operation fails, the operation is cancelled before anything is returned,
/// and the buffer comes back with the error.
pub proof fn law_failed_wait_gives_the_buffer_back<B, C, E>(key: u64, error: E, buffer: B)
    ensures
        ({
            let waiting = Run::<B, E>::Waiting { key };
            let waited = Happened::<B, C, E>::Waited(Err(error));
            let cancelled = Happened::<B, C, E>::Cancelled(buffer);
            &&& waiting.awaits(waited)
            &&& forall|next: Next<B, C, E>| #[trigger]
                waiting.calls_for(waited, next) ==> next is Cancel
            &&& waiting.after(waited).awaits(cancelled)
            &&& forall|next: Next<B, C, E>| #[trigger]
                waiting.after(waited).calls_for(cancelled, next) ==> next
                    == Next::<B, C, E>::Return(buffer, Err(error))
            &&& waiting.after(waited).after(cancelled) is Finished
        }),
{
}

/// An operation returns once: it is finished exactly when it calls for a return, and nothing
/// can happen to it any more.
pub proof fn law_operations_return_once<B, C, E>(
    run: Run<B, E>,
    happened: Happened<B, C, E>,
    next: Next<B, C, E>,
)
    requires
        run.awaits(happened),
        run.calls_for(happened, next),
    ensures
        next is Return <==> run.after(happened) is Finished,
        forall|later: Happened<B, C, E>| run.after(happened) is Finished ==> !(#[trigger] run.after(
            happened,
        ).awaits(later)),
{
}

/// How many things have yet to happen to an operation before it returns.
pub open spec fn steps_left<B, E>(run: Run<B, E>) -> nat {
    match run {
        Run::Unkeyed { .. } => 4,
        Run::Submitting { .. } => 3,
        Run::Waiting { .. } => 2,
        Run::OnPool | Run::Unlocking | Run::Cancelling(_) => 1,
        Run::Finished => 0,
    }
}

/// Every operation comes to an end: each thing that happens to it brings it one step closer.
pub proof fn law_operations_end<B, C, E>(run: Run<B, E>, happened: Happened<B, C, E>)
    requires
        run.awaits(happened),
    ensures
        steps_left(run.after(happened)) == steps_left(run) - 1,
{
}

} // verus!
