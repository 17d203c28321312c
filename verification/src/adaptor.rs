//! A handle that keeps a position and a buffer of its own.
//!
//! An [`Adaptor`] decides what a poll does; whoever polls it does the work that only a thread
//! pool or a task can do, and hands the outcome back.
use crate::handle::{call, Access, Handle, RawContainer, Repr};
use crate::operation::{Direction, Happened, Next, Transfer};
use crate::seek::{advance, displace, SeekFrom};
use vstd::prelude::*;
use vstd::std_specs::convert::FromSpecImpl;

verus! {

/// A handle with a buffer and a position: an adaptor at rest, or an operation for a task to run,
/// which reads into or writes from `buffer` at `offset`.
#[verifier::reject_recursive_types(T)]
pub struct Request<T> {
    /// The inner I/O handle.
    pub io: Handle<T>,
    /// A flexible buffer for reads and writes.
    pub buffer: Vec<u8>,
    /// The current offset.
    pub offset: u64,
}

/// What a task gives back when its operation is over.
#[verifier::reject_recursive_types(T)]
pub struct Outcome<T, E> {
    /// The inner I/O handle.
    pub io: Handle<T>,
    /// The buffer that was read into or written from.
    pub buffer: Vec<u8>,
    /// The position of the operation.
    pub offset: u64,
    /// The number of bytes transferred.
    pub result: Result<usize, E>,
}

/// What a poll for reading or writing does.
#[verifier::reject_recursive_types(T)]
pub enum Step<T> {
    /// Poll the thread pool, and return what it says.
    Pool,
    /// Make a task of this request and begin with it.
    Start(Request<T>),
    /// Poll the task, and end with its outcome once it is ready.
    Task,
}

/// What a poll for flushing does.
#[derive(Debug, Copy, Clone, PartialEq, Eq, Structural)]
pub enum Flush {
    /// Poll the thread pool, and return what it says.
    Pool,
    /// Flush the object, and return what it says.
    Object,
}

/// What a poll for closing does.
#[derive(Debug, Copy, Clone, PartialEq, Eq, Structural)]
pub enum Close {
    /// Poll the thread pool, and return what it says.
    Pool,
    /// Return success: there is nothing to do.
    Closed,
}

/// What a poll for seeking does.
#[derive(Debug, Copy, Clone, PartialEq, Eq, Structural)]
pub enum Seek {
    /// Poll the thread pool, and return what it says.
    Pool,
    /// Return the new position.
    Moved(u64),
    /// Return the error for operations that are not supported.
    Unsupported,
    /// Return the error for invalid input: the position is before byte 0.
    Invalid,
}

/// What a [`Request`] holds.
#[verifier::ext_equal]
#[verifier::reject_recursive_types(T)]
pub struct Rest<T> {
    /// The inner I/O handle.
    pub io: Repr<T>,
    /// The contents of the buffer.
    pub buffer: Seq<u8>,
    /// The position in the object.
    pub offset: u64,
}

/// What a [`Step`] says.
#[verifier::ext_equal]
#[verifier::reject_recursive_types(T)]
pub enum StepView<T> {
    /// Poll the thread pool.
    Pool,
    /// Make a task of this request.
    Start(Rest<T>),
    /// Poll the task.
    Task,
}

impl<T> View for Request<T> {
    type V = Rest<T>;

    open spec fn view(&self) -> Rest<T> {
        Rest { io: self.io@, buffer: self.buffer@, offset: self.offset }
    }
}

impl<T> View for Step<T> {
    type V = StepView<T>;

    open spec fn view(&self) -> StepView<T> {
        match *self {
            Step::Pool => StepView::Pool,
            Step::Start(request) => StepView::Start(request@),
            Step::Task => StepView::Task,
        }
    }
}

/// What an adaptor is doing.
#[verifier::ext_equal]
#[verifier::reject_recursive_types(T)]
#[verifier::reject_recursive_types(K)]
pub enum Phase<T, K> {
    /// Nothing.
    Idle(Rest<T>),
    /// Reading; the task is here.
    Reading(K),
    /// Writing; the task is here.
    Writing(K),
    /// A request to move bytes this way has been given out, and no task has come for it yet.
    Hole(Direction),
}

/// What an adaptor is doing.
#[derive(Debug, Copy, Clone, PartialEq, Eq, Structural)]
pub enum Activity {
    /// Nothing.
    Idle,
    /// Reading.
    Reading,
    /// Writing.
    Writing,
    /// Waiting for the task of a request to move bytes this way.
    Hole(Direction),
}

#[verifier::reject_recursive_types(T)]
#[verifier::reject_recursive_types(K)]
enum State<T, K> {
    /// We are not doing anything.
    Idle(Request<T>),
    /// We are reading.
    Reading(K),
    /// We are writing.
    Writing(K),
    /// Temporary placeholder value, while a request to move bytes this way is given out.
    Hole(Direction),
}

/// An adaptor around a [`Handle`] that has a position and an internal buffer.
///
/// This provides a higher-level interface to [`Handle`] that is compatible with asynchronous
/// I/O traits. `K` is the task that runs an operation of the handle.
#[verifier::reject_recursive_types(T)]
#[verifier::reject_recursive_types(K)]
pub struct Adaptor<T, K>(State<T, K>);

impl<T, K> View for Adaptor<T, K> {
    type V = Phase<T, K>;

    closed spec fn view(&self) -> Phase<T, K> {
        match self.0 {
            State::Idle(idle) => Phase::Idle(idle@),
            State::Reading(task) => Phase::Reading(task),
            State::Writing(task) => Phase::Writing(task),
            State::Hole(direction) => Phase::Hole(direction),
        }
    }
}

/// `buffer`, lengthened with zeros to at least `len` bytes.
pub open spec fn lengthened(buffer: Seq<u8>, len: nat) -> Seq<u8> {
    if buffer.len() < len {
        buffer + Seq::new((len - buffer.len()) as nat, |i: int| 0u8)
    } else {
        buffer
    }
}

/// `target` with its first bytes replaced by the first `count` bytes of `source`.
pub open spec fn overwritten(target: Seq<u8>, source: Seq<u8>, count: int) -> Seq<u8> {
    source.take(count) + target.skip(count)
}

/// `count`, or `len` where that is less.
pub open spec fn shorter(count: int, len: nat) -> int {
    if count <= len {
        count
    } else {
        len as int
    }
}

impl<T, K> Phase<T, K> {
    /// At rest at the start of the object.
    pub open spec fn fresh(handle: Repr<T>) -> Phase<T, K> {
        Phase::Idle(Rest { io: handle, buffer: Seq::empty(), offset: 0 })
    }

    /// At rest, on a thread pool.
    pub open spec fn is_pooled(self) -> bool {
        self matches Phase::Idle(rest) && rest.io is Blocking
    }

    /// The adaptor can be polled for reading.
    pub open spec fn can_read(self) -> bool {
        self is Idle || self is Reading
    }

    /// The adaptor can be polled for writing.
    pub open spec fn can_write(self) -> bool {
        self is Idle || self is Writing
    }

    /// What a poll for reading `len` bytes does, and what the adaptor is doing then.
    pub open spec fn read_polled(self, len: nat) -> (Phase<T, K>, StepView<T>) {
        match self {
            Phase::Idle(rest) => if rest.io is Blocking {
                (self, StepView::Pool)
            } else {
                (
                    Phase::Hole(Direction::Read),
                    StepView::Start(Rest { buffer: lengthened(rest.buffer, len), ..rest }),
                )
            },
            _ => (self, StepView::Task),
        }
    }

    /// What a poll for writing `data` does, and what the adaptor is doing then.
    pub open spec fn write_polled(self, data: Seq<u8>) -> (Phase<T, K>, StepView<T>) {
        match self {
            Phase::Idle(rest) => if rest.io is Blocking {
                (self, StepView::Pool)
            } else {
                (
                    Phase::Hole(Direction::Write),
                    StepView::Start(Rest { buffer: data, ..rest }),
                )
            },
            _ => (self, StepView::Task),
        }
    }

    /// What a poll for seeking to `pos` does, and what the adaptor is doing then.
    pub open spec fn seek_polled(self, pos: SeekFrom) -> (Phase<T, K>, Seek) {
        match self {
            Phase::Idle(rest) if rest.io is Submission => match pos {
                SeekFrom::Start(offset) => (
                    Phase::Idle(Rest { offset, ..rest }),
                    Seek::Moved(offset),
                ),
                SeekFrom::End(_) => (self, Seek::Unsupported),
                SeekFrom::Current(delta) => match crate::seek::displaced(rest.offset, delta) {
                    Some(offset) => (Phase::Idle(Rest { offset, ..rest }), Seek::Moved(offset)),
                    None => (self, Seek::Invalid),
                },
            },
            _ => (self, Seek::Pool),
        }
    }

    /// At rest after an operation has transferred `count` bytes.
    pub open spec fn rested(outcome: Rest<T>, count: int) -> Phase<T, K> {
        Phase::Idle(Rest { offset: crate::seek::advanced(outcome.offset, count), ..outcome })
    }
}

impl<T, E> Outcome<T, E> {
    /// The handle, the buffer and the position that come back.
    pub open spec fn rest(self) -> Rest<T> {
        Rest { io: self.io@, buffer: self.buffer@, offset: self.offset }
    }

    /// The number of bytes transferred, and none if the operation failed.
    pub open spec fn count(self) -> int {
        match self.result {
            Ok(count) => count as int,
            Err(_) => 0,
        }
    }

    /// The number of bytes read that a caller with room for `len` bytes takes.
    pub open spec fn taken(self, len: nat) -> int {
        shorter(self.count(), len)
    }
}

impl<T, K> From<Handle<T>> for Adaptor<T, K> {
    fn from(val: Handle<T>) -> (adaptor: Self)
        ensures
            adaptor@ == Phase::<T, K>::fresh(val@),
            adaptor.sized(0),
    {
        Self::with_handle_and_capacity(0, val)
    }
}

impl<T, K> FromSpecImpl<Handle<T>> for Adaptor<T, K> {
    open spec fn obeys_from_spec() -> bool {
        false
    }

    open spec fn from_spec(val: Handle<T>) -> Self {
        arbitrary()
    }
}

impl<T, K> Adaptor<T, K> {
    /// Create a new `Adaptor`.
    ///
    /// `registration` is what came of registering the object with the completion queue, and
    /// `None` where there is no queue.
    pub fn new<E>(io: T, registration: Option<Result<RawContainer, E>>) -> (made: Result<Self, E>)
        ensures
            Self::made_of(io, registration, made),
            made matches Ok(adaptor) ==> adaptor.sized(0),
    {
        match Handle::new(io, registration) {
            Ok(handle) => Ok(Self::from(handle)),
            Err(error) => Err(error),
        }
    }

    /// Create a new `Adaptor` with the given capacity.
    ///
    /// `registration` is what came of registering the object with the completion queue, and
    /// `None` where there is no queue.
    pub fn with_capacity<E>(
        capacity: usize,
        io: T,
        registration: Option<Result<RawContainer, E>>,
    ) -> (made: Result<Self, E>)
        requires
            registration matches Some(Err(_)) || capacity <= isize::MAX,
        ensures
            Self::made_of(io, registration, made),
            made matches Ok(adaptor) ==> adaptor.sized(capacity),
    {
        match Handle::new(io, registration) {
            Ok(handle) => Ok(Self::with_handle_and_capacity(capacity, handle)),
            Err(error) => Err(error),
        }
    }

    /// `made` is an adaptor at the start of `io`, unless the registration failed.
    pub open spec fn made_of<E>(
        io: T,
        registration: Option<Result<RawContainer, E>>,
        made: Result<Self, E>,
    ) -> bool {
        exists|handle: Result<Repr<T>, E>| #[trigger]
            crate::handle::made_of(io, registration, handle) && match handle {
                Ok(handle) => made matches Ok(adaptor) && adaptor@ == Phase::<T, K>::fresh(handle),
                Err(error) => made == Err::<Self, E>(error),
            }
    }

    /// The adaptor is at rest, and its buffer is what `Vec::with_capacity` makes for `capacity`.
    pub closed spec fn sized(self, capacity: usize) -> bool {
        self.0 matches State::Idle(idle) && call_ensures(
            Vec::<u8>::with_capacity,
            (capacity,),
            idle.buffer,
        )
    }

    /// Create a new `Adaptor` from a [`Handle`], with the given buffer capacity.
    pub fn with_handle_and_capacity(capacity: usize, io: Handle<T>) -> (adaptor: Self)
        requires
            capacity <= isize::MAX,
        ensures
            adaptor@ == Phase::<T, K>::fresh(io@),
            adaptor.sized(capacity),
    {
        let buffer: Vec<u8> = call(Vec::<u8>::with_capacity, capacity);
        Adaptor(State::Idle(Request { io, buffer, offset: 0 }))
    }

    /// What the adaptor is doing.
    pub fn activity(&self) -> (activity: Activity)
        ensures
            activity == (match self@ {
                Phase::Idle(_) => Activity::Idle,
                Phase::Reading(_) => Activity::Reading,
                Phase::Writing(_) => Activity::Writing,
                Phase::Hole(direction) => Activity::Hole(direction),
            }),
    {
        match &self.0 {
            State::Idle(_) => Activity::Idle,
            State::Reading(_) => Activity::Reading,
            State::Writing(_) => Activity::Writing,
            State::Hole(direction) => Activity::Hole(*direction),
        }
    }

    /// Give out the handle, the buffer and the position, if a completion queue backs them, for
    /// moving bytes this way.
    fn depart(&mut self, direction: Direction) -> (departed: Option<Request<T>>)
        ensures
            match old(self)@ {
                Phase::Idle(rest) => if rest.io is Blocking {
                    departed is None && final(self)@ == old(self)@
                } else {
                    departed matches Some(request) && request@ == rest && final(self)@
                        == Phase::<T, K>::Hole(direction)
                },
                _ => departed is None && final(self)@ == old(self)@,
            },
    {
        let mut state: State<T, K> = State::Hole(direction);
        core::mem::swap(&mut state, &mut self.0);
        match state {
            State::Idle(idle) => if idle.io.is_blocking() {
                self.0 = State::Idle(idle);
                None
            } else {
                Some(idle)
            },
            state => {
                self.0 = state;
                None
            },
        }
    }

    /// Poll for reading into `buf`.
    pub fn poll_read(&mut self, buf: &[u8]) -> (step: Step<T>)
        requires
            old(self)@.can_read(),
        ensures
            (final(self)@, step@) == old(self)@.read_polled(buf@.len()),
    {
        let len: usize = buf.len();
        match self.depart(Direction::Read) {
            Some(request) => {
                // Resize the buffer if needed.
                let Request { io, mut buffer, offset } = request;
                if buffer.len() < len {
                    buffer.resize(len, 0);
                }
                assert(buffer@ == lengthened(old(self)@->Idle_0.buffer, len as nat));
                Step::Start(Request { io, buffer, offset })
            },
            None => match &self.0 {
                State::Idle(_) => Step::Pool,
                _ => Step::Task,
            },
        }
    }

    /// Poll for writing from `buf`.
    pub fn poll_write(&mut self, buf: &[u8]) -> (step: Step<T>)
        requires
            old(self)@.can_write(),
        ensures
            (final(self)@, step@) == old(self)@.write_polled(buf@),
    {
        match self.depart(Direction::Write) {
            Some(request) => {
                // Copy `buf` into our own buffer.
                let Request { io, mut buffer, offset } = request;
                buffer.clear();
                buffer.extend_from_slice(buf);
                assert(buffer@ == buf@);
                Step::Start(Request { io, buffer, offset })
            },
            None => match &self.0 {
                State::Idle(_) => Step::Pool,
                _ => Step::Task,
            },
        }
    }

    /// Begin to read, by the task of the request that a poll for reading gave out.
    pub fn begin_read(&mut self, task: K)
        requires
            old(self)@ == Phase::<T, K>::Hole(Direction::Read),
        ensures
            final(self)@ == Phase::<T, K>::Reading(task),
    {
        self.0 = State::Reading(task);
    }

    /// Begin to write, by the task of the request that a poll for writing gave out.
    pub fn begin_write(&mut self, task: K)
        requires
            old(self)@ == Phase::<T, K>::Hole(Direction::Write),
        ensures
            final(self)@ == Phase::<T, K>::Writing(task),
    {
        self.0 = State::Writing(task);
    }

    /// The task that is reading or writing.
    pub fn task(&mut self) -> (task: Option<&mut K>)
        ensures
            match old(self)@ {
                Phase::Reading(current) => task matches Some(borrowed) && *borrowed == current
                    && final(self)@ == Phase::<T, K>::Reading(*final(borrowed)),
                Phase::Writing(current) => task matches Some(borrowed) && *borrowed == current
                    && final(self)@ == Phase::<T, K>::Writing(*final(borrowed)),
                _ => task is None && final(self)@ == old(self)@,
            },
    {
        match &mut self.0 {
            State::Reading(task) => Some(task),
            State::Writing(task) => Some(task),
            _ => None,
        }
    }

    /// What the adaptor wraps, while it is not doing anything.
    pub fn inner(&mut self) -> (inner: Option<Access<'_, T>>)
        ensures
            match old(self)@ {
                Phase::Idle(rest) => match rest.io {
                    Repr::Blocking(pool) => inner matches Some(Access::Pool(borrowed)) && *borrowed
                        == pool && final(self)@ == Phase::<T, K>::Idle(
                        Rest { io: Repr::Blocking(*final(borrowed)), ..rest },
                    ),
                    Repr::Submission { io, raw } => inner matches Some(Access::Object(borrowed))
                        && *borrowed == io && final(self)@ == Phase::<T, K>::Idle(
                        Rest { io: Repr::Submission { io: *final(borrowed), raw }, ..rest },
                    ),
                },
                _ => inner is None && final(self)@ == old(self)@,
            },
    {
        match &mut self.0 {
            State::Idle(idle) => Some(idle.io.get_mut()),
            _ => None,
        }
    }

    /// End a read, and copy what was read into `buf`.
    ///
    /// A task may have read more than `buf` holds: the internal buffer can be longer, and `buf`
    /// can be shorter than when the read began. The caller takes what fits, and the position
    /// stops behind that, so that the rest is read again next time.
    pub fn end_read<E>(&mut self, outcome: Outcome<T, E>, buf: &mut [u8]) -> (read: Result<
        usize,
        E,
    >)
        requires
            old(self)@ is Reading,
            outcome.count() <= outcome.buffer@.len(),
        ensures
            match outcome.result {
                Ok(_) => read matches Ok(count) && count == outcome.taken(old(buf)@.len()),
                Err(error) => read == Err::<usize, E>(error),
            },
            final(self)@ == Phase::<T, K>::rested(
                outcome.rest(),
                outcome.taken(old(buf)@.len()),
            ),
            final(buf)@ == overwritten(
                old(buf)@,
                outcome.buffer@,
                outcome.taken(old(buf)@.len()),
            ),
    {
        let Outcome { io, buffer, offset, result } = outcome;
        let room: usize = buf.len();
        let (increase, read): (usize, Result<usize, E>) = match result {
            Ok(count) => {
                let taken: usize = if count <= room {
                    count
                } else {
                    room
                };
                (taken, Ok(taken))
            },
            Err(error) => (0, Err(error)),
        };
        copy(buf, &buffer, increase);
        self.0 = State::Idle(Request { io, buffer, offset: advance(offset, increase) });
        read
    }

    /// End a write.
    pub fn end_write<E>(&mut self, outcome: Outcome<T, E>) -> (written: Result<usize, E>)
        requires
            old(self)@ is Writing,
        ensures
            written == outcome.result,
            final(self)@ == Phase::<T, K>::rested(outcome.rest(), outcome.count()),
    {
        let Outcome { io, buffer, offset, result } = outcome;
        let increase: usize = match &result {
            Ok(increase) => *increase,
            Err(_) => 0,
        };
        self.0 = State::Idle(Request { io, buffer, offset: advance(offset, increase) });
        result
    }

    /// Poll for flushing.
    pub fn poll_flush(&self) -> (flush: Flush)
        requires
            self@ is Idle,
        ensures
            flush == (if self@.is_pooled() {
                Flush::Pool
            } else {
                Flush::Object
            }),
    {
        match &self.0 {
            State::Idle(idle) if !idle.io.is_blocking() => Flush::Object,
            _ => Flush::Pool,
        }
    }

    /// Poll for closing.
    pub fn poll_close(&self) -> (close: Close)
        requires
            self@ is Idle,
        ensures
            close == (if self@.is_pooled() {
                Close::Pool
            } else {
                Close::Closed
            }),
    {
        match &self.0 {
            State::Idle(idle) if !idle.io.is_blocking() => Close::Closed,
            _ => Close::Pool,
        }
    }

    /// Poll for seeking.
    pub fn poll_seek(&mut self, pos: SeekFrom) -> (seek: Seek)
        requires
            old(self)@ is Idle,
        ensures
            (final(self)@, seek) == old(self)@.seek_polled(pos),
    {
        match &mut self.0 {
            State::Idle(idle) => {
                if idle.io.is_blocking() {
                    return Seek::Pool;
                }
                // We can just adjust our cursor.

                let offset: u64 = match pos {
                    SeekFrom::Start(offset) => offset,
                    SeekFrom::End(_) => return Seek::Unsupported,
                    SeekFrom::Current(delta) => match displace(idle.offset, delta) {
                        Some(offset) => offset,
                        None => return Seek::Invalid,
                    },
                };
                idle.offset = offset;
                Seek::Moved(offset)
            },
            _ => Seek::Pool,
        }
    }
}

/// Copy the first `count` bytes of `source` to the start of `target`.
fn copy(target: &mut [u8], source: &Vec<u8>, count: usize)
    requires
        count <= source@.len(),
        count <= old(target)@.len(),
    ensures
        final(target)@ == overwritten(old(target)@, source@, count as int),
{
    let mut done: usize = 0;
    assert(overwritten(target@, source@, 0) == target@);
    while done < count
        invariant
            done <= count <= source@.len(),
            count <= old(target)@.len(),
            target@ == overwritten(old(target)@, source@, done as int),
        decreases count - done,
    {
        target[done] = source[done];
        done = done + 1;
        assert(target@ == overwritten(old(target)@, source@, done as int));
    }
}

/// A buffer for reading is as long as the caller's, or longer where it was longer before, and
/// keeps what it held.
pub proof fn law_read_buffers_fit(buffer: Seq<u8>, len: nat)
    ensures
        lengthened(buffer, len).len() >= len,
        lengthened(buffer, len).take(buffer.len() as int) == buffer,
        buffer.len() <= len ==> lengthened(buffer, len).len() == len,
{
}

/// A read never reports more bytes than the caller's buffer holds, nor more than were read, and
/// the caller's buffer keeps its length and everything behind the reported bytes.
pub proof fn law_reads_fit_the_caller<T, E>(outcome: Outcome<T, E>, target: Seq<u8>)
    requires
        outcome.count() <= outcome.buffer@.len(),
    ensures
        ({
            let taken = outcome.taken(target.len());
            let after = overwritten(target, outcome.buffer@, taken);
            &&& 0 <= taken <= target.len()
            &&& taken <= outcome.count()
            &&& outcome.count() <= target.len() ==> taken == outcome.count()
            &&& after.len() == target.len()
            &&& after.take(taken) == outcome.buffer@.take(taken)
            &&& after.skip(taken) == target.skip(taken)
        }),
{
}

/// What does not fit is not lost: after a read of more bytes than the caller took, the next read
/// begins with the first byte that the caller did not take.
pub proof fn law_what_does_not_fit_is_read_next<T, K, E>(
    outcome: Outcome<T, E>,
    room: nat,
    len: nat,
)
    requires
        outcome.io@ is Submission,
        outcome.offset + outcome.count() <= u64::MAX,
    ensures
        Phase::<T, K>::rested(outcome.rest(), outcome.taken(room)).read_polled(
            len,
        ).1 matches StepView::Start(request) && request.offset == outcome.offset + outcome.taken(
            room,
        ),
{
}

/// The capacity changes nothing that an adaptor does: made of the same object and registration,
/// with or without a capacity, adaptors fail alike, and on a completion queue they start alike.
/// On a thread pool both start with a pool that was made of the object.
pub proof fn law_capacity_changes_no_result<T, K, E>(
    io: T,
    registration: Option<Result<RawContainer, E>>,
    plain: Result<Adaptor<T, K>, E>,
    sized: Result<Adaptor<T, K>, E>,
)
    requires
        Adaptor::<T, K>::made_of(io, registration, plain),
        Adaptor::<T, K>::made_of(io, registration, sized),
    ensures
        plain is Err <==> registration matches Some(Err(_)),
        sized is Err <==> registration matches Some(Err(_)),
        registration matches Some(Err(error)) ==> plain == Err::<Adaptor<T, K>, E>(error) && sized
            == Err::<Adaptor<T, K>, E>(error),
        registration matches Some(Ok(_)) ==> plain->Ok_0@ == sized->Ok_0@,
        registration is None ==> {
            &&& plain->Ok_0@ matches Phase::Idle(Rest { io: Repr::Blocking(pool), buffer, offset })
                && crate::handle::wraps(pool, io) && buffer.len() == 0 && offset == 0
            &&& sized->Ok_0@ matches Phase::Idle(Rest { io: Repr::Blocking(pool), buffer, offset })
                && crate::handle::wraps(pool, io) && buffer.len() == 0 && offset == 0
        },
{
}

/// The buffer of a new adaptor is the very one that was made for the capacity, and without a
/// capacity it is one that was made for none.
proof fn law_buffers_are_made_for_the_capacity<T, K>(
    capacity: usize,
    io: Handle<T>,
    sized: Adaptor<T, K>,
    plain: Adaptor<T, K>,
)
    requires
        call_ensures(Adaptor::<T, K>::with_handle_and_capacity, (capacity, io), sized),
        call_ensures(<Adaptor<T, K> as From<Handle<T>>>::from, (io,), plain),
    ensures
        sized.0 matches State::Idle(idle) && call_ensures(
            Vec::<u8>::with_capacity,
            (capacity,),
            idle.buffer,
        ),
        plain.0 matches State::Idle(idle) && call_ensures(
            Vec::<u8>::with_capacity,
            (0,),
            idle.buffer,
        ),
{
}

/// So is the buffer of a new adaptor that was made of an object.
proof fn law_object_buffers_are_made_for_the_capacity<T, K, E>(
    capacity: usize,
    io: T,
    registration: Option<Result<RawContainer, E>>,
    sized: Result<Adaptor<T, K>, E>,
)
    requires
        call_ensures(Adaptor::<T, K>::with_capacity::<E>, (capacity, io, registration), sized),
    ensures
        sized matches Ok(adaptor) ==> (adaptor.0 matches State::Idle(idle) && call_ensures(
            Vec::<u8>::with_capacity,
            (capacity,),
            idle.buffer,
        )),
{
}

/// A buffer that was made for a capacity never has to hold more than that, as long as no read
/// and no write is for more bytes: it starts empty, what is given out for a task to run stays
/// within the capacity, and so does what comes to rest if the task keeps the buffer's length.
pub proof fn law_buffers_stay_within_the_capacity<T, K>(
    rest: Rest<T>,
    capacity: nat,
    len: nat,
    data: Seq<u8>,
    ended: Rest<T>,
    count: int,
)
    requires
        rest.io is Submission,
        rest.buffer.len() <= capacity,
        len <= capacity,
        data.len() <= capacity,
    ensures
        Phase::<T, K>::fresh(rest.io)->Idle_0.buffer.len() == 0,
        ({
            let reading = Phase::<T, K>::Idle(rest).read_polled(len).1->Start_0.buffer.len();
            let writing = Phase::<T, K>::Idle(rest).write_polled(data).1->Start_0.buffer.len();
            let rested = Phase::<T, K>::rested(ended, count)->Idle_0.buffer.len();
            &&& reading <= capacity
            &&& writing <= capacity
            &&& (ended.buffer.len() == reading || ended.buffer.len() == writing) ==> rested
                <= capacity
        }),
{
}

/// A request is begun the way it was asked for: what a poll for reading gives out can only become
/// a read, and what a poll for writing gives out can only become a write.
pub proof fn law_requests_keep_their_direction<T, K>(rest: Rest<T>, len: nat, data: Seq<u8>)
    requires
        rest.io is Submission,
    ensures
        Phase::<T, K>::Idle(rest).read_polled(len).0 == Phase::<T, K>::Hole(Direction::Read),
        Phase::<T, K>::Idle(rest).read_polled(len).0 != Phase::<T, K>::Hole(Direction::Write),
        Phase::<T, K>::Idle(rest).write_polled(data).0 == Phase::<T, K>::Hole(Direction::Write),
        Phase::<T, K>::Idle(rest).write_polled(data).0 != Phase::<T, K>::Hole(Direction::Read),
{
}

/// What is given out for a task to run is the adaptor's own handle at its own position, and for
/// a write it is just the bytes that the caller passed.
pub proof fn law_requests_carry_the_handle<T, K>(rest: Rest<T>, len: nat, data: Seq<u8>)
    requires
        rest.io is Submission,
    ensures
        Phase::<T, K>::Idle(rest).read_polled(len).1 matches StepView::Start(request)
            && request.io == rest.io && request.offset == rest.offset,
        Phase::<T, K>::Idle(rest).write_polled(data).1 == StepView::Start(
            (Rest { io: rest.io, buffer: data, offset: rest.offset }),
        ),
{
}

/// A thread pool keeps its own position: polling an adaptor on a thread pool leaves all the
/// work to the pool and changes nothing in the adaptor.
pub proof fn law_pooled_adaptors_delegate<T, K>(
    phase: Phase<T, K>,
    len: nat,
    data: Seq<u8>,
    pos: SeekFrom,
)
    requires
        phase.is_pooled(),
    ensures
        phase.read_polled(len) == (phase, StepView::<T>::Pool),
        phase.write_polled(data) == (phase, StepView::<T>::Pool),
        phase.seek_polled(pos) == (phase, Seek::Pool),
{
}

/// A transfer that fails leaves the position where it was, and a read that fails leaves the
/// caller's buffer as it was.
pub proof fn law_failed_transfers_stay<T, K, E>(outcome: Outcome<T, E>, target: Seq<u8>)
    requires
        outcome.result is Err,
    ensures
        Phase::<T, K>::rested(outcome.rest(), outcome.count()) == Phase::<T, K>::Idle(
            outcome.rest(),
        ),
        Phase::<T, K>::rested(outcome.rest(), outcome.taken(target.len())) == Phase::<T, K>::Idle(
            outcome.rest(),
        ),
        overwritten(target, outcome.buffer@, outcome.taken(target.len())) == target,
{
}

/// Transfers are contiguous: the next read and the next write begin right behind the bytes
/// that the last transfer moved.
pub proof fn law_transfers_are_contiguous<T, K>(
    outcome: Rest<T>,
    count: nat,
    len: nat,
    data: Seq<u8>,
)
    requires
        outcome.io is Submission,
        outcome.offset + count <= u64::MAX,
    ensures
        ({
            let phase = Phase::<T, K>::rested(outcome, count as int);
            &&& phase.read_polled(len).1 matches StepView::Start(request) && request.offset
                == outcome.offset + count
            &&& phase.write_polled(data).1 matches StepView::Start(request) && request.offset
                == outcome.offset + count
        }),
{
}

/// What the caller writes reaches the completion queue: the operation that is submitted for the
/// request of a write, the way the adaptor is waiting for, is a write of just those bytes, at the
/// adaptor's position.
pub proof fn law_writes_reach_the_queue<T, K, C, E>(
    rest: Rest<T>,
    data: Seq<u8>,
    request: Request<T>,
    direction: Direction,
    key: u64,
    next: Next<Vec<u8>, C, E>,
)
    requires
        rest.io is Submission,
        Phase::<T, K>::Idle(rest).write_polled(data) == (
            Phase::<T, K>::Hole(direction),
            StepView::Start(request@),
        ),
        crate::operation::begun::<T, Vec<u8>, C, E>(
            request.io@,
            (Transfer { direction, buffer: request.buffer, offset: request.offset }),
        ).0.calls_for(Happened::Keyed(key), next),
    ensures
        ({
            &&& next matches Next::Submit { key: k, raw, transfer }
            &&& k == key
            &&& raw == rest.io->raw
            &&& transfer.direction is Write
            &&& transfer.offset == rest.offset
            &&& transfer.buffer@ matches Some(buffer)
            &&& buffer@ == data
        }),
{
}

/// A caller's read reaches the completion queue: the operation that is submitted for the request
/// of a read, the way the adaptor is waiting for, is a read at the adaptor's position, into a
/// buffer with room for as many bytes as the caller's.
pub proof fn law_reads_reach_the_queue<T, K, C, E>(
    rest: Rest<T>,
    len: nat,
    request: Request<T>,
    direction: Direction,
    key: u64,
    next: Next<Vec<u8>, C, E>,
)
    requires
        rest.io is Submission,
        Phase::<T, K>::Idle(rest).read_polled(len) == (
            Phase::<T, K>::Hole(direction),
            StepView::Start(request@),
        ),
        crate::operation::begun::<T, Vec<u8>, C, E>(
            request.io@,
            (Transfer { direction, buffer: request.buffer, offset: request.offset }),
        ).0.calls_for(Happened::Keyed(key), next),
    ensures
        ({
            &&& next matches Next::Submit { key: k, raw, transfer }
            &&& k == key
            &&& raw == rest.io->raw
            &&& transfer.direction is Read
            &&& transfer.offset == rest.offset
            &&& transfer.buffer@ matches Some(buffer)
            &&& buffer@ == lengthened(rest.buffer, len)
            &&& buffer@.len() >= len
        }),
{
}

/// A seek from the start, or from the current position, moves the place of the next read and
/// write to what it reports. A seek from the end, or to a place before byte 0, is refused and
/// moves nothing.
pub proof fn law_seeks_move_the_next_transfer<T, K>(
    rest: Rest<T>,
    pos: SeekFrom,
    len: nat,
    data: Seq<u8>,
)
    requires
        rest.io is Submission,
    ensures
        ({
            let (phase, seek) = Phase::<T, K>::Idle(rest).seek_polled(pos);
            &&& phase.read_polled(len).1 matches StepView::Start(request) && request.offset == (
            match seek {
                Seek::Moved(offset) => offset,
                _ => rest.offset,
            })
            &&& phase.write_polled(data).1 matches StepView::Start(request) && request.offset == (
            match seek {
                Seek::Moved(offset) => offset,
                _ => rest.offset,
            })
            &&& pos is End <==> seek is Unsupported
            &&& (pos matches SeekFrom::Current(delta) && rest.offset + delta < 0) <==> seek
                is Invalid
            &&& !(seek is Moved) ==> phase == Phase::<T, K>::Idle(rest)
        }),
{
}

/// A read gives back what a write wrote. An adaptor at rest writes `data`, of which `written`
/// bytes reach the file; it seeks back to where it wrote, and reads into `target`, which may be
/// shorter than what the task reads. If the object did what it was asked to, so that `file`
/// holds the bytes of the first request at its position, and `filled` holds `read` bytes of the
/// file at the position of the second, then the reader sees as many bytes of the file as fit,
/// beginning with the bytes of `data` that were written, and the adaptor stands right behind them.
pub proof fn law_reads_give_back_what_was_written<T, K>(
    rest: Rest<T>,
    data: Seq<u8>,
    written: int,
    file: Seq<u8>,
    target: Seq<u8>,
    filled: Seq<u8>,
    read: int,
)
    requires
        rest.io is Submission,
        0 <= written <= data.len(),
        0 <= read <= filled.len(),
        rest.offset + written <= file.len() <= u64::MAX,
        rest.offset + read <= file.len(),
        ({
            let request = Phase::<T, K>::Idle(rest).write_polled(data).1->Start_0;
            file.subrange(request.offset as int, request.offset + written) == request.buffer.take(
                written,
            )
        }),
        ({
            let request = Phase::<T, K>::Idle(rest).write_polled(data).1->Start_0;
            let rested = Phase::<T, K>::rested(request, written);
            let back = rested.seek_polled(SeekFrom::Start(rest.offset)).0;
            let request = back.read_polled(target.len()).1->Start_0;
            filled.take(read) == file.subrange(request.offset as int, request.offset + read)
        }),
    ensures
        ({
            let taken = shorter(read, target.len());
            let known = shorter(taken, written as nat);
            let request = Phase::<T, K>::Idle(rest).write_polled(data).1->Start_0;
            let rested = Phase::<T, K>::rested(request, written);
            let back = rested.seek_polled(SeekFrom::Start(rest.offset)).0;
            let request = back.read_polled(target.len()).1->Start_0;
            &&& overwritten(target, filled, taken).take(known) == data.take(known)
            &&& overwritten(target, filled, taken).take(taken) == file.subrange(
                rest.offset as int,
                rest.offset + taken,
            )
            &&& overwritten(target, filled, taken).skip(taken) == target.skip(taken)
            &&& Phase::<T, K>::rested(request, taken) matches Phase::Idle(end)
            &&& end.offset == rest.offset + taken
        }),
{
    let o = rest.offset as int;
    let taken = shorter(read, target.len());
    let known = shorter(taken, written as nat);
    let after = overwritten(target, filled, taken);
    assert(after.take(taken) == filled.take(read).take(taken));
    assert(file.subrange(o, o + read).take(taken) == file.subrange(o, o + taken));
    assert(after.take(known) == after.take(taken).take(known));
    assert(file.subrange(o, o + taken).take(known) == file.subrange(o, o + written).take(known));
    assert(data.take(written).take(known) == data.take(known));
}

} // verus!
