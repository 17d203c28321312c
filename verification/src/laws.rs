//! What handles, adaptors, events and the runtime do, call by call.
//!
//! Each law here speaks of calls of the functions themselves: of what goes in, of what comes out,
//! and of how one call bears on the next.
use crate::adaptor::{Activity, Adaptor, Close, Flush, Outcome, Phase, Request, Rest, Seek, Step};
use crate::events::{Checked, Completion, Events, Pump, Pumped, Wake};
use crate::handle::{Access, Handle, Inner, RawContainer, Repr};
use crate::operation::{Direction, Happened, MovableBuf, Next, Positioned, Run, Transfer};
use crate::runtime::{Keys, Runtime};
use crate::seek::{MaybeSeek, SeekFrom, WontSeek};
use blocking::Unblock;
use vstd::prelude::*;

verus! {

/// The count that a completion carries is the count that an operation reports.
pub proof fn law_counts_are_reported_as_they_are(result: isize, count: usize)
    requires
        call_ensures(crate::operation::transferred, (result,), count),
    ensures
        result >= 0 ==> count as int == result as int,
        result < 0 ==> count as int == result as int + usize::MAX as int + 1,
{
}

/// Advancing past `count` bytes ends `count` bytes further on, or at the last position.
pub proof fn law_advancing_adds(offset: u64, count: usize, next: u64)
    requires
        call_ensures(crate::seek::advance, (offset, count), next),
    ensures
        offset + count <= u64::MAX ==> next == offset + count,
        offset + count > u64::MAX ==> next == u64::MAX,
{
}

/// Moving by `delta` bytes ends `delta` bytes away. It fails just before byte 0, and on its way
/// forward it stops at the last position that fits a signed number, or, where it is past that
/// already, at the last position there is.
pub proof fn law_displacing_adds(offset: u64, delta: i64, moved: Option<u64>)
    requires
        call_ensures(crate::seek::displace, (offset, delta), moved),
    ensures
        offset + delta < 0 <==> moved is None,
        0 <= offset + delta <= i64::MAX ==> moved is Some && moved->0 == offset + delta,
        offset + delta > i64::MAX && offset <= i64::MAX ==> moved is Some && moved->0 == i64::MAX,
        i64::MAX < offset + delta <= u64::MAX && offset > i64::MAX ==> moved is Some && moved->0
            == offset + delta,
        offset + delta > u64::MAX && offset > i64::MAX ==> moved is Some && moved->0 == u64::MAX,
{
}

/// An object that must not seek is wrapped and reached as it is, and ignores every seek.
pub proof fn law_wrapped_objects_ignore_seeks<T>(
    object: T,
    wrapped: WontSeek<T>,
    inner: &T,
    this: &mut WontSeek<T>,
    pos: SeekFrom,
    moved: Result<Option<u64>, core::convert::Infallible>,
)
    requires
        call_ensures(<WontSeek<T> as From<T>>::from, (object,), wrapped),
        call_ensures(<WontSeek<T> as core::ops::Deref>::deref, (&wrapped,), inner),
        call_ensures(<WontSeek<T> as MaybeSeek>::seek, (this, pos), moved),
    ensures
        wrapped.0 == object,
        *inner == object,
        moved matches Ok(None),
        *final(this) == *old(this),
{
}

/// Writing through a wrapper changes the object inside.
pub proof fn law_wrapped_objects_are_reached<T>(this: &mut WontSeek<T>, inner: &mut T)
    requires
        call_ensures(<WontSeek<T> as core::ops::DerefMut>::deref_mut, (this,), inner),
    ensures
        *old(inner) == old(this).0,
        final(this).0 == *final(inner),
{
}

/// A handle that was made of a registered object holds that object and just the raw handle that
/// the registration gave.
pub proof fn law_registered_handles_keep_the_raw_handle<T, E>(
    io: T,
    raw: RawContainer,
    made: Result<Handle<T>, E>,
    handle: Handle<T>,
    held: Option<RawContainer>,
    blocking: bool,
    inner: Inner<T>,
)
    requires
        call_ensures(Handle::<T>::new::<E>, (io, Some(Ok(raw))), made),
        made == Ok::<Handle<T>, E>(handle),
        call_ensures(Handle::<T>::raw, (&handle,), held),
        call_ensures(Handle::<T>::is_blocking, (&handle,), blocking),
        call_ensures(Handle::<T>::into_inner, (handle,), inner),
    ensures
        handle@ == (Repr::Submission { io, raw }),
        held == Some(raw),
        !blocking,
        inner == Inner::Object(io),
{
}

/// Registering decides: a failure is passed on, a success gives a handle, and without a queue
/// there is a handle on the thread pool that was made of the object.
pub proof fn law_registration_decides<T, E>(
    io: T,
    registration: Option<Result<RawContainer, E>>,
    made: Result<Handle<T>, E>,
)
    requires
        call_ensures(Handle::<T>::new::<E>, (io, registration), made),
    ensures
        registration matches Some(Err(error)) ==> made == Err::<Handle<T>, E>(error),
        registration matches Some(Ok(raw)) ==> made is Ok && made->Ok_0@ == (Repr::Submission {
            io,
            raw,
        }),
        registration is None ==> (made matches Ok(handle) && handle@ matches Repr::Blocking(pool)
            && call_ensures(Unblock::<T>::new, (io,), pool)),
{
}

/// A handle on the thread pool was made of the object, has no raw handle, and gives back the
/// pool.
pub proof fn law_pooled_handles_hold_the_pool<T>(
    io: T,
    handle: Handle<T>,
    held: Option<RawContainer>,
    blocking: bool,
    inner: Inner<T>,
)
    requires
        call_ensures(Handle::<T>::new_blocking, (io,), handle),
        call_ensures(Handle::<T>::raw, (&handle,), held),
        call_ensures(Handle::<T>::is_blocking, (&handle,), blocking),
        call_ensures(Handle::<T>::into_inner, (handle,), inner),
    ensures
        held is None,
        blocking,
        inner matches Inner::Pool(pool) && call_ensures(Unblock::<T>::new, (io,), pool),
{
}

/// Mutable access to a handle reaches the very object or pool inside, and leaves the raw handle
/// alone.
pub proof fn law_access_reaches_the_object<T>(
    this: &mut Handle<T>,
    access: Access<'_, T>,
    raw: RawContainer,
    number: isize,
)
    requires
        call_ensures(Handle::<T>::get_mut, (this,), access),
        call_ensures(RawContainer::as_raw, (&raw,), number),
    ensures
        old(this)@ matches Repr::Submission { io, raw } ==> (access matches Access::Object(borrowed)
            && *borrowed == io && final(this)@ == (Repr::Submission {
            io: *final(borrowed),
            raw,
        })),
        old(this)@ matches Repr::Blocking(pool) ==> (access matches Access::Pool(borrowed)
            && *borrowed == pool && final(this)@ == Repr::Blocking(*final(borrowed))),
        number == raw.0,
{
}

/// A buffer comes out of its wrapper once, as it went in.
pub proof fn law_buffers_move_out_once<B>(
    buf: B,
    movable: MovableBuf<B>,
    held: Option<&B>,
    first: &mut MovableBuf<B>,
    taken: Option<B>,
    second: &mut MovableBuf<B>,
    again: Option<B>,
)
    requires
        call_ensures(<MovableBuf<B> as From<B>>::from, (buf,), movable),
        call_ensures(MovableBuf::<B>::get, (&movable,), held),
        *old(first) == movable,
        call_ensures(MovableBuf::<B>::take, (first,), taken),
        *old(second) == *final(first),
        call_ensures(MovableBuf::<B>::take, (second,), again),
    ensures
        held matches Some(inside) && *inside == buf,
        taken == Some(buf),
        again is None,
{
}

/// Before a thread of the pool reads or writes, it asks the object to move to the position of the
/// transfer. A failure gives the buffer back with the error, and nothing else keeps the transfer
/// from going ahead as it is.
pub proof fn law_transfers_go_to_their_position<B, E>(
    transfer: Transfer<B>,
    target: SeekFrom,
    moved: Result<Option<u64>, E>,
    positioned: Positioned<B, E>,
)
    requires
        call_ensures(Transfer::<B>::target, (&transfer,), target),
        call_ensures(Transfer::<B>::sought::<E>, (transfer, moved), positioned),
    ensures
        target == SeekFrom::Start(transfer.offset),
        moved is Ok ==> positioned == Positioned::<B, E>::Perform(transfer),
        moved matches Err(error) ==> positioned == Positioned::<B, E>::Fail(transfer.buffer, error),
{
}

/// A read and a write on a handle are the general operation, with the buffer and the offset that
/// were passed, one from the object and one into it.
pub proof fn law_reads_and_writes_are_operations<T, B, C, E>(
    handle: Handle<T>,
    buf: B,
    offset: u64,
    transfer: Transfer<B>,
    run: (Run<B, E>, Next<B, C, E>),
    read: (Run<B, E>, Next<B, C, E>),
    write: (Run<B, E>, Next<B, C, E>),
)
    requires
        transfer.buffer == buf,
        transfer.offset == offset,
        call_ensures(Handle::<T>::run_operation::<B, C, E>, (&handle, transfer), run),
        call_ensures(Handle::<T>::read_into::<B, C, E>, (&handle, buf, offset), read),
        call_ensures(Handle::<T>::write_from::<B, C, E>, (&handle, buf, offset), write),
    ensures
        transfer.direction is Read ==> read == run,
        transfer.direction is Write ==> write == run,
{
}

/// A read on a registered handle, from beginning to end: it is submitted once it has a key, for
/// the raw handle that the registration gave, with the buffer and the offset that were passed.
/// The task waits for that key, and returns the buffer that comes back and just as many bytes as
/// the completion says, or its error.
pub proof fn law_reads_on_the_queue<T, B, C, E, F>(
    io: T,
    raw: RawContainer,
    handle: Handle<T>,
    buf: B,
    offset: u64,
    begun: (Run<B, E>, Next<B, C, E>),
    key: u64,
    keyed: (Run<B, E>, Next<B, C, E>),
    accepted: Result<(), E>,
    submitted: (Run<B, E>, Next<B, C, E>),
    completion: C,
    waited: (Run<B, E>, Next<B, C, E>),
    back: B,
    result: Result<isize, E>,
    unlocked: (Run<B, E>, Next<B, C, E>),
)
    requires
        call_ensures(Handle::<T>::new::<F>, (io, Some(Ok(raw))), Ok(handle)),
        call_ensures(Handle::<T>::read_into::<B, C, E>, (&handle, buf, offset), begun),
        call_ensures(Run::<B, E>::step::<C>, (begun.0, Happened::Keyed(key)), keyed),
        call_ensures(Run::<B, E>::step::<C>, (keyed.0, Happened::Submitted(accepted)), submitted),
        call_ensures(
            Run::<B, E>::step::<C>,
            (submitted.0, Happened::Waited(Ok(completion))),
            waited,
        ),
        call_ensures(
            Run::<B, E>::step::<C>,
            (waited.0, Happened::Unlocked(back, result)),
            unlocked,
        ),
    ensures
        begun.1 is GetKey,
        call_requires(Run::<B, E>::step::<C>, (begun.0, Happened::Keyed(key))),
        ({
            &&& keyed.1 matches Next::Submit { key: k, raw: r, transfer }
            &&& k == key
            &&& r == raw
            &&& transfer.direction is Read
            &&& transfer.offset == offset
            &&& transfer.buffer@ == Some(buf)
        }),
        call_requires(Run::<B, E>::step::<C>, (keyed.0, Happened::Submitted(accepted))),
        submitted.1 == Next::<B, C, E>::Wait(key),
        call_requires(Run::<B, E>::step::<C>, (submitted.0, Happened::Waited(Ok(completion)))),
        waited.1 == Next::<B, C, E>::Unlock(completion),
        call_requires(Run::<B, E>::step::<C>, (waited.0, Happened::Unlocked(back, result))),
        result matches Ok(count) ==> ({
            &&& unlocked.1 matches Next::Return(buffer, Ok(reported))
            &&& buffer == back
            &&& count >= 0 ==> reported as int == count as int
            &&& count < 0 ==> reported as int == count as int + usize::MAX as int + 1
        }),
        result matches Err(error) ==> unlocked.1 == Next::<B, C, E>::Return(back, Err(error)),
        unlocked.0 is Finished,
{
}

/// A write on a registered handle, from beginning to end: it is submitted once it has a key, for
/// the raw handle that the registration gave, with the buffer and the offset that were passed.
/// The task waits for that key, and returns the buffer that comes back and just as many bytes as
/// the completion says, or its error.
pub proof fn law_writes_on_the_queue<T, B, C, E, F>(
    io: T,
    raw: RawContainer,
    handle: Handle<T>,
    buf: B,
    offset: u64,
    begun: (Run<B, E>, Next<B, C, E>),
    key: u64,
    keyed: (Run<B, E>, Next<B, C, E>),
    accepted: Result<(), E>,
    submitted: (Run<B, E>, Next<B, C, E>),
    completion: C,
    waited: (Run<B, E>, Next<B, C, E>),
    back: B,
    result: Result<isize, E>,
    unlocked: (Run<B, E>, Next<B, C, E>),
)
    requires
        call_ensures(Handle::<T>::new::<F>, (io, Some(Ok(raw))), Ok(handle)),
        call_ensures(Handle::<T>::write_from::<B, C, E>, (&handle, buf, offset), begun),
        call_ensures(Run::<B, E>::step::<C>, (begun.0, Happened::Keyed(key)), keyed),
        call_ensures(Run::<B, E>::step::<C>, (keyed.0, Happened::Submitted(accepted)), submitted),
        call_ensures(
            Run::<B, E>::step::<C>,
            (submitted.0, Happened::Waited(Ok(completion))),
            waited,
        ),
        call_ensures(
            Run::<B, E>::step::<C>,
            (waited.0, Happened::Unlocked(back, result)),
            unlocked,
        ),
    ensures
        begun.1 is GetKey,
        call_requires(Run::<B, E>::step::<C>, (begun.0, Happened::Keyed(key))),
        ({
            &&& keyed.1 matches Next::Submit { key: k, raw: r, transfer }
            &&& k == key
            &&& r == raw
            &&& transfer.direction is Write
            &&& transfer.offset == offset
            &&& transfer.buffer@ == Some(buf)
        }),
        call_requires(Run::<B, E>::step::<C>, (keyed.0, Happened::Submitted(accepted))),
        submitted.1 == Next::<B, C, E>::Wait(key),
        call_requires(Run::<B, E>::step::<C>, (submitted.0, Happened::Waited(Ok(completion)))),
        waited.1 == Next::<B, C, E>::Unlock(completion),
        call_requires(Run::<B, E>::step::<C>, (waited.0, Happened::Unlocked(back, result))),
        result matches Ok(count) ==> ({
            &&& unlocked.1 matches Next::Return(buffer, Ok(reported))
            &&& buffer == back
            &&& count >= 0 ==> reported as int == count as int
            &&& count < 0 ==> reported as int == count as int + usize::MAX as int + 1
        }),
        result matches Err(error) ==> unlocked.1 == Next::<B, C, E>::Return(back, Err(error)),
        unlocked.0 is Finished,
{
}

/// When waiting for a submitted operation fails, the operation is cancelled, and then its buffer
/// is returned with the error of the wait.
pub proof fn law_failed_waits_cancel<B, C, E>(
    run: Run<B, E>,
    error: E,
    waited: (Run<B, E>, Next<B, C, E>),
    back: B,
    cancelled: (Run<B, E>, Next<B, C, E>),
)
    requires
        run is Waiting,
        call_ensures(Run::<B, E>::step::<C>, (run, Happened::Waited(Err(error))), waited),
        call_ensures(Run::<B, E>::step::<C>, (waited.0, Happened::Cancelled(back)), cancelled),
    ensures
        call_requires(Run::<B, E>::step::<C>, (run, Happened::Waited(Err(error)))),
        waited.1 is Cancel,
        call_requires(Run::<B, E>::step::<C>, (waited.0, Happened::Cancelled(back))),
        cancelled.1 == Next::<B, C, E>::Return(back, Err(error)),
        cancelled.0 is Finished,
{
}

/// A read or a write on a handle of the thread pool is handed to the pool, with the buffer and
/// the offset that were passed, and what the pool says is returned as it is.
pub proof fn law_operations_on_the_pool<T, B, C, E>(
    io: T,
    handle: Handle<T>,
    buf: B,
    offset: u64,
    read: (Run<B, E>, Next<B, C, E>),
    write: (Run<B, E>, Next<B, C, E>),
    back: B,
    result: Result<usize, E>,
    has_read: (Run<B, E>, Next<B, C, E>),
    has_written: (Run<B, E>, Next<B, C, E>),
)
    requires
        call_ensures(Handle::<T>::new_blocking, (io,), handle),
        call_ensures(Handle::<T>::read_into::<B, C, E>, (&handle, buf, offset), read),
        call_ensures(Handle::<T>::write_from::<B, C, E>, (&handle, buf, offset), write),
        call_ensures(Run::<B, E>::step::<C>, (read.0, Happened::Ran(back, result)), has_read),
        call_ensures(Run::<B, E>::step::<C>, (write.0, Happened::Ran(back, result)), has_written),
    ensures
        read.1 == Next::<B, C, E>::RunOnPool(
            (Transfer { direction: Direction::Read, buffer: buf, offset }),
        ),
        write.1 == Next::<B, C, E>::RunOnPool(
            (Transfer { direction: Direction::Write, buffer: buf, offset }),
        ),
        call_requires(Run::<B, E>::step::<C>, (read.0, Happened::Ran(back, result))),
        call_requires(Run::<B, E>::step::<C>, (write.0, Happened::Ran(back, result))),
        has_read.1 == Next::<B, C, E>::Return(back, result),
        has_written.1 == Next::<B, C, E>::Return(back, result),
        has_read.0 is Finished,
        has_written.0 is Finished,
{
}

/// An adaptor starts at byte 0 of the object that it was made of, with an empty buffer, whether it
/// was given a capacity or not. A failed registration is passed on.
pub proof fn law_adaptors_start_at_the_beginning<T, K, E>(
    io: T,
    registration: Option<Result<RawContainer, E>>,
    capacity: usize,
    plain: Result<Adaptor<T, K>, E>,
    sized: Result<Adaptor<T, K>, E>,
)
    requires
        call_ensures(Adaptor::<T, K>::new::<E>, (io, registration), plain),
        call_ensures(Adaptor::<T, K>::with_capacity::<E>, (capacity, io, registration), sized),
    ensures
        registration matches Some(Err(error)) ==> plain == Err::<Adaptor<T, K>, E>(error) && sized
            == Err::<Adaptor<T, K>, E>(error),
        registration matches Some(Ok(raw)) ==> ({
            &&& plain matches Ok(adaptor) && adaptor@ matches Phase::Idle(rest) && rest.io == (
            Repr::Submission { io, raw }) && rest.buffer.len() == 0 && rest.offset == 0
            &&& sized matches Ok(adaptor) && adaptor@ matches Phase::Idle(rest) && rest.io == (
            Repr::Submission { io, raw }) && rest.buffer.len() == 0 && rest.offset == 0
        }),
        registration is None ==> ({
            &&& plain matches Ok(adaptor) && adaptor@ matches Phase::Idle(rest)
                && rest.io matches Repr::Blocking(pool) && call_ensures(
                Unblock::<T>::new,
                (io,),
                pool,
            )
            &&& sized matches Ok(adaptor) && adaptor@ matches Phase::Idle(rest)
                && rest.io matches Repr::Blocking(pool) && call_ensures(
                Unblock::<T>::new,
                (io,),
                pool,
            )
        }),
        registration matches Some(Err(_)) || capacity <= isize::MAX ==> call_requires(
            Adaptor::<T, K>::with_capacity::<E>,
            (capacity, io, registration),
        ),
{
}

/// An adaptor of a handle starts at byte 0 of that handle, with an empty buffer, whatever its
/// capacity.
pub proof fn law_adaptors_keep_the_handle<T, K>(
    handle: Handle<T>,
    capacity: usize,
    plain: Adaptor<T, K>,
    sized: Adaptor<T, K>,
)
    requires
        call_ensures(<Adaptor<T, K> as From<Handle<T>>>::from, (handle,), plain),
        call_ensures(Adaptor::<T, K>::with_handle_and_capacity, (capacity, handle), sized),
    ensures
        plain@ matches Phase::Idle(rest) && rest.io == handle@ && rest.buffer.len() == 0
            && rest.offset == 0,
        sized@ matches Phase::Idle(rest) && rest.io == handle@ && rest.buffer.len() == 0
            && rest.offset == 0,
        capacity <= isize::MAX ==> call_requires(
            Adaptor::<T, K>::with_handle_and_capacity,
            (capacity, handle),
        ),
{
}

/// The reported activity is what the adaptor is doing.
pub proof fn law_activity_is_reported<T, K>(adaptor: Adaptor<T, K>, activity: Activity)
    requires
        call_ensures(Adaptor::<T, K>::activity, (&adaptor,), activity),
    ensures
        adaptor@ is Idle <==> activity is Idle,
        adaptor@ is Reading <==> activity is Reading,
        adaptor@ is Writing <==> activity is Writing,
        adaptor@ matches Phase::Hole(direction) ==> activity == Activity::Hole(direction),
{
}

/// A poll for reading asks a resting adaptor's own handle, at its own position, to fill a buffer
/// that is as long as the caller's, or longer where the adaptor's was longer before. The buffer
/// keeps what it held and is filled up with zeros.
pub proof fn law_a_poll_starts_a_read<T, K>(
    this: &mut Adaptor<T, K>,
    rest: Rest<T>,
    buf: &[u8],
    step: Step<T>,
)
    requires
        old(this)@ == Phase::<T, K>::Idle(rest),
        rest.io is Submission,
        call_ensures(Adaptor::<T, K>::poll_read, (this, buf), step),
    ensures
        call_requires(Adaptor::<T, K>::poll_read, (this, buf)),
        final(this)@ == Phase::<T, K>::Hole(Direction::Read),
        ({
            &&& step matches Step::Start(request)
            &&& request.io@ == rest.io
            &&& request.offset == rest.offset
            &&& rest.buffer.len() <= buf@.len() ==> request.buffer@.len() == buf@.len()
            &&& rest.buffer.len() > buf@.len() ==> request.buffer@.len() == rest.buffer.len()
            &&& forall|i: int|
                0 <= i < request.buffer@.len() ==> #[trigger] request.buffer@[i] == (if i
                    < rest.buffer.len() {
                    rest.buffer[i]
                } else {
                    0u8
                })
        }),
{
}

/// A poll for writing asks a resting adaptor's own handle, at its own position, to write just the
/// caller's bytes.
pub proof fn law_a_poll_starts_a_write<T, K>(
    this: &mut Adaptor<T, K>,
    rest: Rest<T>,
    buf: &[u8],
    step: Step<T>,
)
    requires
        old(this)@ == Phase::<T, K>::Idle(rest),
        rest.io is Submission,
        call_ensures(Adaptor::<T, K>::poll_write, (this, buf), step),
    ensures
        call_requires(Adaptor::<T, K>::poll_write, (this, buf)),
        final(this)@ == Phase::<T, K>::Hole(Direction::Write),
        ({
            &&& step matches Step::Start(request)
            &&& request.io@ == rest.io
            &&& request.offset == rest.offset
            &&& request.buffer@ == buf@
        }),
{
}

/// While a task reads, every poll for reading goes to that task, whatever the caller's buffer,
/// and while a task writes, every poll for writing does. Neither changes the adaptor.
pub proof fn law_running_tasks_are_polled<T, K>(
    reader: &mut Adaptor<T, K>,
    writer: &mut Adaptor<T, K>,
    task: K,
    buf: &[u8],
    read: Step<T>,
    written: Step<T>,
)
    requires
        old(reader)@ == Phase::<T, K>::Reading(task),
        old(writer)@ == Phase::<T, K>::Writing(task),
        call_ensures(Adaptor::<T, K>::poll_read, (reader, buf), read),
        call_ensures(Adaptor::<T, K>::poll_write, (writer, buf), written),
    ensures
        call_requires(Adaptor::<T, K>::poll_read, (reader, buf)),
        call_requires(Adaptor::<T, K>::poll_write, (writer, buf)),
        read is Task,
        final(reader)@ == Phase::<T, K>::Reading(task),
        written is Task,
        final(writer)@ == Phase::<T, K>::Writing(task),
{
}

/// The thread pool is polled for an adaptor at rest on a thread pool, and for no other, and the
/// poll leaves the adaptor as it is.
pub proof fn law_only_pooled_adaptors_poll_the_pool<T, K>(
    reader: &mut Adaptor<T, K>,
    writer: &mut Adaptor<T, K>,
    seeker: &mut Adaptor<T, K>,
    buf: &[u8],
    pos: SeekFrom,
    read: Step<T>,
    written: Step<T>,
    seek: Seek,
    resting: Adaptor<T, K>,
    flush: Flush,
    close: Close,
)
    requires
        old(reader)@ is Idle || old(reader)@ is Reading,
        old(writer)@ is Idle || old(writer)@ is Writing,
        old(seeker)@ is Idle,
        resting@ is Idle,
        call_ensures(Adaptor::<T, K>::poll_read, (reader, buf), read),
        call_ensures(Adaptor::<T, K>::poll_write, (writer, buf), written),
        call_ensures(Adaptor::<T, K>::poll_seek, (seeker, pos), seek),
        call_ensures(Adaptor::<T, K>::poll_flush, (&resting,), flush),
        call_ensures(Adaptor::<T, K>::poll_close, (&resting,), close),
    ensures
        read is Pool <==> (old(reader)@ matches Phase::Idle(rest) && rest.io is Blocking),
        read is Pool ==> final(reader)@ == old(reader)@,
        written is Pool <==> (old(writer)@ matches Phase::Idle(rest) && rest.io is Blocking),
        written is Pool ==> final(writer)@ == old(writer)@,
        call_requires(Adaptor::<T, K>::poll_seek, (seeker, pos)),
        seek is Pool <==> old(seeker)@->Idle_0.io is Blocking,
        seek is Pool ==> final(seeker)@ == old(seeker)@,
        call_requires(Adaptor::<T, K>::poll_flush, (&resting,)),
        flush is Pool <==> resting@->Idle_0.io is Blocking,
        flush is Object <==> resting@->Idle_0.io is Submission,
        call_requires(Adaptor::<T, K>::poll_close, (&resting,)),
        close is Pool <==> resting@->Idle_0.io is Blocking,
        close is Closed <==> resting@->Idle_0.io is Submission,
{
}

/// A seek from the start goes to just the place it names, wherever the adaptor stands.
pub proof fn law_seeking_from_the_start_goes_there<T, K>(
    this: &mut Adaptor<T, K>,
    rest: Rest<T>,
    place: u64,
    seek: Seek,
)
    requires
        old(this)@ == Phase::<T, K>::Idle(rest),
        rest.io is Submission,
        call_ensures(Adaptor::<T, K>::poll_seek, (this, SeekFrom::Start(place)), seek),
    ensures
        seek == Seek::Moved(place),
        final(this)@ matches Phase::Idle(end) && end.io == rest.io && end.buffer == rest.buffer
            && end.offset == place,
{
}

/// A seek from the current position goes as far as it says, and reports where it ends. Before
/// byte 0 it is refused, and past the last position of its kind it stops there.
pub proof fn law_seeking_from_here_moves_by_the_distance<T, K>(
    this: &mut Adaptor<T, K>,
    rest: Rest<T>,
    delta: i64,
    seek: Seek,
)
    requires
        old(this)@ == Phase::<T, K>::Idle(rest),
        rest.io is Submission,
        call_ensures(Adaptor::<T, K>::poll_seek, (this, SeekFrom::Current(delta)), seek),
    ensures
        rest.offset + delta < 0 ==> seek is Invalid && final(this)@ == old(this)@,
        rest.offset + delta >= 0 ==> ({
            &&& seek matches Seek::Moved(place)
            &&& final(this)@ matches Phase::Idle(end)
            &&& end.io == rest.io
            &&& end.buffer == rest.buffer
            &&& end.offset == place
            &&& rest.offset + delta <= i64::MAX ==> place == rest.offset + delta
            &&& rest.offset <= i64::MAX < rest.offset + delta ==> place == i64::MAX
            &&& i64::MAX < rest.offset && rest.offset + delta <= u64::MAX ==> place == rest.offset
                + delta
            &&& i64::MAX < rest.offset && rest.offset + delta > u64::MAX ==> place == u64::MAX
        }),
{
}

/// A seek from the end is refused, and moves nothing.
pub proof fn law_seeking_from_the_end_is_refused<T, K>(
    this: &mut Adaptor<T, K>,
    delta: i64,
    seek: Seek,
)
    requires
        old(this)@ matches Phase::Idle(rest) && rest.io is Submission,
        call_ensures(Adaptor::<T, K>::poll_seek, (this, SeekFrom::End(delta)), seek),
    ensures
        seek is Unsupported,
        final(this)@ == old(this)@,
{
}

/// A task takes the place of the request that it came for, and can be reached there.
pub proof fn law_tasks_begin<T, K>(
    reader: &mut Adaptor<T, K>,
    writer: &mut Adaptor<T, K>,
    task: K,
)
    requires
        call_ensures(Adaptor::<T, K>::begin_read, (reader, task), ()),
        call_ensures(Adaptor::<T, K>::begin_write, (writer, task), ()),
    ensures
        old(reader)@ == Phase::<T, K>::Hole(Direction::Read) ==> call_requires(
            Adaptor::<T, K>::begin_read,
            (reader, task),
        ),
        old(writer)@ == Phase::<T, K>::Hole(Direction::Write) ==> call_requires(
            Adaptor::<T, K>::begin_write,
            (writer, task),
        ),
        final(reader)@ == Phase::<T, K>::Reading(task),
        final(writer)@ == Phase::<T, K>::Writing(task),
{
}

/// The task that reads or writes is reached in its place, and there is none at any other time.
pub proof fn law_tasks_are_reached<T, K>(this: &mut Adaptor<T, K>, task: Option<&mut K>)
    requires
        call_ensures(Adaptor::<T, K>::task, (this,), task),
    ensures
        old(this)@ matches Phase::Reading(current) ==> (task matches Some(borrowed) && *borrowed
            == current && final(this)@ == Phase::<T, K>::Reading(*final(borrowed))),
        old(this)@ matches Phase::Writing(current) ==> (task matches Some(borrowed) && *borrowed
            == current && final(this)@ == Phase::<T, K>::Writing(*final(borrowed))),
        old(this)@ is Idle || old(this)@ is Hole ==> task is None && final(this)@ == old(this)@,
{
}

/// What a resting adaptor wraps is reached in its place; buffer, position and raw handle stay as
/// they are. While the adaptor does something, nothing is reached.
pub proof fn law_resting_adaptors_are_open<T, K>(
    this: &mut Adaptor<T, K>,
    inner: Option<Access<'_, T>>,
)
    requires
        call_ensures(Adaptor::<T, K>::inner, (this,), inner),
    ensures
        !(old(this)@ is Idle) ==> inner is None && final(this)@ == old(this)@,
        old(this)@ matches Phase::Idle(rest) ==> ({
            &&& rest.io matches Repr::Submission { io, raw } ==> (inner matches Some(
                Access::Object(borrowed),
            ) && *borrowed == io && final(this)@ == Phase::<T, K>::Idle(
                Rest {
                    io: Repr::Submission { io: *final(borrowed), raw },
                    buffer: rest.buffer,
                    offset: rest.offset,
                },
            ))
            &&& rest.io matches Repr::Blocking(pool) ==> (inner matches Some(Access::Pool(borrowed))
                && *borrowed == pool && final(this)@ == Phase::<T, K>::Idle(
                Rest {
                    io: Repr::Blocking(*final(borrowed)),
                    buffer: rest.buffer,
                    offset: rest.offset,
                },
            ))
        }),
{
}

/// A write reports the very number of bytes that its task wrote, and leaves the adaptor right
/// behind them. A write that failed reports its error and leaves the adaptor where the write
/// began. Handle and buffer come back either way.
pub proof fn law_writes_end_behind_what_was_written<T, K, E>(
    this: &mut Adaptor<T, K>,
    outcome: Outcome<T, E>,
    written: Result<usize, E>,
)
    requires
        call_ensures(Adaptor::<T, K>::end_write::<E>, (this, outcome), written),
    ensures
        old(this)@ is Writing ==> call_requires(
            Adaptor::<T, K>::end_write::<E>,
            (this, outcome),
        ),
        written == outcome.result,
        final(this)@ is Idle,
        final(this)@->Idle_0.io == outcome.io@,
        final(this)@->Idle_0.buffer == outcome.buffer@,
        outcome.result matches Ok(n) ==> ({
            let end = final(this)@->Idle_0.offset;
            &&& outcome.offset + n <= u64::MAX ==> end == outcome.offset + n
            &&& outcome.offset + n > u64::MAX ==> end == u64::MAX
        }),
        outcome.result is Err ==> final(this)@->Idle_0.offset == outcome.offset,
{
}

/// A read reports the very number of bytes that its task read, or the length of the caller's
/// buffer where that is less. So many bytes of the caller's buffer are what was read, the others
/// stay, and the adaptor stands right behind what it reported. A read that failed reports its
/// error, and neither the caller's buffer nor the position changes. Handle and buffer come back
/// either way.
pub proof fn law_reads_end_behind_what_was_read<T, K, E>(
    this: &mut Adaptor<T, K>,
    outcome: Outcome<T, E>,
    buf: &mut [u8],
    read: Result<usize, E>,
)
    requires
        call_ensures(Adaptor::<T, K>::end_read::<E>, (this, outcome, buf), read),
        outcome.result matches Ok(n) ==> n <= outcome.buffer@.len(),
    ensures
        old(this)@ is Reading ==> call_requires(
            Adaptor::<T, K>::end_read::<E>,
            (this, outcome, buf),
        ),
        final(this)@ is Idle,
        final(this)@->Idle_0.io == outcome.io@,
        final(this)@->Idle_0.buffer == outcome.buffer@,
        final(buf)@.len() == old(buf)@.len(),
        outcome.result matches Ok(n) ==> ({
            let end = final(this)@->Idle_0.offset;
            &&& read matches Ok(taken)
            &&& n <= old(buf)@.len() ==> taken == n
            &&& n > old(buf)@.len() ==> taken == old(buf)@.len()
            &&& outcome.offset + taken <= u64::MAX ==> end == outcome.offset + taken
            &&& outcome.offset + taken > u64::MAX ==> end == u64::MAX
            &&& forall|i: int|
                0 <= i < taken ==> #[trigger] final(buf)@[i] == outcome.buffer@[i]
            &&& forall|i: int|
                taken <= i < old(buf)@.len() ==> #[trigger] final(buf)@[i] == old(buf)@[i]
        }),
        outcome.result matches Err(error) ==> ({
            &&& read == Err::<usize, E>(error)
            &&& final(this)@->Idle_0.offset == outcome.offset
            &&& final(buf)@ == old(buf)@
        }),
{
}

/// The first request of an adaptor around a registered object is for the raw handle that the
/// registration gave, at byte 0. A read gets a buffer of zeros as long as the caller's, and a
/// write gets the caller's bytes.
pub proof fn law_first_requests<T, K, E>(
    io: T,
    raw: RawContainer,
    adaptor: Adaptor<T, K>,
    reader: &mut Adaptor<T, K>,
    writer: &mut Adaptor<T, K>,
    buf: &[u8],
    read: Request<T>,
    written: Request<T>,
    read_raw: Option<RawContainer>,
    written_raw: Option<RawContainer>,
    read_inner: Inner<T>,
)
    requires
        call_ensures(Adaptor::<T, K>::new::<E>, (io, Some(Ok(raw))), Ok(adaptor)),
        *old(reader) == adaptor,
        *old(writer) == adaptor,
        call_ensures(Adaptor::<T, K>::poll_read, (reader, buf), Step::Start(read)),
        call_ensures(Adaptor::<T, K>::poll_write, (writer, buf), Step::Start(written)),
        call_ensures(Handle::<T>::raw, (&read.io,), read_raw),
        call_ensures(Handle::<T>::raw, (&written.io,), written_raw),
        call_ensures(Handle::<T>::into_inner, (read.io,), read_inner),
    ensures
        read_raw == Some(raw),
        written_raw == Some(raw),
        read_inner == Inner::Object(io),
        read.offset == 0,
        written.offset == 0,
        read.buffer@.len() == buf@.len(),
        forall|i: int| 0 <= i < buf@.len() ==> #[trigger] read.buffer@[i] == 0,
        written.buffer@ == buf@,
{
    let rest = adaptor@->Idle_0;
    law_a_poll_starts_a_read(reader, rest, buf, Step::Start(read));
}

/// After a write, whatever comes next happens right behind the bytes that were written: the next
/// write and the next read are requested there, for the same handle, and a seek by nothing reports
/// the place.
pub proof fn law_what_follows_a_write<T, K, E>(
    polled: &mut Adaptor<T, K>,
    data: &[u8],
    request: Request<T>,
    ended: &mut Adaptor<T, K>,
    outcome: Outcome<T, E>,
    n: usize,
    written: Result<usize, E>,
    writer: &mut Adaptor<T, K>,
    reader: &mut Adaptor<T, K>,
    seeker: &mut Adaptor<T, K>,
    more: &[u8],
    next_write: Step<T>,
    next_read: Step<T>,
    seek: Seek,
)
    requires
        call_ensures(Adaptor::<T, K>::poll_write, (polled, data), Step::Start(request)),
        outcome.io == request.io,
        outcome.offset == request.offset,
        outcome.result == Ok::<usize, E>(n),
        request.offset + n <= u64::MAX,
        call_ensures(Adaptor::<T, K>::end_write::<E>, (ended, outcome), written),
        *old(writer) == *final(ended),
        *old(reader) == *final(ended),
        *old(seeker) == *final(ended),
        call_ensures(Adaptor::<T, K>::poll_write, (writer, more), next_write),
        call_ensures(Adaptor::<T, K>::poll_read, (reader, more), next_read),
        call_ensures(Adaptor::<T, K>::poll_seek, (seeker, SeekFrom::Current(0)), seek),
    ensures
        request.buffer@ == data@,
        written == Ok::<usize, E>(n),
        next_write matches Step::Start(next) && next.offset == request.offset + n && next.io@
            == request.io@ && next.buffer@ == more@,
        next_read matches Step::Start(next) && next.offset == request.offset + n && next.io@
            == request.io@,
        seek matches Seek::Moved(place) && place == request.offset + n,
{
}

/// After a read, whatever comes next happens right behind the bytes that the caller got: the next
/// read and the next write are requested there, for the same handle, and a seek by nothing reports
/// the place.
pub proof fn law_what_follows_a_read<T, K, E>(
    polled: &mut Adaptor<T, K>,
    room: &[u8],
    request: Request<T>,
    ended: &mut Adaptor<T, K>,
    outcome: Outcome<T, E>,
    n: usize,
    buf: &mut [u8],
    read: Result<usize, E>,
    writer: &mut Adaptor<T, K>,
    reader: &mut Adaptor<T, K>,
    seeker: &mut Adaptor<T, K>,
    more: &[u8],
    next_write: Step<T>,
    next_read: Step<T>,
    seek: Seek,
)
    requires
        call_ensures(Adaptor::<T, K>::poll_read, (polled, room), Step::Start(request)),
        outcome.io == request.io,
        outcome.offset == request.offset,
        outcome.result == Ok::<usize, E>(n),
        n <= outcome.buffer@.len(),
        request.offset + n <= u64::MAX,
        call_ensures(Adaptor::<T, K>::end_read::<E>, (ended, outcome, buf), read),
        *old(writer) == *final(ended),
        *old(reader) == *final(ended),
        *old(seeker) == *final(ended),
        call_ensures(Adaptor::<T, K>::poll_write, (writer, more), next_write),
        call_ensures(Adaptor::<T, K>::poll_read, (reader, more), next_read),
        call_ensures(Adaptor::<T, K>::poll_seek, (seeker, SeekFrom::Current(0)), seek),
    ensures
        request.buffer@.len() >= room@.len(),
        ({
            &&& read matches Ok(got)
            &&& n <= old(buf)@.len() ==> got == n
            &&& n > old(buf)@.len() ==> got == old(buf)@.len()
            &&& final(buf)@.take(got as int) == outcome.buffer@.take(got as int)
            &&& next_write matches Step::Start(next) && next.offset == request.offset + got
                && next.io@ == request.io@ && next.buffer@ == more@
            &&& next_read matches Step::Start(next) && next.offset == request.offset + got
                && next.io@ == request.io@
            &&& seek matches Seek::Moved(place) && place == request.offset + got
        }),
{
    let got = read->Ok_0 as int;
    assert(final(buf)@.take(got) == outcome.buffer@.take(got));
}

/// After a seek, the next read and the next write are requested at the place that it reported; a
/// seek from the start reports the place it was given.
pub proof fn law_what_follows_a_seek<T, K>(
    sought: &mut Adaptor<T, K>,
    pos: SeekFrom,
    place: u64,
    writer: &mut Adaptor<T, K>,
    reader: &mut Adaptor<T, K>,
    buf: &[u8],
    next_write: Step<T>,
    next_read: Step<T>,
)
    requires
        call_ensures(Adaptor::<T, K>::poll_seek, (sought, pos), Seek::Moved(place)),
        *old(writer) == *final(sought),
        *old(reader) == *final(sought),
        call_ensures(Adaptor::<T, K>::poll_write, (writer, buf), next_write),
        call_ensures(Adaptor::<T, K>::poll_read, (reader, buf), next_read),
    ensures
        pos matches SeekFrom::Start(start) ==> place == start,
        next_write matches Step::Start(next) && next.offset == place && next.buffer@ == buf@,
        next_read matches Step::Start(next) && next.offset == place,
{
}

/// What was written comes back. After a write and a seek to where it began, a read is requested
/// at that very place, and the caller gets the bytes that were written, as many as its buffer
/// holds, if that is what the object returns from there.
pub proof fn law_what_was_written_comes_back<T, K, E>(
    polled: &mut Adaptor<T, K>,
    data: &[u8],
    request: Request<T>,
    ended: &mut Adaptor<T, K>,
    outcome: Outcome<T, E>,
    written: Result<usize, E>,
    sought: &mut Adaptor<T, K>,
    seek: Seek,
    reader: &mut Adaptor<T, K>,
    room: &[u8],
    again: Step<T>,
    finished: &mut Adaptor<T, K>,
    arrived: Outcome<T, E>,
    n: usize,
    buf: &mut [u8],
    read: Result<usize, E>,
)
    requires
        call_ensures(Adaptor::<T, K>::poll_write, (polled, data), Step::Start(request)),
        outcome.io == request.io,
        outcome.offset == request.offset,
        call_ensures(Adaptor::<T, K>::end_write::<E>, (ended, outcome), written),
        *old(sought) == *final(ended),
        call_ensures(Adaptor::<T, K>::poll_seek, (sought, SeekFrom::Start(request.offset)), seek),
        *old(reader) == *final(sought),
        call_ensures(Adaptor::<T, K>::poll_read, (reader, room), again),
        call_ensures(Adaptor::<T, K>::end_read::<E>, (finished, arrived, buf), read),
        arrived.result == Ok::<usize, E>(n),
        n <= request.buffer@.len(),
        n <= arrived.buffer@.len(),
        arrived.buffer@.take(n as int) == request.buffer@.take(n as int),
    ensures
        again matches Step::Start(next) && next.offset == request.offset && next.io@ == request.io@
            && next.buffer@.len() >= room@.len(),
        ({
            &&& read matches Ok(got)
            &&& n <= old(buf)@.len() ==> got == n
            &&& n > old(buf)@.len() ==> got == old(buf)@.len()
            &&& forall|i: int| 0 <= i < got ==> #[trigger] final(buf)@[i] == data@[i]
        }),
{
    law_reads_end_behind_what_was_read(finished, arrived, buf, read);
    let got = read->Ok_0 as int;
    assert forall|i: int| 0 <= i < got implies #[trigger] final(buf)@[i] == data@[i] by {
        assert(arrived.buffer@.take(n as int)[i] == request.buffer@.take(n as int)[i]);
    }
}

/// Events are in order when every filed completion is filed under its own key, and events in
/// order can be delivered to, sorted, and taken from.
pub proof fn law_events_in_order<C>(
    this: &mut Events<C>,
    completion: Completion<C>,
    key: u64,
)
    ensures
        old(this)@.wf() <==> forall|k: u64| #[trigger]
            old(this)@.stored.contains_key(k) ==> old(this)@.stored[k].key == k,
        old(this)@.wf() ==> call_requires(Events::<C>::deliver, (this, completion)),
        old(this)@.wf() ==> call_requires(Events::<C>::take, (this, key)),
        old(this)@.wf() ==> call_requires(Events::<C>::sort, (this, key)),
{
}

/// A completion that is delivered to fresh events reaches its task: the task that sorts gets it
/// if it is its own, and finds nothing otherwise, in which case the completion's own task finds
/// it and finds it once.
pub proof fn law_delivered_completions_arrive<C>(
    fresh: Events<C>,
    delivered: &mut Events<C>,
    completion: Completion<C>,
    sorted: &mut Events<C>,
    key: u64,
    own: Option<Completion<C>>,
    taken: &mut Events<C>,
    found: Option<Completion<C>>,
    retaken: &mut Events<C>,
    again: Option<Completion<C>>,
)
    requires
        call_ensures(<Events<C> as Default>::default, (), fresh),
        *old(delivered) == fresh,
        call_ensures(Events::<C>::deliver, (delivered, completion), ()),
        *old(sorted) == *final(delivered),
        call_ensures(Events::<C>::sort, (sorted, key), own),
        *old(taken) == *final(sorted),
        call_ensures(Events::<C>::take, (taken, completion.key), found),
        *old(retaken) == *final(taken),
        call_ensures(Events::<C>::take, (retaken, completion.key), again),
    ensures
        call_requires(Events::<C>::deliver, (delivered, completion)),
        call_requires(Events::<C>::sort, (sorted, key)),
        call_requires(Events::<C>::take, (taken, completion.key)),
        call_requires(Events::<C>::take, (retaken, completion.key)),
        completion.key == key ==> own == Some(completion) && found is None,
        completion.key != key ==> own is None && found == Some(completion),
        again is None,
{
    let buffer = old(sorted)@.buffer;
    assert(buffer == seq![completion]);
    assert(buffer[0] == completion);
    crate::events::law_the_last_completion_counts(buffer, 0);
    if completion.key != key {
        crate::events::law_foreign_completions_do_not_count(buffer, key);
    }
}

/// Delivering puts a completion behind those that were delivered before, and files nothing.
pub proof fn law_deliveries_line_up<C>(this: &mut Events<C>, completion: Completion<C>)
    requires
        call_ensures(Events::<C>::deliver, (this, completion), ()),
    ensures
        final(this)@.buffer.len() == old(this)@.buffer.len() + 1,
        final(this)@.buffer.last() == completion,
        final(this)@.buffer.drop_last() == old(this)@.buffer,
        final(this)@.stored == old(this)@.stored,
{
}

/// Taking gives what is filed under the key, leaves nothing there, and touches nothing else.
pub proof fn law_taking_takes_one<C>(
    this: &mut Events<C>,
    key: u64,
    other: u64,
    taken: Option<Completion<C>>,
)
    requires
        call_ensures(Events::<C>::take, (this, key), taken),
        other != key,
    ensures
        taken is Some <==> old(this)@.stored.contains_key(key),
        taken is Some ==> taken == Some(old(this)@.stored[key]),
        !final(this)@.stored.contains_key(key),
        final(this)@.stored.contains_key(other) <==> old(this)@.stored.contains_key(other),
        old(this)@.stored.contains_key(other) ==> final(this)@.stored[other]
            == old(this)@.stored[other],
        final(this)@.buffer == old(this)@.buffer,
{
}

/// Sorting empties the buffer and hands each completion on. The last one of the sorting task's key
/// is returned; the last one of any other key is filed under that key, over what was there. What
/// was filed under the sorting task's own key stays.
pub proof fn law_sorting_hands_on<C>(
    this: &mut Events<C>,
    key: u64,
    own: Option<Completion<C>>,
    i: int,
)
    requires
        call_ensures(Events::<C>::sort, (this, key), own),
        0 <= i < old(this)@.buffer.len(),
        forall|j: int|
            i < j < old(this)@.buffer.len() ==> (#[trigger] old(this)@.buffer[j]).key
                != old(this)@.buffer[i].key,
    ensures
        final(this)@.buffer.len() == 0,
        ({
            let completion = old(this)@.buffer[i];
            &&& completion.key == key ==> own == Some(completion)
            &&& completion.key != key ==> final(this)@.stored.contains_key(completion.key)
                && final(this)@.stored[completion.key] == completion
        }),
        final(this)@.stored.contains_key(key) <==> old(this)@.stored.contains_key(key),
        old(this)@.stored.contains_key(key) ==> final(this)@.stored[key] == old(this)@.stored[key],
{
    crate::events::law_the_last_completion_counts(old(this)@.buffer, i);
}

/// Sorting makes nothing up: a key that no delivered completion has is left as it was, and if it
/// is the sorting task's own, the task gets nothing.
pub proof fn law_sorting_makes_nothing_up<C>(
    this: &mut Events<C>,
    key: u64,
    own: Option<Completion<C>>,
    other: u64,
)
    requires
        call_ensures(Events::<C>::sort, (this, key), own),
        forall|j: int|
            0 <= j < old(this)@.buffer.len() ==> (#[trigger] old(this)@.buffer[j]).key != other,
    ensures
        final(this)@.buffer.len() == 0,
        other == key ==> own is None,
        final(this)@.stored.contains_key(other) <==> old(this)@.stored.contains_key(other),
        old(this)@.stored.contains_key(other) ==> final(this)@.stored[other]
            == old(this)@.stored[other],
{
    crate::events::law_foreign_completions_do_not_count(old(this)@.buffer, other);
}

/// The first poll of the queue lasts no longer than two microseconds, each fruitless poll allows
/// the next one more time, and after the fourteenth there is no limit.
pub proof fn law_limits_grow(fewer: usize, more: usize, short: Option<u64>, long: Option<u64>)
    requires
        fewer < more,
        call_ensures(crate::events::backoff, (fewer,), short),
        call_ensures(crate::events::backoff, (more,), long),
    ensures
        fewer == 0 ==> short == Some(2u64),
        more < 14 ==> short is Some && long is Some && short->0 < long->0 <= 10_000,
        more == 13 ==> long == Some(10_000u64),
        more >= 14 ==> long is None,
        short is Some <==> fewer < 14,
{
}

/// The time limits of the polls, one by one.
pub proof fn law_limits(snoozes: usize, limit: Option<u64>)
    requires
        call_ensures(crate::events::backoff, (snoozes,), limit),
        snoozes < 14,
    ensures
        limit == Some(
            seq![2u64, 3, 5, 10, 50, 75, 100, 250, 500, 750, 1000, 2500, 5000, 10_000][
                snoozes as int],
        ),
{
}

/// A task that begins to wait looks for its completion as `take` does, and otherwise polls for
/// the time that its fruitless polls so far have earned it.
pub proof fn law_checking_takes_or_polls<C>(
    pump: Pump,
    checked: &mut Events<C>,
    answer: Checked<C>,
    taken: &mut Events<C>,
    found: Option<Completion<C>>,
    limit: Option<u64>,
)
    requires
        old(checked)@.wf(),
        *old(taken) == *old(checked),
        call_ensures(Pump::check::<C>, (&pump, checked), answer),
        call_ensures(Events::<C>::take, (taken, pump.key), found),
        call_ensures(crate::events::backoff, (pump.backoff_index,), limit),
    ensures
        call_requires(Pump::check::<C>, (&pump, checked)),
        final(checked)@ == final(taken)@,
        found matches Some(completion) ==> answer == Checked::Found(completion),
        found is None ==> answer == Checked::<C>::Poll(limit),
{
}

/// A new task waits for the key it was given, and has made no fruitless poll.
pub proof fn law_new_tasks_are_fresh(key: u64, pump: Pump)
    requires
        call_ensures(Pump::new, (key,), pump),
    ensures
        pump.key == key,
        pump.backoff_index == 0,
{
}

/// A poll that failed ends the wait with its error. Neither the events nor the task change.
pub proof fn law_failed_polls_end_the_wait<C, E>(
    pump: &mut Pump,
    events: &mut Events<C>,
    error: E,
    pumped: Pumped<C, E>,
)
    requires
        old(events)@.wf(),
        call_ensures(Pump::wake::<C, E>, (pump, events, Wake::Polled(Err(error))), pumped),
    ensures
        call_requires(Pump::wake::<C, E>, (pump, events, Wake::Polled(Err(error)))),
        pumped == Pumped::<C, E>::Done(Err(error)),
        final(events)@ == old(events)@,
        *final(pump) == *old(pump),
{
}

/// A poll that brought nothing, in time or not, leaves the events alone, and the task goes on for
/// the same key with one fruitless poll more.
pub proof fn law_fruitless_polls_are_counted<C, E>(
    pump: &mut Pump,
    events: &mut Events<C>,
    wake: Wake<E>,
    pumped: Pumped<C, E>,
)
    requires
        old(events)@.wf(),
        wake is TimedOut || wake == Wake::<E>::Polled(Ok(0)),
        call_ensures(Pump::wake::<C, E>, (pump, events, wake), pumped),
    ensures
        call_requires(Pump::wake::<C, E>, (pump, events, wake)),
        pumped is Again,
        final(events)@ == old(events)@,
        final(pump).key == old(pump).key,
        old(pump).backoff_index < usize::MAX ==> final(pump).backoff_index
            == old(pump).backoff_index + 1,
        old(pump).backoff_index == usize::MAX ==> final(pump).backoff_index == usize::MAX,
{
}

/// After a poll that brought completions the task sorts them. If its own is there, the wait is
/// over; otherwise the task goes on for the same key as if it had made no fruitless poll.
pub proof fn law_fruitful_polls_sort<C, E>(
    pump: &mut Pump,
    events: &mut Events<C>,
    delivered: usize,
    pumped: Pumped<C, E>,
    sorted: &mut Events<C>,
    own: Option<Completion<C>>,
)
    requires
        old(events)@.wf(),
        delivered > 0,
        call_ensures(Pump::wake::<C, E>, (pump, events, Wake::Polled(Ok(delivered))), pumped),
        *old(sorted) == *old(events),
        call_ensures(Events::<C>::sort, (sorted, old(pump).key), own),
    ensures
        call_requires(Pump::wake::<C, E>, (pump, events, Wake::Polled(Ok(delivered)))),
        final(events)@ == final(sorted)@,
        final(pump).key == old(pump).key,
        own matches Some(completion) ==> pumped == Pumped::<C, E>::Done(Ok(completion)),
        own is None ==> pumped is Again && final(pump).backoff_index == 0,
{
}

/// Operations are numbered one after the other, and the numbers start over behind the last.
pub proof fn law_keys_follow_each_other(first: &mut Keys, key: u64, second: &mut Keys, next: u64)
    requires
        call_ensures(Keys::operation, (first,), key),
        *old(second) == *final(first),
        call_ensures(Keys::operation, (second,), next),
    ensures
        key == old(first).next_id,
        key < u64::MAX ==> next == key + 1,
        key == u64::MAX ==> next == 0,
{
}

/// A runtime is had just where there is a completion queue. It holds that queue, has no events,
/// and numbers its first operation 0.
pub proof fn law_runtimes_need_a_queue<R, C, E>(
    ring: Result<R, E>,
    runtime: Option<Runtime<R, C>>,
    fresh: Keys,
    keys: &mut Keys,
    key: u64,
)
    requires
        call_ensures(Runtime::<R, C>::get::<E>, (ring,), runtime),
        call_ensures(Keys::new, (), fresh),
        runtime is Some ==> *old(keys) == runtime->0.keys,
        call_ensures(Keys::operation, (keys,), key),
    ensures
        fresh.next_id == 0,
        runtime is Some <==> ring is Ok,
        runtime matches Some(runtime) ==> ({
            &&& Ok::<R, E>(runtime.ring) == ring
            &&& runtime.events@.buffer.len() == 0
            &&& forall|k: u64| !(#[trigger] runtime.events@.stored.contains_key(k))
            &&& key == 0
        }),
{
}

} // verus!
