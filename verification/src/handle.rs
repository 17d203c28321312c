//! Handles to file-like objects.
//!
//! A [`Handle`] either hands its operations to a thread pool or submits them to a completion
//! queue. Which of the two it does is settled when the handle is made.
use blocking::Unblock;
use vstd::prelude::*;

verus! {

/// `blocking::Unblock`, an object whose blocking operations run on a thread pool.
#[verifier::external_type_specification]
#[verifier::external_body]
#[verifier::reject_recursive_types(T)]
pub struct ExUnblock<T>(Unblock<T>);

/// `blocking::Unblock::new` wraps an object for the thread pool. It does so without running
/// anything, and it never fails. That the wrapper holds the object is left unsaid: nothing
/// but the thread pool can look inside.
pub assume_specification<T>[ Unblock::<T>::new ](io: T) -> (pool: Unblock<T>)
;

/// `pool` is what `Unblock::new` makes of `io`.
pub open spec fn wraps<T>(pool: Unblock<T>, io: T) -> bool {
    call_ensures(Unblock::<T>::new, (io,), pool)
}

/// Call `f`.
pub(crate) fn call<A, B, F: FnOnce(A) -> B>(f: F, argument: A) -> (result: B)
    requires
        call_requires(f, (argument,)),
    ensures
        call_ensures(f, (argument,), result),
{
    f(argument)
}

/// The raw handle of an object that is registered with the completion queue: the number by which
/// the operating system knows the object.
#[derive(Debug, Copy, Clone, PartialEq, Eq, Structural)]
pub struct RawContainer(pub isize);

impl RawContainer {
    /// The number.
    pub fn as_raw(&self) -> (raw: isize)
        ensures
            raw == self.0,
    {
        self.0
    }
}

/// The two kinds of handle.
#[verifier::reject_recursive_types(T)]
pub enum Repr<T> {
    /// The completion queue is not available, and the handle is backed by a thread pool.
    Blocking(Unblock<T>),
    /// The completion queue is available, and the handle is backed by it.
    Submission {
        /// The actual I/O object.
        io: T,
        /// The raw handle of this object.
        raw: RawContainer,
    },
}

/// Mutable access to what a handle wraps.
#[verifier::reject_recursive_types(T)]
pub enum Access<'a, T> {
    /// The object may be in use by a thread, which has to give it back first.
    Pool(&'a mut Unblock<T>),
    /// The object itself.
    Object(&'a mut T),
}

/// What remains of a handle.
#[verifier::reject_recursive_types(T)]
pub enum Inner<T> {
    /// The object may be in use by a thread, which has to give it back first.
    Pool(Unblock<T>),
    /// The object itself.
    Object(T),
}

/// What remains of a handle of this kind.
pub open spec fn extracted<T>(handle: Repr<T>) -> Inner<T> {
    match handle {
        Repr::Blocking(pool) => Inner::Pool(pool),
        Repr::Submission { io, .. } => Inner::Object(io),
    }
}

/// What a handle becomes of an object, given what came of registering it with the completion
/// queue.
pub open spec fn made_of<T, E>(
    io: T,
    registration: Option<Result<RawContainer, E>>,
    made: Result<Repr<T>, E>,
) -> bool {
    match registration {
        None => made matches Ok(Repr::Blocking(pool)) && wraps(pool, io),
        Some(Ok(raw)) => made == Ok::<Repr<T>, E>(Repr::Submission { io, raw }),
        Some(Err(error)) => made == Err::<Repr<T>, E>(error),
    }
}

/// Async adaptor for file handle types.
///
/// This type will do one of two things:
///
/// - If a completion queue is available, it will use it to run asynchronous operations on the
///   object, which has been registered there.
/// - Otherwise, it will use a thread pool to run blocking operations.
///
/// ## Caveats
///
/// `Handle` is a lower-level primitive. It takes ownership of a buffer for as long as an
/// operation lasts, and gives it back. For a primitive with higher-level functionality, see
/// [`Adaptor`](crate::adaptor::Adaptor).
#[verifier::reject_recursive_types(T)]
pub struct Handle<T>(Repr<T>);

impl<T> View for Handle<T> {
    type V = Repr<T>;

    closed spec fn view(&self) -> Repr<T> {
        self.0
    }
}

impl<T> Handle<T> {
    /// Create a new `Handle`.
    ///
    /// `registration` is what came of registering the object with the completion queue, and
    /// `None` where there is no queue.
    pub fn new<E>(io: T, registration: Option<Result<RawContainer, E>>) -> (made: Result<Self, E>)
        ensures
            made_of(
                io,
                registration,
                match made {
                    Ok(handle) => Ok(handle@),
                    Err(error) => Err(error),
                },
            ),
    {
        match registration {
            Some(Ok(raw)) => Ok(Handle(Repr::Submission { io, raw })),
            Some(Err(error)) => Err(error),
            None => Ok(Self::new_blocking(io)),
        }
    }

    /// Create a new `Handle` that does not use asynchronous I/O and instead uses a thread pool.
    ///
    /// Usually, asynchronous file I/O is able to quickly read from a file but not write to it.
    /// If you know you are going to be writing more often than you are reading, it may be a
    /// better choice to use this method to create a `Handle` that uses a thread pool instead of
    /// a completion queue.
    pub fn new_blocking(io: T) -> (handle: Self)
        ensures
            handle@ matches Repr::Blocking(pool) && wraps(pool, io),
    {
        Handle(Repr::Blocking(call(Unblock::<T>::new, io)))
    }

    /// Whether operations on this handle run on a thread pool.
    pub fn is_blocking(&self) -> (blocking: bool)
        ensures
            blocking == (self@ is Blocking),
    {
        matches!(self.0, Repr::Blocking(_))
    }

    /// The raw handle of the object, if it is registered with the completion queue.
    pub fn raw(&self) -> (raw: Option<RawContainer>)
        ensures
            raw == (match self@ {
                Repr::Blocking(_) => None,
                Repr::Submission { raw, .. } => Some(raw),
            }),
    {
        match &self.0 {
            Repr::Blocking(_) => None,
            Repr::Submission { raw, .. } => Some(*raw),
        }
    }

    /// Get mutable access to what the handle wraps.
    pub fn get_mut(&mut self) -> (access: Access<'_, T>)
        ensures
            match old(self)@ {
                Repr::Blocking(pool) => access matches Access::Pool(borrowed) && *borrowed == pool
                    && final(self)@ == Repr::Blocking(*final(borrowed)),
                Repr::Submission { io, raw } => access matches Access::Object(borrowed)
                    && *borrowed == io && final(self)@ == (Repr::Submission {
                    io: *final(borrowed),
                    raw,
                }),
            },
    {
        match &mut self.0 {
            Repr::Blocking(pool) => Access::Pool(pool),
            Repr::Submission { io, .. } => Access::Object(io),
        }
    }

    /// Extracts what the handle wraps.
    pub fn into_inner(self) -> (inner: Inner<T>)
        ensures
            inner == extracted(self@),
    {
        match self.0 {
            Repr::Blocking(pool) => Inner::Pool(pool),
            Repr::Submission { io, .. } => Inner::Object(io),
        }
    }
}

/// An object that was registered with the completion queue comes back out of its handle, and
/// one whose registration failed gets no handle.
pub proof fn law_registered_objects_come_back<T, E>(
    io: T,
    registration: Result<RawContainer, E>,
    made: Result<Repr<T>, E>,
)
    requires
        made_of(io, Some(registration), made),
    ensures
        made is Ok <==> registration is Ok,
        made matches Ok(handle) ==> extracted(handle) == Inner::Object(io),
{
}

} // verus!
