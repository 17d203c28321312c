//! Positions in a file, and objects that may or may not be seekable.
use vstd::prelude::*;
use vstd::std_specs::convert::FromSpecImpl;

verus! {

/// A place to seek to, relative to one of three origins.
#[derive(Debug, Copy, Clone, PartialEq, Eq, Structural)]
pub enum SeekFrom {
    /// An offset from the start.
    Start(u64),
    /// An offset from the end.
    End(i64),
    /// An offset from the current position.
    Current(i64),
}

/// An object that may or may not be able to be seeked into.
///
/// Certain objects, like files, are seekable. Others, like pipes, are not.
/// This trait abstracts over the two. [`WontSeek`] wraps an object that can't
/// seek. `Error` is the error of the underlying object.
pub trait MaybeSeek {
    /// What goes wrong when seeking does.
    type Error;

    /// Seek to the specified location, or do nothing.
    fn seek(&mut self, pos: SeekFrom) -> Result<Option<u64>, Self::Error>;
}

/// An object whose seeking properties should be ignored.
///
/// Many functions in this crate are parameterized by an offset into the presumed
/// file. However, certain types, like standard input/output, are streams where
/// offsets make no sense. In this case, the type should be wrapped in `WontSeek`
/// to indicate that seeking should be ignored.
#[derive(Debug, Copy, Clone, PartialEq, Eq, PartialOrd, Ord, Hash, Default)]
pub struct WontSeek<T>(pub T);

impl<T> core::ops::Deref for WontSeek<T> {
    type Target = T;

    fn deref(&self) -> (inner: &T)
        ensures
            *inner == self.0,
    {
        &self.0
    }
}

impl<T> core::ops::DerefMut for WontSeek<T> {
    fn deref_mut(&mut self) -> (inner: &mut T)
        ensures
            *inner == old(self).0,
            final(self).0 == *final(inner),
    {
        &mut self.0
    }
}

impl<T> From<T> for WontSeek<T> {
    fn from(val: T) -> (wrapped: Self)
    {
        WontSeek(val)
    }
}

impl<T> FromSpecImpl<T> for WontSeek<T> {
    open spec fn obeys_from_spec() -> bool {
        true
    }

    open spec fn from_spec(val: T) -> Self {
        WontSeek(val)
    }
}

impl<T> MaybeSeek for WontSeek<T> {
    type Error = core::convert::Infallible;

    /// Seeking is ignored: there is no position to report, and the object stays as it is.
    fn seek(&mut self, _pos: SeekFrom) -> (moved: Result<Option<u64>, core::convert::Infallible>)
        ensures
            moved matches Ok(None),
            *final(self) == *old(self),
    {
        Ok(None)
    }
}

/// The position `count` bytes after `offset`, no further than the last one.
pub open spec fn advanced(offset: u64, count: int) -> u64
    recommends
        0 <= count,
{
    if offset + count <= u64::MAX {
        (offset + count) as u64
    } else {
        u64::MAX
    }
}

/// Advance `offset` past `count` transferred bytes, without passing the last position.
pub fn advance(offset: u64, count: usize) -> (next: u64)
    ensures
        next == advanced(offset, count as int),
{
    offset.saturating_add(count as u64)
}

/// The farthest position that a relative seek from `offset` reaches. Positions that a signed
/// number can hold are not left through a relative seek forward.
pub open spec fn farthest(offset: u64) -> u64 {
    if offset <= i64::MAX {
        i64::MAX as u64
    } else {
        u64::MAX
    }
}

/// The position `delta` bytes from `offset`, no further than the farthest one. There is none
/// before byte 0.
pub open spec fn displaced(offset: u64, delta: i64) -> Option<u64> {
    if offset + delta < 0 {
        None
    } else if offset + delta <= farthest(offset) {
        Some((offset + delta) as u64)
    } else {
        Some(farthest(offset))
    }
}

/// Move `offset` by `delta`, unless that is before byte 0.
pub fn displace(offset: u64, delta: i64) -> (moved: Option<u64>)
    ensures
        moved == displaced(offset, delta),
{
    let sum: i128 = offset as i128 + delta as i128;
    let farthest: u64 = if offset <= i64::MAX as u64 {
        i64::MAX as u64
    } else {
        u64::MAX
    };
    if sum < 0 {
        None
    } else if sum <= farthest as i128 {
        Some(sum as u64)
    } else {
        Some(farthest)
    }
}

/// Seeking by zero bytes from the current position reports the position, wherever it is.
pub proof fn law_seeking_by_nothing_stays(offset: u64)
    ensures
        displaced(offset, 0) == Some(offset),
{
}

/// Seeking from the current position moves by just the given number of bytes, as far as there
/// are positions to reach.
pub proof fn law_seeking_adds(offset: u64, delta: i64)
    requires
        0 <= offset + delta <= farthest(offset),
    ensures
        displaced(offset, delta) == Some((offset + delta) as u64),
{
}

/// Seeking before byte 0 fails, and nothing else does.
pub proof fn law_only_negative_positions_are_refused(offset: u64, delta: i64)
    ensures
        displaced(offset, delta) is None <==> offset + delta < 0,
{
}

/// Seeking never moves the wrong way.
pub proof fn law_seeking_keeps_its_direction(offset: u64, delta: i64)
    ensures
        displaced(offset, delta) matches Some(moved) ==> {
            &&& delta >= 0 ==> moved >= offset
            &&& delta <= 0 ==> moved <= offset
        },
{
}

/// Seeking there and back again ends where it began, unless the way there or the way back was
/// cut short.
pub proof fn law_seeking_back_undoes(offset: u64, delta: i64)
    requires
        delta != i64::MIN,
        0 <= offset + delta <= farthest(offset),
        offset <= farthest((offset + delta) as u64),
    ensures
        displaced(offset, delta) matches Some(moved) && displaced(moved, (-delta) as i64) == Some(
            offset,
        ),
{
}

/// Two transfers in a row end where one transfer of all their bytes would.
pub proof fn law_transfers_add_up(offset: u64, first: nat, second: nat)
    ensures
        advanced(advanced(offset, first as int), second as int) == advanced(
            offset,
            (first + second) as int,
        ),
        advanced(offset, first as int) >= offset,
        offset + first <= u64::MAX ==> advanced(offset, first as int) == offset + first,
{
}

} // verus!
