//! Asynchronous operations on file-like objects.
//!
//! For socket-like system resources there are ways to use a resource in asynchronous programs
//! as soon as it is ready. These do not work with file-like objects, such as files, pipes and
//! the standard output. Their operations are either offloaded onto a thread pool or handed to a
//! completion queue of the operating system.
//!
//! This library holds the decisions that both ways have in common:
//!
//! - [`Handle`]: a lower level wrapper around file-like objects. A buffer is passed into an
//!   operation, and comes back once the operation is over. [`operation`] says what is done with
//!   an operation, step by step.
//! - [`Adaptor`]: a higher level wrapper that keeps a position and a buffer of its own.
//! - [`runtime`] and [`events`]: how any number of tasks share one completion queue, and how each
//!   gets the completion of its own operation.
//! - [`OpenOptions`] and [`unlink`]: how files are opened and removed.
//! - [`laws`]: what these do, from one call to the next.
//!
//! Nothing here waits, blocks, or makes a system call. Each function says what is to be done
//! next, and is told what came of it.
pub mod adaptor;
pub mod events;
pub mod handle;
pub mod laws;
pub mod operation;
pub mod options;
pub mod runtime;
pub mod seek;

pub use crate::adaptor::Adaptor;
pub use crate::handle::Handle;
pub use crate::options::{unlink, OpenOptions};
pub use crate::seek::{MaybeSeek, SeekFrom, WontSeek};
