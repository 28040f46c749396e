//! Named pipes (FIFOs) on Unix, as a library that decides and never blocks.
//!
//! A FIFO is addressed by its place in the file system. [`NamedPipePath`] holds
//! that place and nothing else: no descriptor is ever kept open. Readers and
//! writers are made from it and carry a duplicate of the place.
//!
//! Every operation on a FIFO may suspend its caller for an unbounded time: an
//! open for reading waits for a writer, an open for writing waits for a reader.
//! The functions of this library therefore do not touch the FIFO themselves.
//! They return the request that is to be made of the system ([`CreateRequest`],
//! [`RemoveRequest`], [`ReadRequest`], [`WriteRequest`]), and turn what the
//! system answered into the result of the operation. Whoever performs the
//! requests chooses threads or tasks, time limits and retries.
//!
//! The module [`model`] states how the system is taken to answer, and proves
//! what follows for sequences of operations.

pub mod error;
pub mod host;
pub mod mode;
pub mod model;
pub mod named_pipe;
pub mod request;
pub mod util;

pub use error::{CreationError, IoError};
pub use mode::PipeMode;
pub use named_pipe::{NamedPipePath, NamedPipeReader, NamedPipeWriter};
pub use request::{CreateRequest, ReadRequest, RemoveRequest, WriteRequest};
pub use util::{create_pipe, remove_pipe};
