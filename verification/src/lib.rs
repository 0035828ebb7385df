//! Core logic of an asynchronous I/O runtime built on a completion-based
//! kernel interface.
//!
//! The crate verifies the protocol logic of the runtime: the packed
//! event-data and operation-state encodings, the per-operation slot state
//! machine, the per-resource operation table and its poll protocol, the
//! worker's resource slab and cleanup pipeline, and the worker's event
//! routing. The surrounding glue (the kernel ring itself, wakers, sockets)
//! is ordinary asynchronous Rust and lives outside this library.

pub mod channel;
pub mod event;
pub mod handles;
pub mod ops;
pub mod resource;
pub mod slab;
pub mod state;
pub mod worker;

use vstd::prelude::*;

verus! {

/// The error taxonomy of the runtime. Every fallible public operation
/// surfaces one of these.
#[derive(Clone, Copy, Debug, PartialEq, Eq, Structural)]
pub enum Error {
    /// A kernel errno, reported by a completion entry or by a submit call.
    /// The payload is the positive errno value.
    Io(i32),
    /// The resource table is full: a new index would not fit in `u32`.
    TooManyResources,
    /// A buffer length does not fit in an opcode's 32-bit length field.
    BufferTooLarge,
    /// A read or write was attempted after shutdown of the resource started.
    ResourceClosing,
    /// The runtime has been stopped or dropped.
    NoRuntime,
}

impl Error {
    /// A human-readable description of the error.
    pub fn describe(&self) -> (r: &'static str)
        ensures
            r@ =~= self.describe_spec(),
    {
        match self {
            Error::Io(_) => "I/O error",
            Error::TooManyResources => "too many resources registered",
            Error::BufferTooLarge => "buffer too large",
            Error::ResourceClosing => "resource is closing",
            Error::NoRuntime => "runtime is dead or unreachable",
        }
    }

    pub open spec fn describe_spec(&self) -> Seq<char> {
        match self {
            Error::Io(_) => "I/O error"@,
            Error::TooManyResources => "too many resources registered"@,
            Error::BufferTooLarge => "buffer too large"@,
            Error::ResourceClosing => "resource is closing"@,
            Error::NoRuntime => "runtime is dead or unreachable"@,
        }
    }
}

} // verus!
