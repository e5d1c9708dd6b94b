//! Harness support for invoking a single exported function of a compiled
//! eBPF program directly, without re-linking the program with a new
//! entrypoint.
//!
//! The heavy machinery (bytecode verification, the interpreter, memory
//! permission enforcement) lives in the external virtual-machine library;
//! this crate holds the glue that is worth getting exactly right: the
//! synthetic jump-instruction encoding, the virtual-address layout of the
//! memory regions, symbol resolution against the function registry,
//! parameter serialization, and the reusable buffer pool.

use vstd::prelude::*;

pub mod driver;
pub mod insn;
pub mod layout;
pub mod params;
pub mod pool;
pub mod registry;

verus! {

/// A setup failure of one invocation. Every setup error is terminal for the
/// call: the harness never retries a transition.
#[derive(Clone, Copy, Debug, PartialEq, Eq, Structural)]
pub enum InvokeError {
    /// No entry of the function registry carries the hash of the requested
    /// symbol name.
    FunctionNotFound,
    /// The resolved program counter does not fit the 16-bit offset field of
    /// the synthetic jump instruction.
    TargetOutOfRange,
    /// One of the memory regions would not fit the 4 GiB window that the VM
    /// ABI reserves for it.
    RegionTooLarge,
}

} // verus!
