//! Runtimes that execute a bound program.

use vstd::prelude::*;

mod args_buffer;
pub mod layout;
pub mod quantum_simulator;

verus! {

/// A runtime: what a successful execution yields and how a failed one is
/// reported.
pub trait QuantoRuntime {
    type Output;
    type Error: core::fmt::Debug;
}

} // verus!
