//! Values handed to and received from a runtime.

use vstd::prelude::*;

pub mod quantum;
pub mod scalar;
mod sealed;

verus! {

/// A value of the language: implemented only by the types of this module.
pub trait QasmValue: sealed::Sealed {}

/// Any value of the language: a quantum or a scalar one.
#[derive(Debug, PartialEq, Eq)]
pub enum Value {
    Quantum(quantum::Value),
    Scalar(scalar::Value),
}

impl sealed::Sealed for Value {}

impl QasmValue for Value {}

impl From<quantum::Value> for Value {
    fn from(value: quantum::Value) -> (r: Self)
        ensures
            r == Value::Quantum(value),
    {
        Value::Quantum(value)
    }
}

impl vstd::std_specs::convert::FromSpecImpl<quantum::Value> for Value {
    open spec fn obeys_from_spec() -> bool {
        true
    }

    open spec fn from_spec(v: quantum::Value) -> Self {
        Value::Quantum(v)
    }
}

impl From<scalar::Value> for Value {
    fn from(value: scalar::Value) -> (r: Self)
        ensures
            r == Value::Scalar(value),
    {
        Value::Scalar(value)
    }
}

impl vstd::std_specs::convert::FromSpecImpl<scalar::Value> for Value {
    open spec fn obeys_from_spec() -> bool {
        true
    }

    open spec fn from_spec(v: scalar::Value) -> Self {
        Value::Scalar(v)
    }
}

} // verus!
