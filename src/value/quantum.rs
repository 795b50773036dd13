//! Quantum values.

use vstd::prelude::*;

use super::{sealed, QasmValue};

verus! {

/// A quantum value.
#[derive(Debug, PartialEq, Eq)]
pub enum Value {
    VirtualQubit(VirtualQubit),
    HardwareQubit(HardwareQubit),
}

impl sealed::Sealed for Value {}

impl QasmValue for Value {}

/// The state of a virtual qubit; `Undefined` until it is set.
#[derive(Debug, PartialEq, Eq)]
pub enum VirtualQubit {
    Undefined,
    Zero,
    One,
}

impl sealed::Sealed for VirtualQubit {}

impl QasmValue for VirtualQubit {}

impl Default for VirtualQubit {
    fn default() -> (r: Self)
        ensures
            r == VirtualQubit::Undefined,
    {
        VirtualQubit::Undefined
    }
}

/// The qubit that a boolean stands for: `true` is `One`, `false` is `Zero`.
pub open spec fn virtual_qubit_of(b: bool) -> VirtualQubit {
    if b {
        VirtualQubit::One
    } else {
        VirtualQubit::Zero
    }
}

impl From<bool> for VirtualQubit {
    fn from(value: bool) -> (r: Self)
        ensures
            r == virtual_qubit_of(value),
    {
        if value {
            Self::One
        } else {
            Self::Zero
        }
    }
}

impl vstd::std_specs::convert::FromSpecImpl<bool> for VirtualQubit {
    open spec fn obeys_from_spec() -> bool {
        true
    }

    open spec fn from_spec(v: bool) -> Self {
        virtual_qubit_of(v)
    }
}

/// The state of a hardware qubit; `Undefined` until it is set.
#[derive(Debug, PartialEq, Eq)]
pub enum HardwareQubit {
    Undefined,
    Zero,
    One,
}

impl sealed::Sealed for HardwareQubit {}

impl QasmValue for HardwareQubit {}

impl Default for HardwareQubit {
    fn default() -> (r: Self)
        ensures
            r == HardwareQubit::Undefined,
    {
        HardwareQubit::Undefined
    }
}

/// The qubit that a boolean stands for: `true` is `One`, `false` is `Zero`.
pub open spec fn hardware_qubit_of(b: bool) -> HardwareQubit {
    if b {
        HardwareQubit::One
    } else {
        HardwareQubit::Zero
    }
}

impl From<bool> for HardwareQubit {
    fn from(value: bool) -> (r: Self)
        ensures
            r == hardware_qubit_of(value),
    {
        if value {
            Self::One
        } else {
            Self::Zero
        }
    }
}

impl vstd::std_specs::convert::FromSpecImpl<bool> for HardwareQubit {
    open spec fn obeys_from_spec() -> bool {
        true
    }

    open spec fn from_spec(v: bool) -> Self {
        hardware_qubit_of(v)
    }
}

impl From<VirtualQubit> for Value {
    fn from(value: VirtualQubit) -> (r: Self)
        ensures
            r == Value::VirtualQubit(value),
    {
        Value::VirtualQubit(value)
    }
}

impl vstd::std_specs::convert::FromSpecImpl<VirtualQubit> for Value {
    open spec fn obeys_from_spec() -> bool {
        true
    }

    open spec fn from_spec(v: VirtualQubit) -> Self {
        Value::VirtualQubit(v)
    }
}

impl From<HardwareQubit> for Value {
    fn from(value: HardwareQubit) -> (r: Self)
        ensures
            r == Value::HardwareQubit(value),
    {
        Value::HardwareQubit(value)
    }
}

impl vstd::std_specs::convert::FromSpecImpl<HardwareQubit> for Value {
    open spec fn obeys_from_spec() -> bool {
        true
    }

    open spec fn from_spec(v: HardwareQubit) -> Self {
        Value::HardwareQubit(v)
    }
}

/// Converting a boolean never gives an undefined qubit.
pub proof fn lemma_bool_to_qubit(b: bool)
    ensures
        virtual_qubit_of(b) == (if b { VirtualQubit::One } else { VirtualQubit::Zero }),
        hardware_qubit_of(b) == (if b { HardwareQubit::One } else { HardwareQubit::Zero }),
        virtual_qubit_of(b) != VirtualQubit::Undefined,
        hardware_qubit_of(b) != HardwareQubit::Undefined,
{
}

} // verus!
