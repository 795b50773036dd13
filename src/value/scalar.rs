//! Scalar values.

use vstd::prelude::*;

use super::{sealed, QasmValue};

verus! {

/// A scalar value.
#[derive(Debug, PartialEq, Eq)]
pub enum Value {
    Bit(Bit),
    UInt8(UnsignedInteger<u8, 8>),
    UInt16(UnsignedInteger<u16, 16>),
    UInt32(UnsignedInteger<u32, 32>),
    UInt64(UnsignedInteger<u64, 64>),
    UInt128(UnsignedInteger<u128, 128>),
    Float32(Float32),
    Float64(Float64),
    Void(Void),
}

impl sealed::Sealed for Value {}

impl QasmValue for Value {}

/// A single classical bit.
#[derive(Debug, Default, PartialEq, Eq)]
pub struct Bit(pub bool);

/// A fixed-size register of classical bits.
#[derive(Debug, PartialEq, Eq)]
pub struct Bits<const N: usize>(pub [bool; N]);

/// An unsigned integer of `BITS` bits, held in the native integer `T` of
/// that width.
#[derive(Debug, PartialEq, Eq)]
pub struct UnsignedInteger<T, const BITS: usize>(pub T);

/// A 32-bit float, held as its IEEE-754 bit pattern, unchanged (NaN payloads
/// and the sign of zero included).
#[derive(Debug, Default, PartialEq, Eq)]
pub struct Float32(pub u32);

impl sealed::Sealed for Float32 {}

impl QasmValue for Float32 {}

/// A 64-bit float, held as its IEEE-754 bit pattern, unchanged (NaN payloads
/// and the sign of zero included).
#[derive(Debug, Default, PartialEq, Eq)]
pub struct Float64(pub u64);

impl sealed::Sealed for Float64 {}

impl QasmValue for Float64 {}

/// The scalar kind that has no value: no instance of it can be built, so
/// code that receives one is unreachable.
#[derive(Debug, PartialEq, Eq)]
pub struct Void {
    never: core::convert::Infallible,
}

impl Void {
    /// No value of `Void` exists.
    #[verifier::type_invariant]
    pub closed spec fn inhabited(&self) -> bool {
        false
    }
}

impl From<bool> for Bit {
    fn from(value: bool) -> (r: Self)
        ensures
            r == Bit(value),
    {
        Bit(value)
    }
}

impl vstd::std_specs::convert::FromSpecImpl<bool> for Bit {
    open spec fn obeys_from_spec() -> bool {
        true
    }

    open spec fn from_spec(v: bool) -> Self {
        Bit(v)
    }
}

impl From<bool> for Value {
    fn from(value: bool) -> (r: Self)
        ensures
            r == Value::Bit(Bit(value)),
    {
        Value::Bit(Bit(value))
    }
}

impl vstd::std_specs::convert::FromSpecImpl<bool> for Value {
    open spec fn obeys_from_spec() -> bool {
        true
    }

    open spec fn from_spec(v: bool) -> Self {
        Value::Bit(Bit(v))
    }
}

impl From<Bit> for Value {
    fn from(value: Bit) -> (r: Self)
        ensures
            r == Value::Bit(value),
    {
        Value::Bit(value)
    }
}

impl vstd::std_specs::convert::FromSpecImpl<Bit> for Value {
    open spec fn obeys_from_spec() -> bool {
        true
    }

    open spec fn from_spec(v: Bit) -> Self {
        Value::Bit(v)
    }
}

impl From<u8> for UnsignedInteger<u8, 8> {
    fn from(value: u8) -> (r: Self)
        ensures
            r == UnsignedInteger::<u8, 8>(value),
    {
        UnsignedInteger(value)
    }
}

impl vstd::std_specs::convert::FromSpecImpl<u8> for UnsignedInteger<u8, 8> {
    open spec fn obeys_from_spec() -> bool {
        true
    }

    open spec fn from_spec(v: u8) -> Self {
        UnsignedInteger::<u8, 8>(v)
    }
}

impl From<UnsignedInteger<u8, 8>> for Value {
    fn from(value: UnsignedInteger<u8, 8>) -> (r: Self)
        ensures
            r == Value::UInt8(value),
    {
        Value::UInt8(value)
    }
}

impl vstd::std_specs::convert::FromSpecImpl<UnsignedInteger<u8, 8>> for Value {
    open spec fn obeys_from_spec() -> bool {
        true
    }

    open spec fn from_spec(v: UnsignedInteger<u8, 8>) -> Self {
        Value::UInt8(v)
    }
}

impl From<u8> for Value {
    fn from(value: u8) -> (r: Self)
        ensures
            r == Value::UInt8(UnsignedInteger(value)),
    {
        Value::UInt8(UnsignedInteger(value))
    }
}

impl vstd::std_specs::convert::FromSpecImpl<u8> for Value {
    open spec fn obeys_from_spec() -> bool {
        true
    }

    open spec fn from_spec(v: u8) -> Self {
        Value::UInt8(UnsignedInteger(v))
    }
}

impl From<u16> for UnsignedInteger<u16, 16> {
    fn from(value: u16) -> (r: Self)
        ensures
            r == UnsignedInteger::<u16, 16>(value),
    {
        UnsignedInteger(value)
    }
}

impl vstd::std_specs::convert::FromSpecImpl<u16> for UnsignedInteger<u16, 16> {
    open spec fn obeys_from_spec() -> bool {
        true
    }

    open spec fn from_spec(v: u16) -> Self {
        UnsignedInteger::<u16, 16>(v)
    }
}

impl From<UnsignedInteger<u16, 16>> for Value {
    fn from(value: UnsignedInteger<u16, 16>) -> (r: Self)
        ensures
            r == Value::UInt16(value),
    {
        Value::UInt16(value)
    }
}

impl vstd::std_specs::convert::FromSpecImpl<UnsignedInteger<u16, 16>> for Value {
    open spec fn obeys_from_spec() -> bool {
        true
    }

    open spec fn from_spec(v: UnsignedInteger<u16, 16>) -> Self {
        Value::UInt16(v)
    }
}

impl From<u16> for Value {
    fn from(value: u16) -> (r: Self)
        ensures
            r == Value::UInt16(UnsignedInteger(value)),
    {
        Value::UInt16(UnsignedInteger(value))
    }
}

impl vstd::std_specs::convert::FromSpecImpl<u16> for Value {
    open spec fn obeys_from_spec() -> bool {
        true
    }

    open spec fn from_spec(v: u16) -> Self {
        Value::UInt16(UnsignedInteger(v))
    }
}

impl From<u32> for UnsignedInteger<u32, 32> {
    fn from(value: u32) -> (r: Self)
        ensures
            r == UnsignedInteger::<u32, 32>(value),
    {
        UnsignedInteger(value)
    }
}

impl vstd::std_specs::convert::FromSpecImpl<u32> for UnsignedInteger<u32, 32> {
    open spec fn obeys_from_spec() -> bool {
        true
    }

    open spec fn from_spec(v: u32) -> Self {
        UnsignedInteger::<u32, 32>(v)
    }
}

impl From<UnsignedInteger<u32, 32>> for Value {
    fn from(value: UnsignedInteger<u32, 32>) -> (r: Self)
        ensures
            r == Value::UInt32(value),
    {
        Value::UInt32(value)
    }
}

impl vstd::std_specs::convert::FromSpecImpl<UnsignedInteger<u32, 32>> for Value {
    open spec fn obeys_from_spec() -> bool {
        true
    }

    open spec fn from_spec(v: UnsignedInteger<u32, 32>) -> Self {
        Value::UInt32(v)
    }
}

impl From<u32> for Value {
    fn from(value: u32) -> (r: Self)
        ensures
            r == Value::UInt32(UnsignedInteger(value)),
    {
        Value::UInt32(UnsignedInteger(value))
    }
}

impl vstd::std_specs::convert::FromSpecImpl<u32> for Value {
    open spec fn obeys_from_spec() -> bool {
        true
    }

    open spec fn from_spec(v: u32) -> Self {
        Value::UInt32(UnsignedInteger(v))
    }
}

impl From<u64> for UnsignedInteger<u64, 64> {
    fn from(value: u64) -> (r: Self)
        ensures
            r == UnsignedInteger::<u64, 64>(value),
    {
        UnsignedInteger(value)
    }
}

impl vstd::std_specs::convert::FromSpecImpl<u64> for UnsignedInteger<u64, 64> {
    open spec fn obeys_from_spec() -> bool {
        true
    }

    open spec fn from_spec(v: u64) -> Self {
        UnsignedInteger::<u64, 64>(v)
    }
}

impl From<UnsignedInteger<u64, 64>> for Value {
    fn from(value: UnsignedInteger<u64, 64>) -> (r: Self)
        ensures
            r == Value::UInt64(value),
    {
        Value::UInt64(value)
    }
}

impl vstd::std_specs::convert::FromSpecImpl<UnsignedInteger<u64, 64>> for Value {
    open spec fn obeys_from_spec() -> bool {
        true
    }

    open spec fn from_spec(v: UnsignedInteger<u64, 64>) -> Self {
        Value::UInt64(v)
    }
}

impl From<u64> for Value {
    fn from(value: u64) -> (r: Self)
        ensures
            r == Value::UInt64(UnsignedInteger(value)),
    {
        Value::UInt64(UnsignedInteger(value))
    }
}

impl vstd::std_specs::convert::FromSpecImpl<u64> for Value {
    open spec fn obeys_from_spec() -> bool {
        true
    }

    open spec fn from_spec(v: u64) -> Self {
        Value::UInt64(UnsignedInteger(v))
    }
}

impl From<u128> for UnsignedInteger<u128, 128> {
    fn from(value: u128) -> (r: Self)
        ensures
            r == UnsignedInteger::<u128, 128>(value),
    {
        UnsignedInteger(value)
    }
}

impl vstd::std_specs::convert::FromSpecImpl<u128> for UnsignedInteger<u128, 128> {
    open spec fn obeys_from_spec() -> bool {
        true
    }

    open spec fn from_spec(v: u128) -> Self {
        UnsignedInteger::<u128, 128>(v)
    }
}

impl From<UnsignedInteger<u128, 128>> for Value {
    fn from(value: UnsignedInteger<u128, 128>) -> (r: Self)
        ensures
            r == Value::UInt128(value),
    {
        Value::UInt128(value)
    }
}

impl vstd::std_specs::convert::FromSpecImpl<UnsignedInteger<u128, 128>> for Value {
    open spec fn obeys_from_spec() -> bool {
        true
    }

    open spec fn from_spec(v: UnsignedInteger<u128, 128>) -> Self {
        Value::UInt128(v)
    }
}

impl From<u128> for Value {
    fn from(value: u128) -> (r: Self)
        ensures
            r == Value::UInt128(UnsignedInteger(value)),
    {
        Value::UInt128(UnsignedInteger(value))
    }
}

impl vstd::std_specs::convert::FromSpecImpl<u128> for Value {
    open spec fn obeys_from_spec() -> bool {
        true
    }

    open spec fn from_spec(v: u128) -> Self {
        Value::UInt128(UnsignedInteger(v))
    }
}

impl From<Float32> for Value {
    fn from(value: Float32) -> (r: Self)
        ensures
            r == Value::Float32(value),
    {
        Value::Float32(value)
    }
}

impl vstd::std_specs::convert::FromSpecImpl<Float32> for Value {
    open spec fn obeys_from_spec() -> bool {
        true
    }

    open spec fn from_spec(v: Float32) -> Self {
        Value::Float32(v)
    }
}

impl From<Float64> for Value {
    fn from(value: Float64) -> (r: Self)
        ensures
            r == Value::Float64(value),
    {
        Value::Float64(value)
    }
}

impl vstd::std_specs::convert::FromSpecImpl<Float64> for Value {
    open spec fn obeys_from_spec() -> bool {
        true
    }

    open spec fn from_spec(v: Float64) -> Self {
        Value::Float64(v)
    }
}

} // verus!
