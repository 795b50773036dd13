//! The byte layout of call arguments and of the engine's result record.
//!
//! Arguments are laid out one after the other, in order. Each one is a
//! name reference (the address of the name's bytes, as many bytes as a
//! pointer has) followed by the value's bytes. Multi-byte fields are
//! little-endian. A qubit takes one byte: 0 for `Zero`, 1 for `One`, 2 for
//! `Undefined`; a bit takes one byte, 0 or 1; an unsigned integer takes its
//! width; a float takes the bytes of its IEEE-754 bit pattern.

use vstd::prelude::*;

use crate::value::quantum::{self, HardwareQubit, VirtualQubit};
use crate::value::scalar::{self, Bit, Float32, Float64, UnsignedInteger};
use crate::value::Value;

verus! {

/// `256` to the power `n`.
pub open spec fn pow256(n: nat) -> nat
    decreases n,
{
    if n == 0 {
        1
    } else {
        256 * pow256((n - 1) as nat)
    }
}

/// The `n` low bytes of `x`, least significant first.
pub open spec fn le_bytes(x: nat, n: nat) -> Seq<u8>
    decreases n,
{
    if n == 0 {
        Seq::empty()
    } else {
        seq![(x % 256) as u8] + le_bytes(x / 256, (n - 1) as nat)
    }
}

/// The number that little-endian bytes stand for.
pub open spec fn le_value(s: Seq<u8>) -> nat
    decreases s.len(),
{
    if s.len() == 0 {
        0
    } else {
        s[0] as nat + 256 * le_value(s.drop_first())
    }
}

/// The width of a pointer, in bytes: the width of a name reference.
pub open spec fn ref_width() -> nat {
    vstd::layout::size_of::<usize>()
}

/// The byte that a virtual qubit is written as.
pub open spec fn virtual_qubit_byte(q: VirtualQubit) -> u8 {
    match q {
        VirtualQubit::Zero => 0,
        VirtualQubit::One => 1,
        VirtualQubit::Undefined => 2,
    }
}

/// The byte that a hardware qubit is written as.
pub open spec fn hardware_qubit_byte(q: HardwareQubit) -> u8 {
    match q {
        HardwareQubit::Zero => 0,
        HardwareQubit::One => 1,
        HardwareQubit::Undefined => 2,
    }
}

/// The number of bytes that a value is written as; a function of its
/// variant alone.
pub open spec fn value_width(v: Value) -> nat {
    match v {
        Value::Quantum(_) => 1,
        Value::Scalar(s) => match s {
            scalar::Value::Bit(_) => 1,
            scalar::Value::UInt8(_) => 1,
            scalar::Value::UInt16(_) => 2,
            scalar::Value::UInt32(_) => 4,
            scalar::Value::UInt64(_) => 8,
            scalar::Value::UInt128(_) => 16,
            scalar::Value::Float32(_) => 4,
            scalar::Value::Float64(_) => 8,
            scalar::Value::Void(_) => 0,
        },
    }
}

/// The bytes that a value is written as.
pub open spec fn value_bytes(v: Value) -> Seq<u8> {
    match v {
        Value::Quantum(quantum::Value::VirtualQubit(q)) => seq![virtual_qubit_byte(q)],
        Value::Quantum(quantum::Value::HardwareQubit(q)) => seq![hardware_qubit_byte(q)],
        Value::Scalar(s) => match s {
            scalar::Value::Bit(Bit(b)) => seq![if b { 1u8 } else { 0u8 }],
            scalar::Value::UInt8(UnsignedInteger(x)) => le_bytes(x as nat, 1),
            scalar::Value::UInt16(UnsignedInteger(x)) => le_bytes(x as nat, 2),
            scalar::Value::UInt32(UnsignedInteger(x)) => le_bytes(x as nat, 4),
            scalar::Value::UInt64(UnsignedInteger(x)) => le_bytes(x as nat, 8),
            scalar::Value::UInt128(UnsignedInteger(x)) => le_bytes(x as nat, 16),
            scalar::Value::Float32(Float32(x)) => le_bytes(x as nat, 4),
            scalar::Value::Float64(Float64(x)) => le_bytes(x as nat, 8),
            scalar::Value::Void(_) => Seq::empty(),
        },
    }
}

/// The bytes that one argument takes: a name reference and its value.
pub open spec fn arg_size(v: Value) -> nat {
    ref_width() + value_width(v)
}

/// The bytes that a list of arguments takes.
pub open spec fn args_size(args: Seq<(&str, Value)>) -> nat
    decreases args.len(),
{
    if args.len() == 0 {
        0
    } else {
        args_size(args.drop_last()) + arg_size(args.last().1)
    }
}

/// The arguments written out, where `refs[i]` is the reference to the name
/// of argument `i`.
pub open spec fn args_bytes(refs: Seq<usize>, args: Seq<(&str, Value)>) -> Seq<u8>
    decreases args.len(),
{
    if args.len() == 0 {
        Seq::empty()
    } else {
        args_bytes(refs.drop_last(), args.drop_last()) + le_bytes(refs.last() as nat, ref_width())
            + value_bytes(args.last().1)
    }
}

pub proof fn lemma_le_bytes_len(x: nat, n: nat)
    ensures
        le_bytes(x, n).len() == n,
    decreases n,
{
    if n > 0 {
        lemma_le_bytes_len(x / 256, (n - 1) as nat);
    }
}

pub proof fn lemma_value_bytes_len(v: Value)
    ensures
        value_bytes(v).len() == value_width(v),
{
    match v {
        Value::Scalar(s) => match s {
            scalar::Value::UInt8(UnsignedInteger(x)) => lemma_le_bytes_len(x as nat, 1),
            scalar::Value::UInt16(UnsignedInteger(x)) => lemma_le_bytes_len(x as nat, 2),
            scalar::Value::UInt32(UnsignedInteger(x)) => lemma_le_bytes_len(x as nat, 4),
            scalar::Value::UInt64(UnsignedInteger(x)) => lemma_le_bytes_len(x as nat, 8),
            scalar::Value::UInt128(UnsignedInteger(x)) => lemma_le_bytes_len(x as nat, 16),
            scalar::Value::Float32(Float32(x)) => lemma_le_bytes_len(x as nat, 4),
            scalar::Value::Float64(Float64(x)) => lemma_le_bytes_len(x as nat, 8),
            _ => {},
        },
        _ => {},
    }
}

pub proof fn lemma_args_bytes_len(refs: Seq<usize>, args: Seq<(&str, Value)>)
    ensures
        args_bytes(refs, args).len() == args_size(args),
    decreases args.len(),
{
    if args.len() > 0 {
        lemma_args_bytes_len(refs.drop_last(), args.drop_last());
        lemma_le_bytes_len(refs.last() as nat, ref_width());
        lemma_value_bytes_len(args.last().1);
    }
}

} // verus!
