//! The record that the engine writes its result into, and how it is read.
//!
//! A record is a tag followed by a 16-byte payload, wide enough for the
//! widest value (a 128-bit integer). The tag says which kind of value the
//! payload holds; the payload is read only once the tag is known. Payload
//! bytes are little-endian; a boolean (a qubit or a bit) is its first byte,
//! true when it is not 0.

use vstd::prelude::*;

use crate::rt::layout::{
    le_bytes, le_value, lemma_value_bytes_len, pow256, value_bytes, value_width,
};
use crate::value::quantum::{self, hardware_qubit_of, virtual_qubit_of, HardwareQubit, VirtualQubit};
use crate::value::scalar::{self, Bit, Float32, Float64, UnsignedInteger};
use crate::value::Value;

verus! {

/// The kind of value that a result record holds.
#[derive(Debug, Clone, Copy, PartialEq, Eq, PartialOrd, Ord, Hash)]
pub enum Tag {
    VirtualQubit,
    HardwareQubit,
    Boolean,
    Uint8,
    Uint16,
    Uint32,
    Uint64,
    Uint128,
    Float32,
    Float64,
}

/// The byte that stands for each tag in a record, from 0x1 to 0xA.
pub open spec fn tag_code(t: Tag) -> u8 {
    match t {
        Tag::VirtualQubit => 0x1,
        Tag::HardwareQubit => 0x2,
        Tag::Boolean => 0x3,
        Tag::Uint8 => 0x4,
        Tag::Uint16 => 0x5,
        Tag::Uint32 => 0x6,
        Tag::Uint64 => 0x7,
        Tag::Uint128 => 0x8,
        Tag::Float32 => 0x9,
        Tag::Float64 => 0xA,
    }
}

/// The number of payload bytes that a value of this kind takes: the
/// bytes that `decoded` reads.
pub open spec fn payload_width_of(t: Tag) -> nat {
    match t {
        Tag::VirtualQubit | Tag::HardwareQubit | Tag::Boolean | Tag::Uint8 => 1,
        Tag::Uint16 => 2,
        Tag::Uint32 | Tag::Float32 => 4,
        Tag::Uint64 | Tag::Float64 => 8,
        Tag::Uint128 => 16,
    }
}

impl Tag {
    /// The byte that stands for this tag.
    pub fn code(&self) -> (r: u8)
        ensures
            r == tag_code(*self),
    {
        match self {
            Tag::VirtualQubit => 0x1,
            Tag::HardwareQubit => 0x2,
            Tag::Boolean => 0x3,
            Tag::Uint8 => 0x4,
            Tag::Uint16 => 0x5,
            Tag::Uint32 => 0x6,
            Tag::Uint64 => 0x7,
            Tag::Uint128 => 0x8,
            Tag::Float32 => 0x9,
            Tag::Float64 => 0xA,
        }
    }

    /// The number of payload bytes that a value of this kind takes.
    pub fn payload_width(&self) -> (r: usize)
        ensures
            r == payload_width_of(*self),
            1 <= r <= 16,
    {
        match self {
            Tag::VirtualQubit | Tag::HardwareQubit | Tag::Boolean | Tag::Uint8 => 1,
            Tag::Uint16 => 2,
            Tag::Uint32 | Tag::Float32 => 4,
            Tag::Uint64 | Tag::Float64 => 8,
            Tag::Uint128 => 16,
        }
    }

    /// The tag that a byte stands for; `None` for 0x0 and for every byte
    /// above 0xA, which no engine of this protocol writes.
    pub fn from_code(code: u8) -> (r: Option<Tag>)
        ensures
            r is None <==> (code == 0 || code > 0xA),
            r matches Some(t) ==> tag_code(t) == code,
    {
        match code {
            0x1 => Some(Tag::VirtualQubit),
            0x2 => Some(Tag::HardwareQubit),
            0x3 => Some(Tag::Boolean),
            0x4 => Some(Tag::Uint8),
            0x5 => Some(Tag::Uint16),
            0x6 => Some(Tag::Uint32),
            0x7 => Some(Tag::Uint64),
            0x8 => Some(Tag::Uint128),
            0x9 => Some(Tag::Float32),
            0xA => Some(Tag::Float64),
            _ => None,
        }
    }
}

/// What the engine hands back on success: a tag and the payload it
/// describes.
pub struct QuantumResult {
    pub tag: Tag,
    pub value: [u8; 16],
}

/// The value that a record with this tag and payload holds.
pub open spec fn decoded(tag: Tag, p: Seq<u8>) -> Value {
    match tag {
        Tag::VirtualQubit => Value::Quantum(
            quantum::Value::VirtualQubit(virtual_qubit_of(p[0] != 0)),
        ),
        Tag::HardwareQubit => Value::Quantum(
            quantum::Value::HardwareQubit(hardware_qubit_of(p[0] != 0)),
        ),
        Tag::Boolean => Value::Scalar(scalar::Value::Bit(Bit(p[0] != 0))),
        Tag::Uint8 => Value::Scalar(
            scalar::Value::UInt8(UnsignedInteger(le_value(p.subrange(0, 1)) as u8)),
        ),
        Tag::Uint16 => Value::Scalar(
            scalar::Value::UInt16(UnsignedInteger(le_value(p.subrange(0, 2)) as u16)),
        ),
        Tag::Uint32 => Value::Scalar(
            scalar::Value::UInt32(UnsignedInteger(le_value(p.subrange(0, 4)) as u32)),
        ),
        Tag::Uint64 => Value::Scalar(
            scalar::Value::UInt64(UnsignedInteger(le_value(p.subrange(0, 8)) as u64)),
        ),
        Tag::Uint128 => Value::Scalar(
            scalar::Value::UInt128(UnsignedInteger(le_value(p.subrange(0, 16)) as u128)),
        ),
        Tag::Float32 => Value::Scalar(
            scalar::Value::Float32(Float32(le_value(p.subrange(0, 4)) as u32)),
        ),
        Tag::Float64 => Value::Scalar(
            scalar::Value::Float64(Float64(le_value(p.subrange(0, 8)) as u64)),
        ),
    }
}

proof fn lemma_pow256_mono(a: nat, b: nat)
    requires
        a <= b,
    ensures
        pow256(a) <= pow256(b),
    decreases b,
{
    if a < b {
        lemma_pow256_mono(a, (b - 1) as nat);
    }
}

proof fn lemma_pow256_values()
    ensures
        pow256(1) == 0x100,
        pow256(2) == 0x1_0000,
        pow256(4) == 0x1_0000_0000,
        pow256(8) == 0x1_0000_0000_0000_0000,
        pow256(16) == 0x1_0000_0000_0000_0000_0000_0000_0000_0000,
{
    reveal_with_fuel(pow256, 17);
}

/// The number that the `n` first payload bytes stand for, little-endian.
fn read_le(p: &[u8; 16], n: usize) -> (r: u128)
    requires
        1 <= n <= 16,
    ensures
        r as nat == le_value(p@.subrange(0, n as int)),
        (r as nat) < pow256(n as nat),
{
    proof {
        lemma_pow256_values();
    }
    let mut acc: u128 = 0;
    let mut k: usize = n;
    assert(p@.subrange(n as int, n as int) =~= Seq::<u8>::empty());
    while k > 0
        invariant
            k <= n <= 16,
            acc as nat == le_value(p@.subrange(k as int, n as int)),
            (acc as nat) < pow256((n - k) as nat),
        decreases k,
    {
        k = k - 1;
        proof {
            assert(p@.subrange(k as int, n as int).drop_first() =~= p@.subrange(k + 1, n as int));
            lemma_pow256_mono((n - k) as nat, 16);
            lemma_pow256_values();
            assert(pow256((n - k) as nat) == 256 * pow256((n - k - 1) as nat));
            assert(256 * (acc as nat) + p[k as int] < pow256((n - k) as nat));
        }
        acc = p[k] as u128 + 256 * acc;
    }
    acc
}

/// Reads the value that a record holds. The payload is read as the tag
/// says, and only as far as that kind of value reaches.
pub fn decode(record: &QuantumResult) -> (r: Value)
    ensures
        r == decoded(record.tag, record.value@),
{
    let p = &record.value;
    proof {
        lemma_pow256_values();
    }
    match record.tag {
        Tag::VirtualQubit => Value::Quantum(
            quantum::Value::VirtualQubit(VirtualQubit::from(p[0] != 0)),
        ),
        Tag::HardwareQubit => Value::Quantum(
            quantum::Value::HardwareQubit(HardwareQubit::from(p[0] != 0)),
        ),
        Tag::Boolean => Value::Scalar(scalar::Value::Bit(Bit(p[0] != 0))),
        Tag::Uint8 => {
            let x = read_le(p, 1);
            Value::Scalar(scalar::Value::UInt8(UnsignedInteger(x as u8)))
        },
        Tag::Uint16 => {
            let x = read_le(p, 2);
            Value::Scalar(scalar::Value::UInt16(UnsignedInteger(x as u16)))
        },
        Tag::Uint32 => {
            let x = read_le(p, 4);
            Value::Scalar(scalar::Value::UInt32(UnsignedInteger(x as u32)))
        },
        Tag::Uint64 => {
            let x = read_le(p, 8);
            Value::Scalar(scalar::Value::UInt64(UnsignedInteger(x as u64)))
        },
        Tag::Uint128 => {
            let x = read_le(p, 16);
            Value::Scalar(scalar::Value::UInt128(UnsignedInteger(x)))
        },
        Tag::Float32 => {
            let x = read_le(p, 4);
            Value::Scalar(scalar::Value::Float32(Float32(x as u32)))
        },
        Tag::Float64 => {
            let x = read_le(p, 8);
            Value::Scalar(scalar::Value::Float64(Float64(x as u64)))
        },
    }
}

/// The tag that a record holding this value carries.
pub open spec fn tag_of(v: Value) -> Tag {
    match v {
        Value::Quantum(quantum::Value::VirtualQubit(_)) => Tag::VirtualQubit,
        Value::Quantum(quantum::Value::HardwareQubit(_)) => Tag::HardwareQubit,
        Value::Scalar(s) => match s {
            scalar::Value::Bit(_) => Tag::Boolean,
            scalar::Value::UInt8(_) => Tag::Uint8,
            scalar::Value::UInt16(_) => Tag::Uint16,
            scalar::Value::UInt32(_) => Tag::Uint32,
            scalar::Value::UInt64(_) => Tag::Uint64,
            scalar::Value::UInt128(_) => Tag::Uint128,
            scalar::Value::Float32(_) => Tag::Float32,
            scalar::Value::Float64(_) => Tag::Float64,
            // a `Void` never exists; any tag would do
            scalar::Value::Void(_) => Tag::Boolean,
        },
    }
}

/// The payload of a record that holds this value: its argument bytes,
/// padded with zeros to the payload's width.
pub open spec fn echoed_payload(v: Value) -> Seq<u8> {
    value_bytes(v) + Seq::new((16 - value_width(v)) as nat, |i: int| 0u8)
}

proof fn lemma_le_round_trip(x: nat, n: nat)
    requires
        x < pow256(n),
    ensures
        le_value(le_bytes(x, n)) == x,
    decreases n,
{
    if n > 0 {
        lemma_le_round_trip(x / 256, (n - 1) as nat);
        assert(le_bytes(x, n).drop_first() =~= le_bytes(x / 256, (n - 1) as nat));
    }
}

/// Decoding undoes encoding: a value written as argument bytes, echoed back
/// in a record under its own tag (padded with zeros), reads back as the same
/// value. Undefined qubits are left out: a record carries a qubit as a
/// boolean, which stands for `Zero` or `One` only.
pub proof fn lemma_decode_inverts_encoding(v: Value)
    requires
        !(v matches Value::Scalar(scalar::Value::Void(_))),
        v != Value::Quantum(quantum::Value::VirtualQubit(VirtualQubit::Undefined)),
        v != Value::Quantum(quantum::Value::HardwareQubit(HardwareQubit::Undefined)),
    ensures
        decoded(tag_of(v), echoed_payload(v)) == v,
{
    lemma_value_bytes_len(v);
    lemma_pow256_values();
    let p = echoed_payload(v);
    let w = value_width(v) as int;
    assert(p.subrange(0, w) =~= value_bytes(v));
    match v {
        Value::Scalar(s) => match s {
            scalar::Value::UInt8(UnsignedInteger(x)) => lemma_le_round_trip(x as nat, 1),
            scalar::Value::UInt16(UnsignedInteger(x)) => lemma_le_round_trip(x as nat, 2),
            scalar::Value::UInt32(UnsignedInteger(x)) => lemma_le_round_trip(x as nat, 4),
            scalar::Value::UInt64(UnsignedInteger(x)) => lemma_le_round_trip(x as nat, 8),
            scalar::Value::UInt128(UnsignedInteger(x)) => lemma_le_round_trip(x as nat, 16),
            scalar::Value::Float32(Float32(x)) => lemma_le_round_trip(x as nat, 4),
            scalar::Value::Float64(Float64(x)) => lemma_le_round_trip(x as nat, 8),
            _ => {},
        },
        _ => {},
    }
}

} // verus!
