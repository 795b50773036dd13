//! A runtime backed by the quantum simulator engine, reached through a
//! foreign call. This module holds what the call needs and what it gives
//! back: the argument list written out as bytes, the result record read
//! back as a value, and the meaning of the returned status.

use vstd::prelude::*;

use smallvec::CollectionAllocErr;

mod bindings;

pub use bindings::{
    decode, decoded, echoed_payload, lemma_decode_inverts_encoding, payload_width_of, tag_code,
    tag_of, QuantumResult, Tag,
};
pub use crate::rt::args_buffer::MAX_ARGS_BYTES_ON_STACK;

use crate::rt::args_buffer::{
    args_buffer_bytes, args_buffer_capacity, args_buffer_into_boxed_slice, args_buffer_new,
    args_buffer_push, args_buffer_try_reserve_exact, ArgsBuffer,
};
use crate::rt::layout::{
    args_bytes, args_size, le_bytes, lemma_args_bytes_len, lemma_le_bytes_len, ref_width,
    value_bytes, value_width,
};
use crate::lexer::push_char;
use crate::rt::QuantoRuntime;
use crate::value::quantum::{self, HardwareQubit, VirtualQubit};
use crate::value::scalar::{self, Bit, Float32, Float64, UnsignedInteger};
use crate::value::Value;
use crate::BoundProgram;

verus! {

broadcast use vstd::layout::layout_of_primitives, vstd::string::to_string_from_display_ensures_for_str;

/// The runtime backed by the quantum simulator engine.
pub struct QuantumSimulatorRt;

impl QuantoRuntime for QuantumSimulatorRt {
    type Output = Value;
    type Error = Error;
}

/// Why an execution failed.
#[derive(Debug)]
pub enum Error {
    /// The arguments could not be written out.
    BuildArgsStack(BuildArgsStackError),
    /// The engine returned this status, never 0.
    Failure(u8),
}

impl From<BuildArgsStackError> for Error {
    fn from(value: BuildArgsStackError) -> (r: Self)
        ensures
            r == Error::BuildArgsStack(value),
    {
        Self::BuildArgsStack(value)
    }
}

impl vstd::std_specs::convert::FromSpecImpl<BuildArgsStackError> for Error {
    open spec fn obeys_from_spec() -> bool {
        true
    }

    open spec fn from_spec(v: BuildArgsStackError) -> Self {
        Error::BuildArgsStack(v)
    }
}

/// The character of a decimal digit.
pub open spec fn digit_char(d: nat) -> char {
    if d == 0 {
        '0'
    } else if d == 1 {
        '1'
    } else if d == 2 {
        '2'
    } else if d == 3 {
        '3'
    } else if d == 4 {
        '4'
    } else if d == 5 {
        '5'
    } else if d == 6 {
        '6'
    } else if d == 7 {
        '7'
    } else if d == 8 {
        '8'
    } else {
        '9'
    }
}

/// The decimal digits of `n`, most significant first, without leading zeros.
pub open spec fn decimal(n: nat) -> Seq<char>
    decreases n,
{
    if n < 10 {
        seq![digit_char(n)]
    } else {
        decimal(n / 10).push(digit_char(n % 10))
    }
}

fn digit_of(d: u8) -> (r: char)
    requires
        d < 10,
    ensures
        r == digit_char(d as nat),
{
    if d == 0 {
        '0'
    } else if d == 1 {
        '1'
    } else if d == 2 {
        '2'
    } else if d == 3 {
        '3'
    } else if d == 4 {
        '4'
    } else if d == 5 {
        '5'
    } else if d == 6 {
        '6'
    } else if d == 7 {
        '7'
    } else if d == 8 {
        '8'
    } else {
        '9'
    }
}

/// Appends the decimal digits of `n`.
fn push_decimal(s: &mut String, n: u8)
    ensures
        final(s)@ == old(s)@ + decimal(n as nat),
{
    let ghost start = s@;
    if n >= 100 {
        push_char(s, digit_of(n / 100));
        push_char(s, digit_of(n / 10 % 10));
        push_char(s, digit_of(n % 10));
        assert((n / 10) / 10 == n / 100);
        assert(decimal((n / 10) as nat) == decimal((n / 100) as nat).push(
            digit_char((n / 10 % 10) as nat),
        ));
        assert(decimal(n as nat) == decimal((n / 10) as nat).push(digit_char((n % 10) as nat)));
        assert(decimal(n as nat) =~= seq![
            digit_char((n / 100) as nat),
            digit_char((n / 10 % 10) as nat),
            digit_char((n % 10) as nat),
        ]);
    } else if n >= 10 {
        push_char(s, digit_of(n / 10));
        push_char(s, digit_of(n % 10));
        assert(decimal(n as nat) == decimal((n / 10) as nat).push(digit_char((n % 10) as nat)));
        assert(decimal(n as nat) =~= seq![digit_char((n / 10) as nat), digit_char((n % 10) as nat)]);
    } else {
        push_char(s, digit_of(n));
        assert(decimal(n as nat) =~= seq![digit_char(n as nat)]);
    }
    assert(s@ =~= start + decimal(n as nat));
}

/// The text that reports a failure status.
pub open spec fn failure_text(code: u8) -> Seq<char> {
    "execution failed with error code "@ + decimal(code as nat)
}

impl Error {
    /// A short description of the error.
    pub fn message(&self) -> (r: String)
        ensures
            self is BuildArgsStack ==> r@ == "failed to build arguments stack"@,
            self is Failure ==> r@ == failure_text(self->Failure_0),
    {
        match self {
            Self::BuildArgsStack(_) => "failed to build arguments stack".to_string(),
            Self::Failure(code) => {
                let mut r = "execution failed with error code ".to_string();
                push_decimal(&mut r, *code);
                r
            },
        }
    }
}

/// Why the arguments could not be written out.
#[derive(Debug)]
pub enum BuildArgsStackError {
    /// Their total size does not fit in `usize`.
    SizeOverflow,
    /// The buffer for them could not be allocated.
    AllocFailure(CollectionAllocErr),
}

impl From<CollectionAllocErr> for BuildArgsStackError {
    fn from(value: CollectionAllocErr) -> (r: Self)
        ensures
            r == BuildArgsStackError::AllocFailure(value),
    {
        Self::AllocFailure(value)
    }
}

impl vstd::std_specs::convert::FromSpecImpl<CollectionAllocErr> for BuildArgsStackError {
    open spec fn obeys_from_spec() -> bool {
        true
    }

    open spec fn from_spec(v: CollectionAllocErr) -> Self {
        BuildArgsStackError::AllocFailure(v)
    }
}

impl BuildArgsStackError {
    /// A short description of the error.
    pub fn message(&self) -> (r: String)
        ensures
            self is SizeOverflow ==> r@ == "too many arguments cannot fit in memory"@,
            self is AllocFailure ==> r@ == "failed to allocate a vector to store arguments"@,
    {
        match self {
            Self::SizeOverflow => "too many arguments cannot fit in memory".to_string(),
            Self::AllocFailure(_) => "failed to allocate a vector to store arguments".to_string(),
        }
    }
}

/// The number of bytes that a value is written as.
pub fn value_width_of(v: &Value) -> (r: usize)
    ensures
        r == value_width(*v),
{
    match v {
        Value::Quantum(_) => 1,
        Value::Scalar(s) => match s {
            scalar::Value::Bit(_) => 1,
            scalar::Value::UInt8(_) => 1,
            scalar::Value::UInt16(_) => 2,
            scalar::Value::UInt32(_) => 4,
            scalar::Value::UInt64(_) => 8,
            scalar::Value::UInt128(_) => 16,
            scalar::Value::Float32(_) => 4,
            scalar::Value::Float64(_) => 8,
            scalar::Value::Void(void) => {
                proof {
                    use_type_invariant(void);
                }
                0
            },
        },
    }
}

/// Relies on `str::as_ptr`: the address of the name's first byte, which
/// the engine reads the name from.
#[verifier::external_body]
fn name_ref(name: &str) -> (r: usize) {
    name.as_ptr() as usize
}

/// Appends the `n` low bytes of `x`, least significant first.
fn push_le(buf: &mut ArgsBuffer, x: u128, n: usize)
    requires
        args_buffer_bytes(*old(buf)).len() + n <= args_buffer_capacity(*old(buf)),
    ensures
        args_buffer_bytes(*final(buf)) == args_buffer_bytes(*old(buf)) + le_bytes(x as nat, n as nat),
        args_buffer_capacity(*final(buf)) == args_buffer_capacity(*old(buf)),
{
    let ghost start = args_buffer_bytes(*buf);
    let mut cur: u128 = x;
    let mut k: usize = 0;
    while k < n
        invariant
            k <= n,
            start.len() + n <= args_buffer_capacity(*buf),
            args_buffer_bytes(*buf).len() == start.len() + k,
            args_buffer_capacity(*buf) == args_buffer_capacity(*old(buf)),
            args_buffer_bytes(*buf) + le_bytes(cur as nat, (n - k) as nat) == start + le_bytes(
                x as nat,
                n as nat,
            ),
        decreases n - k,
    {
        let ghost before = args_buffer_bytes(*buf);
        let byte = (cur % 256) as u8;
        args_buffer_push(buf, byte);
        proof {
            let rest = le_bytes((cur / 256) as nat, (n - k - 1) as nat);
            assert(le_bytes(cur as nat, (n - k) as nat) == seq![byte] + rest);
            assert(before + (seq![byte] + rest) =~= before.push(byte) + rest);
        }
        cur = cur / 256;
        k = k + 1;
    }
    assert(le_bytes(cur as nat, 0) =~= Seq::<u8>::empty());
    assert(args_buffer_bytes(*buf) + Seq::<u8>::empty() =~= args_buffer_bytes(*buf));
}

/// Appends the bytes that a value is written as.
fn write_value(buf: &mut ArgsBuffer, v: &Value)
    requires
        args_buffer_bytes(*old(buf)).len() + value_width(*v) <= args_buffer_capacity(*old(buf)),
    ensures
        args_buffer_bytes(*final(buf)) == args_buffer_bytes(*old(buf)) + value_bytes(*v),
        args_buffer_capacity(*final(buf)) == args_buffer_capacity(*old(buf)),
{
    let ghost start = args_buffer_bytes(*buf);
    match v {
        Value::Quantum(quantum::Value::VirtualQubit(q)) => {
            let byte: u8 = match q {
                VirtualQubit::Zero => 0,
                VirtualQubit::One => 1,
                VirtualQubit::Undefined => 2,
            };
            args_buffer_push(buf, byte);
            assert(start.push(byte) =~= start + seq![byte]);
        },
        Value::Quantum(quantum::Value::HardwareQubit(q)) => {
            let byte: u8 = match q {
                HardwareQubit::Zero => 0,
                HardwareQubit::One => 1,
                HardwareQubit::Undefined => 2,
            };
            args_buffer_push(buf, byte);
            assert(start.push(byte) =~= start + seq![byte]);
        },
        Value::Scalar(s) => match s {
            scalar::Value::Bit(Bit(b)) => {
                let byte: u8 = if *b { 1 } else { 0 };
                args_buffer_push(buf, byte);
                assert(start.push(byte) =~= start + seq![byte]);
            },
            scalar::Value::UInt8(UnsignedInteger(x)) => push_le(buf, *x as u128, 1),
            scalar::Value::UInt16(UnsignedInteger(x)) => push_le(buf, *x as u128, 2),
            scalar::Value::UInt32(UnsignedInteger(x)) => push_le(buf, *x as u128, 4),
            scalar::Value::UInt64(UnsignedInteger(x)) => push_le(buf, *x as u128, 8),
            scalar::Value::UInt128(UnsignedInteger(x)) => push_le(buf, *x, 16),
            scalar::Value::Float32(Float32(x)) => push_le(buf, *x as u128, 4),
            scalar::Value::Float64(Float64(x)) => push_le(buf, *x as u128, 8),
            scalar::Value::Void(void) => {
                proof {
                    use_type_invariant(void);
                }
            },
        },
    }
}

proof fn lemma_args_size_prefix(args: Seq<(&str, Value)>, i: int)
    requires
        0 <= i <= args.len(),
    ensures
        args_size(args.take(i)) <= args_size(args),
    decreases args.len(),
{
    if i < args.len() {
        assert(args.drop_last().take(i) =~= args.take(i));
        lemma_args_size_prefix(args.drop_last(), i);
    } else {
        assert(args.take(i) =~= args);
    }
}

/// Writes the arguments out as one buffer, in order: for each, a reference
/// to its name and then its value (see the `layout` module). The total size
/// is computed first, with overflow checks; up to
/// `MAX_ARGS_BYTES_ON_STACK` bytes the buffer is built without allocating.
pub fn build_args_stack(values: &[(&str, Value)]) -> (r: Result<Box<[u8]>, BuildArgsStackError>)
    ensures
        (r matches Err(BuildArgsStackError::SizeOverflow)) <==> args_size(values@) > usize::MAX,
        args_size(values@) <= MAX_ARGS_BYTES_ON_STACK ==> r is Ok,
        r matches Ok(b) ==> b@.len() == args_size(values@),
        r matches Ok(b) ==> exists|refs: Seq<usize>|
            refs.len() == values@.len() && b@ == #[trigger] args_bytes(refs, values@),
{
    let ref_w = core::mem::size_of::<usize>();
    let mut total_size: usize = 0;
    let mut i: usize = 0;
    while i < values.len()
        invariant
            i <= values@.len(),
            ref_w == ref_width(),
            ref_w == 4 || ref_w == 8,
            total_size == args_size(values@.take(i as int)),
        decreases values.len() - i,
    {
        let size = value_width_of(&values[i].1);
        proof {
            assert(values@.take(i + 1).drop_last() =~= values@.take(i as int));
        }
        match total_size.checked_add(ref_w + size) {
            Some(t) => {
                total_size = t;
            },
            None => {
                proof {
                    lemma_args_size_prefix(values@, i + 1);
                }
                return Err(BuildArgsStackError::SizeOverflow);
            },
        }
        i = i + 1;
    }
    assert(values@.take(values@.len() as int) =~= values@);
    let mut payload = args_buffer_new();
    match args_buffer_try_reserve_exact(&mut payload, total_size) {
        Ok(()) => {},
        Err(e) => {
            return Err(BuildArgsStackError::AllocFailure(e));
        },
    }
    let ghost mut refs: Seq<usize> = Seq::empty();
    let mut j: usize = 0;
    while j < values.len()
        invariant
            j <= values@.len(),
            ref_w == ref_width(),
            total_size == args_size(values@),
            total_size <= args_buffer_capacity(payload),
            refs.len() == j,
            args_buffer_bytes(payload) == args_bytes(refs, values@.take(j as int)),
        decreases values.len() - j,
    {
        let (name, value) = &values[j];
        let name_addr = name_ref(name);
        proof {
            lemma_args_bytes_len(refs, values@.take(j as int));
            lemma_args_size_prefix(values@, j + 1);
            lemma_le_bytes_len(name_addr as nat, ref_width());
            assert(values@.take(j + 1).drop_last() =~= values@.take(j as int));
        }
        push_le(&mut payload, name_addr as u128, ref_w);
        write_value(&mut payload, value);
        proof {
            let next = refs.push(name_addr);
            assert(next.drop_last() =~= refs);
            refs = next;
        }
        j = j + 1;
    }
    assert(values@.take(values@.len() as int) =~= values@);
    proof {
        lemma_args_bytes_len(refs, values@);
    }
    Ok(args_buffer_into_boxed_slice(payload))
}

/// Writes out the arguments of a bound program, as the engine takes them;
/// a failure is reported as `Error::BuildArgsStack`.
pub fn prepare_args<const N: usize>(program: &BoundProgram<'_, N>) -> (r: Result<Box<[u8]>, Error>)
    ensures
        (r matches Err(Error::BuildArgsStack(BuildArgsStackError::SizeOverflow))) <==> args_size(
            program.arguments(),
        ) > usize::MAX,
        r matches Err(e) ==> e is BuildArgsStack,
        args_size(program.arguments()) <= MAX_ARGS_BYTES_ON_STACK ==> r is Ok,
        r matches Ok(b) ==> b@.len() == args_size(program.arguments()),
        r matches Ok(b) ==> exists|refs: Seq<usize>|
            refs.len() == program.arguments().len() && b@ == #[trigger] args_bytes(
                refs,
                program.arguments(),
            ),
{
    match build_args_stack(program.args()) {
        Ok(b) => Ok(b),
        Err(e) => Err(Error::from(e)),
    }
}

/// What the status returned by the engine means: 0 is success, and only
/// then may the result record be read; any other status is a failure that
/// carries it, whatever the record holds.
pub fn check_status(code: u8) -> (r: Result<(), Error>)
    ensures
        r is Ok <==> code == 0,
        code != 0 ==> r == Err::<(), Error>(Error::Failure(code)),
{
    if code == 0 {
        Ok(())
    } else {
        Err(Error::Failure(code))
    }
}

} // verus!
