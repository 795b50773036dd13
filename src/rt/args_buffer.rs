//! The storage that arguments are written into: inline up to a fixed size,
//! on the heap beyond.

use vstd::prelude::*;

use smallvec::{CollectionAllocErr, SmallVec};

verus! {

/// The largest argument list, in bytes, that is kept inline rather than
/// allocated.
pub const MAX_ARGS_BYTES_ON_STACK: usize = 512;

/// The allocation error of `smallvec`; opaque here.
#[verifier::external_type_specification]
#[verifier::external_body]
pub struct ExCollectionAllocErr(CollectionAllocErr);

/// A byte buffer held in a `smallvec::SmallVec` with an inline capacity of
/// `MAX_ARGS_BYTES_ON_STACK` bytes.
#[verifier::external_body]
pub struct ArgsBuffer {
    inner: SmallVec<[u8; MAX_ARGS_BYTES_ON_STACK]>,
}

/// The bytes that a buffer holds.
pub uninterp spec fn args_buffer_bytes(b: ArgsBuffer) -> Seq<u8>;

/// The number of bytes a buffer can hold before it must allocate again.
pub uninterp spec fn args_buffer_capacity(b: ArgsBuffer) -> nat;

/// Relies on `SmallVec::new`: an empty vector whose capacity is its inline
/// size.
#[verifier::external_body]
pub fn args_buffer_new() -> (r: ArgsBuffer)
    ensures
        args_buffer_bytes(r) == Seq::<u8>::empty(),
        args_buffer_capacity(r) == MAX_ARGS_BYTES_ON_STACK,
{
    ArgsBuffer { inner: SmallVec::new() }
}

/// Relies on `SmallVec::try_reserve_exact`: nothing happens where the
/// capacity already suffices; on success the capacity makes room for
/// `additional` more bytes; the contents never change.
#[verifier::external_body]
pub fn args_buffer_try_reserve_exact(b: &mut ArgsBuffer, additional: usize) -> (r: Result<
    (),
    CollectionAllocErr,
>)
    ensures
        args_buffer_bytes(*final(b)) == args_buffer_bytes(*old(b)),
        args_buffer_bytes(*old(b)).len() + additional <= args_buffer_capacity(*old(b)) ==> r is Ok
            && args_buffer_capacity(*final(b)) == args_buffer_capacity(*old(b)),
        r is Ok ==> args_buffer_capacity(*final(b)) >= args_buffer_bytes(*old(b)).len()
            + additional,
{
    b.inner.try_reserve_exact(additional)
}

/// Relies on `SmallVec::push`: appends the byte; below the capacity it
/// neither allocates nor fails.
#[verifier::external_body]
pub fn args_buffer_push(b: &mut ArgsBuffer, byte: u8)
    requires
        args_buffer_bytes(*old(b)).len() < args_buffer_capacity(*old(b)),
    ensures
        args_buffer_bytes(*final(b)) == args_buffer_bytes(*old(b)).push(byte),
        args_buffer_capacity(*final(b)) == args_buffer_capacity(*old(b)),
{
    b.inner.push(byte)
}

/// Relies on `SmallVec::into_boxed_slice`: the same bytes, in a boxed slice.
#[verifier::external_body]
pub fn args_buffer_into_boxed_slice(b: ArgsBuffer) -> (r: Box<[u8]>)
    ensures
        r@ == args_buffer_bytes(b),
{
    b.inner.into_boxed_slice()
}

} // verus!
