//! Memory for secrets: the locked buffers of the `sodoken` crate.
//!
//! Nothing in this file is proved. Each function hands one request to
//! `sodoken` and says what the buffer holds afterwards; the verifier takes
//! that on trust. A buffer is only ever changed through a `&mut` borrow
//! here, and is never shared, so what it holds is a matter of its value.

use vstd::prelude::*;

verus! {

/// `sodoken::BufWriteSized`: a writable buffer of a fixed size.
#[verifier::external_type_specification]
#[verifier::external_body]
pub struct ExBufWriteSized<const N: usize>(sodoken::BufWriteSized<N>);

/// `sodoken::BufWrite`: a writable buffer.
#[verifier::external_type_specification]
#[verifier::external_body]
pub struct ExBufWrite(sodoken::BufWrite);

/// `sodoken::BufRead`: a buffer that can only be read.
#[verifier::external_type_specification]
#[verifier::external_body]
pub struct ExBufRead(sodoken::BufRead);

/// `one_err::OneErr`: the error that `sodoken` reports.
#[verifier::external_type_specification]
#[verifier::external_body]
pub struct ExOneErr(one_err::OneErr);

/// The bytes that a line buffer holds, all 512 of them.
pub uninterp spec fn line_buffer_bytes(buffer: sodoken::BufWriteSized<512>) -> Seq<u8>;

/// The bytes that a writable buffer holds.
pub uninterp spec fn writable_bytes(buffer: sodoken::BufWrite) -> Seq<u8>;

/// The bytes that a read-only buffer holds: the secret.
pub uninterp spec fn secret_bytes(secret: sodoken::BufRead) -> Seq<u8>;

/// `sodoken::BufWriteSized::<512>::new_mem_locked`: a buffer of 512 bytes in
/// locked memory, or the error of an allocation that failed.
#[verifier::external_body]
pub(crate) fn new_line_buffer() -> (made: Result<sodoken::BufWriteSized<512>, one_err::OneErr>)
    ensures
        made matches Ok(buffer) ==> line_buffer_bytes(buffer).len() == 512,
{
    sodoken::BufWriteSized::<512>::new_mem_locked()
}

/// `sodoken::BufWriteSized::write_lock`, and one byte written through the
/// guard: the byte at `at` becomes `byte`, the others stay.
#[verifier::external_body]
pub(crate) fn store_byte(buffer: &mut sodoken::BufWriteSized<512>, at: usize, byte: u8)
    requires
        at < 512,
    ensures
        line_buffer_bytes(*final(buffer)) == line_buffer_bytes(*old(buffer)).update(
            at as int,
            byte,
        ),
{
    buffer.write_lock()[at] = byte;
}

/// `sodoken::BufWriteSized::read_lock`, and one byte read through the guard:
/// the byte at `at`.
#[verifier::external_body]
pub(crate) fn byte_at(buffer: &sodoken::BufWriteSized<512>, at: usize) -> (byte: u8)
    requires
        at < 512,
    ensures
        byte == line_buffer_bytes(*buffer)[at as int],
{
    buffer.read_lock()[at]
}

/// `sodoken::BufWrite::new_mem_locked`: a buffer of `size` bytes in locked
/// memory, or the error of an allocation that failed. Sizes beyond a line
/// buffer's are never asked for.
#[verifier::external_body]
pub(crate) fn new_locked_buffer(size: usize) -> (made: Result<sodoken::BufWrite, one_err::OneErr>)
    requires
        size <= 512,
    ensures
        made matches Ok(buffer) ==> writable_bytes(buffer).len() == size,
{
    sodoken::BufWrite::new_mem_locked(size)
}

/// `sodoken::BufWrite::new_no_lock`: a buffer of `size` bytes in ordinary
/// memory. Sizes beyond a line buffer's are never asked for.
#[verifier::external_body]
pub(crate) fn new_plain_buffer(size: usize) -> (buffer: sodoken::BufWrite)
    requires
        size <= 512,
    ensures
        writable_bytes(buffer).len() == size,
{
    sodoken::BufWrite::new_no_lock(size)
}

/// `sodoken::BufWrite::write_lock` on `into` and
/// `sodoken::BufWriteSized::read_lock` on `from`, and the first `len` bytes
/// of the one copied over the other, which holds as many: `into` then holds
/// the first `len` bytes of `from`.
#[verifier::external_body]
pub(crate) fn copy_line(
    into: &mut sodoken::BufWrite,
    from: &sodoken::BufWriteSized<512>,
    len: usize,
)
    requires
        len <= 512,
        writable_bytes(*old(into)).len() == len,
    ensures
        writable_bytes(*final(into)) == line_buffer_bytes(*from).take(len as int),
{
    into.write_lock().copy_from_slice(&from.read_lock()[..len]);
}

/// `sodoken::BufWrite::to_read`: the same bytes, from now on read-only.
#[verifier::external_body]
pub(crate) fn seal(buffer: sodoken::BufWrite) -> (secret: sodoken::BufRead)
    ensures
        secret_bytes(secret) == writable_bytes(buffer),
{
    buffer.to_read()
}

} // verus!
