//! Forwarding logic behind the engine's four I/O callbacks.
//!
//! The engine addresses the medium by block, offset and size; each callback
//! computes the absolute byte offset `block * block_size + offset` and
//! forwards to the adapter's [`Storage`](crate::storage::Storage). Only the
//! raw-pointer shims that recover the adapter from the engine's opaque
//! context pointer live outside this crate; everything from the recovered
//! storage onward is here.

use vstd::prelude::*;
use crate::error::FsError;
use crate::storage::{spec_erase_result, spec_read_result, spec_write_result, Storage};

verus! {

/// The absolute byte offset of `off` within block `block`.
pub open spec fn spec_abs_offset(block: u32, off: u32, block_size: u32) -> int {
    block * block_size + off
}

/// Read `buf.len()` bytes for the engine, starting at `off` within `block`.
pub fn trampoline_read<T: Storage>(
    storage: &T,
    block: u32,
    off: u32,
    block_size: u32,
    buf: &mut Vec<u8>,
) -> (r: Result<usize, FsError>)
    requires
        spec_abs_offset(block, off, block_size) <= usize::MAX,
    ensures
        final(buf)@.len() == old(buf)@.len(),
        r is Ok ==> final(buf)@ == spec_read_result(
            storage.contents(),
            old(buf)@,
            spec_abs_offset(block, off, block_size),
        ),
        r is Ok ==> r->Ok_0 == old(buf)@.len(),
{
    let abs: usize = (block as usize) * (block_size as usize) + (off as usize);
    storage.read(abs, buf)
}

/// Program `data` for the engine, starting at `off` within `block`.
pub fn trampoline_prog<T: Storage>(
    storage: &mut T,
    block: u32,
    off: u32,
    block_size: u32,
    data: &[u8],
) -> (r: Result<usize, FsError>)
    requires
        spec_abs_offset(block, off, block_size) <= usize::MAX,
    ensures
        final(storage).contents().len() == old(storage).contents().len(),
        final(storage).erased_byte() == old(storage).erased_byte(),
        r is Ok ==> final(storage).contents() == spec_write_result(
            old(storage).contents(),
            data@,
            spec_abs_offset(block, off, block_size),
        ),
        r is Ok ==> r->Ok_0 == data@.len(),
{
    let abs: usize = (block as usize) * (block_size as usize) + (off as usize);
    storage.write(abs, data)
}

/// Erase the whole of block `block` for the engine.
pub fn trampoline_erase<T: Storage>(storage: &mut T, block: u32, block_size: u32) -> (r: Result<
    usize,
    FsError,
>)
    requires
        block * block_size + block_size <= old(storage).contents().len(),
        block * block_size + block_size <= usize::MAX,
    ensures
        final(storage).contents().len() == old(storage).contents().len(),
        final(storage).erased_byte() == old(storage).erased_byte(),
        r is Ok ==> final(storage).contents() == spec_erase_result(
            old(storage).contents(),
            spec_abs_offset(block, 0, block_size),
            block_size as int,
            old(storage).erased_byte(),
        ),
        r is Ok ==> r->Ok_0 == block_size,
{
    let abs: usize = (block as usize) * (block_size as usize);
    storage.erase(abs, block_size as usize)
}

/// Sync the medium for the engine. The adapter takes the storage's writes
/// and erases to be synchronously durable, so this is a no-op that reports
/// success with the engine's zero status code.
pub fn trampoline_sync() -> (r: i32)
    ensures
        r == 0,
{
    0
}

/// Reading back a freshly programmed in-bounds range yields exactly the
/// programmed bytes: the storage-level half of the write/read round trip.
pub proof fn lemma_prog_read_roundtrip(contents: Seq<u8>, dst: Seq<u8>, data: Seq<u8>, off: int)
    requires
        0 <= off,
        off + data.len() <= contents.len(),
        dst.len() == data.len(),
    ensures
        spec_read_result(spec_write_result(contents, data, off), dst, off) == data,
{
    assert(spec_read_result(spec_write_result(contents, data, off), dst, off) =~= data);
}

/// Reading back a freshly erased in-bounds range yields only the medium's
/// erased value: erasure is destructive.
pub proof fn lemma_erase_read_erased(contents: Seq<u8>, dst: Seq<u8>, off: int, val: u8)
    requires
        0 <= off,
        off + dst.len() <= contents.len(),
    ensures
        spec_read_result(spec_erase_result(contents, off, dst.len() as int, val), dst, off)
            == Seq::new(dst.len(), |i: int| val),
{
    assert(spec_read_result(spec_erase_result(contents, off, dst.len() as int, val), dst, off)
        =~= Seq::new(dst.len(), |i: int| val));
}

} // verus!
