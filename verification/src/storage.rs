//! The storage capability the adapter forwards engine I/O into.
//!
//! A `Storage` is a byte-addressed medium of fixed size. Reads and writes
//! touch only the part of the requested range that lies inside the medium;
//! an erase resets a whole in-bounds range to the medium's erased value.
//! `RamStorage` is an in-memory implementation, with an erased value of
//! `0xFF` as on raw flash.

use vstd::prelude::*;
use crate::error::FsError;

verus! {

/// The bytes a destination buffer holds after reading from `contents` at
/// `off`: positions that fall inside the medium take the medium's byte,
/// positions past its end keep the buffer's old byte.
pub open spec fn spec_read_result(contents: Seq<u8>, dst: Seq<u8>, off: int) -> Seq<u8> {
    Seq::new(
        dst.len(),
        |i: int|
            if off + i < contents.len() {
                contents[off + i]
            } else {
                dst[i]
            },
    )
}

/// The medium's bytes after writing `data` at `off`: positions inside the
/// written range take the data's byte, the rest are unchanged. Data past the
/// medium's end is dropped.
pub open spec fn spec_write_result(contents: Seq<u8>, data: Seq<u8>, off: int) -> Seq<u8> {
    Seq::new(
        contents.len(),
        |i: int|
            if off <= i < off + data.len() {
                data[i - off]
            } else {
                contents[i]
            },
    )
}

/// The medium's bytes after erasing `len` bytes at `off` on a medium whose
/// erased value is `val`.
pub open spec fn spec_erase_result(contents: Seq<u8>, off: int, len: int, val: u8) -> Seq<u8> {
    Seq::new(
        contents.len(),
        |i: int|
            if off <= i < off + len {
                val
            } else {
                contents[i]
            },
    )
}

/// A capability over a fixed-size, byte-addressed backing medium. The
/// adapter owns exactly one `Storage` per mounted filesystem and is its only
/// user; implementations are supplied by the application.
pub trait Storage: Sized {
    /// The bytes the medium holds.
    spec fn contents(&self) -> Seq<u8>;

    /// The value an erased byte of the medium takes.
    spec fn erased_byte(&self) -> u8;

    /// Read bytes at `off` into `buf`. Only the part of the range inside
    /// the medium is read; the rest of `buf` keeps its old bytes. On
    /// success the whole buffer length is reported read.
    fn read(&self, off: usize, buf: &mut Vec<u8>) -> (r: Result<usize, FsError>)
        ensures
            final(buf)@.len() == old(buf)@.len(),
            r is Ok ==> final(buf)@ == spec_read_result(self.contents(), old(buf)@, off as int),
            r is Ok ==> r->Ok_0 == old(buf)@.len(),
    ;

    /// Write `data` at `off`. Only the part of the range inside the medium
    /// is written; the medium's size and erased value never change. On
    /// success the whole data length is reported written.
    fn write(&mut self, off: usize, data: &[u8]) -> (r: Result<usize, FsError>)
        ensures
            final(self).contents().len() == old(self).contents().len(),
            final(self).erased_byte() == old(self).erased_byte(),
            r is Ok ==> final(self).contents() == spec_write_result(
                old(self).contents(),
                data@,
                off as int,
            ),
            r is Ok ==> r->Ok_0 == data@.len(),
    ;

    /// Erase `len` bytes at `off`, resetting them to the erased value. The
    /// range must lie inside the medium.
    fn erase(&mut self, off: usize, len: usize) -> (r: Result<usize, FsError>)
        requires
            off + len <= old(self).contents().len(),
        ensures
            final(self).contents().len() == old(self).contents().len(),
            final(self).erased_byte() == old(self).erased_byte(),
            r is Ok ==> final(self).contents() == spec_erase_result(
                old(self).contents(),
                off as int,
                len as int,
                old(self).erased_byte(),
            ),
            r is Ok ==> r->Ok_0 == len,
    ;
}

/// Default flash erase value.
pub const ERASE_VALUE: u8 = 0xFF;

/// An in-memory backing medium: a byte vector that starts fully erased.
pub struct RamStorage {
    buf: Vec<u8>,
}

impl RamStorage {
    /// A fully erased medium of `size` bytes.
    pub fn new(size: usize) -> (r: Self)
        ensures
            r.contents().len() == size,
            forall|i: int| 0 <= i < size ==> r.contents()[i] == ERASE_VALUE,
            r.erased_byte() == ERASE_VALUE,
    {
        RamStorage { buf: vec![ERASE_VALUE; size] }
    }
}

impl Storage for RamStorage {
    closed spec fn contents(&self) -> Seq<u8> {
        self.buf@
    }

    closed spec fn erased_byte(&self) -> u8 {
        ERASE_VALUE
    }

    fn read(&self, off: usize, buf: &mut Vec<u8>) -> (r: Result<usize, FsError>)
        ensures
            r is Ok,
    {
        let n = buf.len();
        let mut i: usize = 0;
        while i < n
            invariant
                i <= n,
                n == buf@.len(),
                old(buf)@.len() == n,
                forall|j: int|
                    0 <= j < i ==> buf@[j] == spec_read_result(
                        self.buf@,
                        old(buf)@,
                        off as int,
                    )[j],
                forall|j: int| i <= j < n ==> buf@[j] == old(buf)@[j],
            decreases n - i,
        {
            if off < self.buf.len() && i < self.buf.len() - off {
                let b = self.buf[off + i];
                buf.set(i, b);
            }
            i = i + 1;
        }
        proof {
            assert(buf@ =~= spec_read_result(self.contents(), old(buf)@, off as int));
        }
        Ok(n)
    }

    fn write(&mut self, off: usize, data: &[u8]) -> (r: Result<usize, FsError>)
        ensures
            r is Ok,
    {
        let n = data.len();
        let mut i: usize = 0;
        while i < n
            invariant
                i <= n,
                n == data@.len(),
                self.buf@.len() == old(self).buf@.len(),
                forall|j: int|
                    0 <= j < self.buf@.len() && off <= j < off + i ==> self.buf@[j] == data@[j
                        - off],
                forall|j: int|
                    0 <= j < self.buf@.len() && !(off <= j < off + i) ==> self.buf@[j] == old(
                        self,
                    ).buf@[j],
            decreases n - i,
        {
            if off < self.buf.len() && i < self.buf.len() - off {
                let b = data[i];
                self.buf.set(off + i, b);
            }
            i = i + 1;
        }
        proof {
            assert(self.contents() =~= spec_write_result(
                old(self).contents(),
                data@,
                off as int,
            ));
        }
        Ok(n)
    }

    fn erase(&mut self, off: usize, len: usize) -> (r: Result<usize, FsError>)
        ensures
            r is Ok,
    {
        let cap = self.buf.len();
        let mut i: usize = 0;
        while i < len
            invariant
                i <= len,
                off + len <= cap,
                cap == self.buf@.len(),
                self.buf@.len() == old(self).buf@.len(),
                forall|j: int| off <= j < off + i ==> self.buf@[j] == ERASE_VALUE,
                forall|j: int|
                    0 <= j < self.buf@.len() && !(off <= j < off + i) ==> self.buf@[j] == old(
                        self,
                    ).buf@[j],
            decreases len - i,
        {
            self.buf.set(off + i, ERASE_VALUE);
            i = i + 1;
        }
        proof {
            assert(self.contents() =~= spec_erase_result(
                old(self).contents(),
                off as int,
                len as int,
                ERASE_VALUE,
            ));
        }
        Ok(len)
    }
}

} // verus!
