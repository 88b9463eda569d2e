//! File-open flags and seek origins, encoded as the engine's C ABI expects.

use vstd::prelude::*;

verus! {

/// Engine open flag: open for reading.
pub const LFS_O_RDONLY: u32 = 0x1;

/// Engine open flag: open for writing.
pub const LFS_O_WRONLY: u32 = 0x2;

/// Engine open flag: open for reading and writing.
pub const LFS_O_RDWR: u32 = 0x3;

/// Engine open flag: create the file if it does not exist.
pub const LFS_O_CREAT: u32 = 0x0100;

/// Engine open flag: fail with `Exist` if the file already exists.
pub const LFS_O_EXCL: u32 = 0x0200;

/// Engine open flag: truncate the existing file to zero size.
pub const LFS_O_TRUNC: u32 = 0x0400;

/// Engine open flag: move to the end of the file on every write.
pub const LFS_O_APPEND: u32 = 0x0800;

/// A bit-set of engine open flags.
#[derive(Debug, Clone, Copy, PartialEq, Eq, Structural)]
pub struct FileOpenFlags {
    bits: u32,
}

impl FileOpenFlags {
    /// The raw bit pattern this flag set stands for.
    pub closed spec fn spec_bits(self) -> u32 {
        self.bits
    }

    /// The empty flag set.
    pub fn empty() -> (r: Self)
        ensures
            r.spec_bits() == 0u32,
    {
        FileOpenFlags { bits: 0 }
    }

    /// Read-only access.
    pub fn rdonly() -> (r: Self)
        ensures
            r.spec_bits() == LFS_O_RDONLY,
    {
        FileOpenFlags { bits: LFS_O_RDONLY }
    }

    /// Write-only access.
    pub fn wronly() -> (r: Self)
        ensures
            r.spec_bits() == LFS_O_WRONLY,
    {
        FileOpenFlags { bits: LFS_O_WRONLY }
    }

    /// Read-write access: the union of the read and write bits.
    pub fn rdwr() -> (r: Self)
        ensures
            r.spec_bits() == LFS_O_RDWR,
            r.spec_bits() == (LFS_O_RDONLY | LFS_O_WRONLY),
    {
        proof {
            assert((LFS_O_RDONLY | LFS_O_WRONLY) == LFS_O_RDWR) by (bit_vector);
        }
        FileOpenFlags { bits: LFS_O_RDWR }
    }

    /// Create the file if it does not exist.
    pub fn creat() -> (r: Self)
        ensures
            r.spec_bits() == LFS_O_CREAT,
    {
        FileOpenFlags { bits: LFS_O_CREAT }
    }

    /// Fail if the file already exists.
    pub fn excl() -> (r: Self)
        ensures
            r.spec_bits() == LFS_O_EXCL,
    {
        FileOpenFlags { bits: LFS_O_EXCL }
    }

    /// Truncate the existing file to zero size.
    pub fn trunc() -> (r: Self)
        ensures
            r.spec_bits() == LFS_O_TRUNC,
    {
        FileOpenFlags { bits: LFS_O_TRUNC }
    }

    /// Move to the end of the file on every write.
    pub fn append() -> (r: Self)
        ensures
            r.spec_bits() == LFS_O_APPEND,
    {
        FileOpenFlags { bits: LFS_O_APPEND }
    }

    /// The union of two flag sets.
    pub fn union(self, other: Self) -> (r: Self)
        ensures
            r.spec_bits() == (self.spec_bits() | other.spec_bits()),
    {
        FileOpenFlags { bits: self.bits | other.bits }
    }

    /// Whether every flag of `other` is set in `self`.
    pub fn contains(self, other: Self) -> (r: bool)
        ensures
            r == ((self.spec_bits() & other.spec_bits()) == other.spec_bits()),
    {
        (self.bits & other.bits) == other.bits
    }

    /// The raw bit pattern, as handed to the engine's open call.
    pub fn bits(self) -> (r: u32)
        ensures
            r == self.spec_bits(),
    {
        self.bits
    }
}

/// Origin of a seek within an open file.
#[derive(Debug, Clone, Copy, PartialEq, Eq, Structural)]
pub enum Whence {
    /// Seek relative to the start of the file.
    Start,
    /// Seek relative to the current position.
    Current,
    /// Seek relative to the end of the file.
    End,
}

impl Whence {
    /// The origin's code in the engine's C ABI.
    pub fn code(self) -> (r: i32)
        ensures
            self is Start ==> r == 0,
            self is Current ==> r == 1,
            self is End ==> r == 2,
    {
        match self {
            Whence::Start => 0,
            Whence::Current => 1,
            Whence::End => 2,
        }
    }
}

} // verus!
