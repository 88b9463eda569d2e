//! Directory-entry marshalling.
//!
//! The engine reports a directory entry as a record holding a type tag, a
//! size, and a fixed-capacity zero-terminated name buffer, and it may reuse
//! that record on later calls; the adapter therefore copies the fields out
//! into a value of its own as soon as the record is returned.

use vstd::prelude::*;
use crate::path::{spec_strlen, strlen};
use crate::NAME_MAX_LEN;

verus! {

/// Engine type tag for a regular file.
pub const LFS_TYPE_REG: u8 = 0x11;

/// Engine type tag for a directory.
pub const LFS_TYPE_DIR: u8 = 0x22;

/// The kind of entry a directory record describes.
#[derive(Debug, Clone, Copy, PartialEq, Eq, Structural)]
pub enum EntryType {
    RegularFile,
    Directory,
}

/// The entry type a given engine type tag denotes, where it denotes one.
pub open spec fn spec_entry_type_of_tag(tag: u8) -> Option<EntryType> {
    if tag == LFS_TYPE_REG {
        Some(EntryType::RegularFile)
    } else if tag == LFS_TYPE_DIR {
        Some(EntryType::Directory)
    } else {
        None
    }
}

/// Classify an engine type tag, where it denotes a documented entry kind.
pub fn entry_type_of_tag(tag: u8) -> (r: Option<EntryType>)
    ensures
        r == spec_entry_type_of_tag(tag),
{
    if tag == LFS_TYPE_REG {
        Some(EntryType::RegularFile)
    } else if tag == LFS_TYPE_DIR {
        Some(EntryType::Directory)
    } else {
        None
    }
}

/// A directory entry copied out of the engine's native record: its kind, its
/// size in bytes (meaningful for regular files), and its name as a
/// zero-padded buffer of exactly `NAME_MAX_LEN` bytes.
#[derive(Debug)]
pub struct Info {
    pub entry_type: EntryType,
    pub size: usize,
    pub name: Vec<u8>,
}

impl Info {
    /// The name buffer always holds exactly `NAME_MAX_LEN` bytes.
    pub open spec fn wf(self) -> bool {
        self.name@.len() == NAME_MAX_LEN as nat
    }

    /// The name bytes `from_raw` stores for a raw name buffer: the bytes
    /// before the first zero (at most `NAME_MAX_LEN` of them), then zeroes.
    pub open spec fn spec_marshalled_name(raw_name: Seq<u8>, n: nat) -> Seq<u8> {
        Seq::new(
            NAME_MAX_LEN as nat,
            |i: int|
                if i < n && i < raw_name.len() {
                    raw_name[i]
                } else {
                    0u8
                },
        )
    }

    /// Copy a directory entry out of the engine's native representation,
    /// given as plain values: the type tag, the size field, and the name
    /// buffer. The tag must be one of the two documented entry tags; the
    /// name is read up to its terminating zero and truncated to
    /// `NAME_MAX_LEN` bytes.
    pub fn from_raw(tag: u8, size: u32, raw_name: &[u8]) -> (r: Info)
        requires
            spec_entry_type_of_tag(tag) is Some,
        ensures
            r.wf(),
            Some(r.entry_type) == spec_entry_type_of_tag(tag),
            r.size == size as usize,
            r.name@ == Self::spec_marshalled_name(raw_name@, spec_strlen(raw_name@)),
    {
        let entry_type = if tag == LFS_TYPE_REG {
            EntryType::RegularFile
        } else {
            EntryType::Directory
        };
        let len = strlen(raw_name);
        let mut name: Vec<u8> = Vec::new();
        let mut i: usize = 0;
        while i < NAME_MAX_LEN
            invariant
                i <= NAME_MAX_LEN,
                name@.len() == i,
                len as nat == spec_strlen(raw_name@),
                forall|j: int|
                    0 <= j < i ==> name@[j] == Self::spec_marshalled_name(
                        raw_name@,
                        len as nat,
                    )[j],
            decreases NAME_MAX_LEN - i,
        {
            let b: u8 = if i < len && i < raw_name.len() {
                raw_name[i]
            } else {
                0u8
            };
            name.push(b);
            i = i + 1;
        }
        proof {
            assert(name@ =~= Self::spec_marshalled_name(raw_name@, len as nat));
        }
        Info { entry_type, size: size as usize, name }
    }
}

} // verus!
