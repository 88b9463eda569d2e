//! Adapter layer for a block-device-backed, power-loss-resilient embedded
//! filesystem engine.
//!
//! The engine itself (block allocation, metadata logging, wear leveling,
//! checksums) is an external collaborator reached over a C ABI; this crate
//! holds the verified pieces that sit between that engine and an application:
//! the status-code translator, the bounded path encoder, the open-flag and
//! seek-whence encodings, directory-entry marshalling, the storage capability
//! contract with an in-memory implementation, and the trampoline forwarding
//! logic that turns the engine's block/offset callbacks into storage calls.

use vstd::prelude::*;

pub mod error;
pub mod path;
pub mod flags;
pub mod geometry;
pub mod info;
pub mod storage;
pub mod trampoline;

verus! {

/// Maximum length of a path name accepted by the engine, not counting the
/// terminating zero byte (the engine's `LFS_NAME_MAX`).
pub const NAME_MAX_LEN: usize = 255;

/// Size in bytes of the adapter's read buffer and minimum engine read unit.
pub const READ_SIZE: usize = 256;

/// Size in bytes of the adapter's program buffer and minimum engine write unit.
pub const PROG_SIZE: usize = 256;

/// Size in bytes of one erasable block of the backing medium.
pub const BLOCK_SIZE: usize = 4096;

/// Number of erasable blocks on the backing medium.
pub const BLOCK_COUNT: usize = 32;

/// Number of blocks the engine looks ahead during allocation; one bit of
/// lookahead buffer per block.
pub const LOOKAHEAD: usize = 128;

} // verus!
