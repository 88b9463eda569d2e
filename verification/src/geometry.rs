//! The fixed size and count parameters describing the medium and buffering.
//!
//! A geometry is chosen once, at adapter construction, and is copied into
//! the engine's configuration record before every format or mount; it never
//! changes afterwards. The engine mandates the alignment relations checked
//! here: programs are a multiple of the read unit, blocks a multiple of the
//! program unit, and the allocation lookahead a multiple of 32 blocks.

use vstd::prelude::*;
use crate::{BLOCK_COUNT, BLOCK_SIZE, LOOKAHEAD, PROG_SIZE, READ_SIZE};

verus! {

/// The immutable size and count parameters handed to the engine.
#[derive(Debug, Clone, Copy, PartialEq, Eq, Structural)]
pub struct Geometry {
    /// Minimum size of a block read, in bytes.
    pub read_size: u32,
    /// Minimum size of a block program, in bytes; a multiple of `read_size`.
    pub prog_size: u32,
    /// Size of an erasable block, in bytes; a multiple of `prog_size`.
    pub block_size: u32,
    /// Number of erasable blocks on the medium.
    pub block_count: u32,
    /// Number of blocks of allocation lookahead; a multiple of 32.
    pub lookahead: u32,
}

impl Geometry {
    /// The engine's alignment requirements on a geometry.
    pub open spec fn valid(self) -> bool {
        &&& 0 < self.read_size
        &&& 0 < self.prog_size
        &&& 0 < self.block_count
        &&& 0 < self.lookahead
        &&& self.prog_size % self.read_size == 0
        &&& self.block_size % self.prog_size == 0
        &&& self.prog_size <= self.block_size
        &&& self.read_size <= self.block_size
        &&& self.lookahead % 32 == 0
    }

    /// Check the engine's alignment requirements.
    pub fn check(&self) -> (b: bool)
        ensures
            b == self.valid(),
    {
        0 < self.read_size && 0 < self.prog_size && 0 < self.block_count && 0 < self.lookahead
            && self.prog_size % self.read_size == 0 && self.block_size % self.prog_size == 0
            && self.prog_size <= self.block_size && self.read_size <= self.block_size
            && self.lookahead % 32 == 0
    }

    /// The geometry this adapter is built with.
    pub fn adapter_default() -> (g: Geometry)
        ensures
            g.read_size == READ_SIZE,
            g.prog_size == PROG_SIZE,
            g.block_size == BLOCK_SIZE,
            g.block_count == BLOCK_COUNT,
            g.lookahead == LOOKAHEAD,
            g.valid(),
    {
        let g = Geometry {
            read_size: READ_SIZE as u32,
            prog_size: PROG_SIZE as u32,
            block_size: BLOCK_SIZE as u32,
            block_count: BLOCK_COUNT as u32,
            lookahead: LOOKAHEAD as u32,
        };
        g
    }
}

} // verus!
