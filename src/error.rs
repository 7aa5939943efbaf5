use vstd::prelude::*;

use crate::types::Vcn;

verus! {

/// The ways in which reading an index allocation can fail.
#[derive(Clone, Copy, Debug, PartialEq, Eq, Structural)]
pub enum NtfsError {
    /// A VCN resolves to a byte offset that lies outside the index allocation.
    /// `position` is where the attribute's data starts.
    VcnOutOfBoundsInIndexAllocation { position: u64, vcn: Vcn },
    /// The record found at the offset of `expected` reports `actual` as its VCN.
    /// `position` is where the attribute's data starts.
    VcnMismatchInIndexAllocation { position: u64, expected: Vcn, actual: Vcn },
    /// The byte offset of a VCN does not fit into a signed 64-bit integer.
    VcnTooBig { vcn: Vcn },
    /// The index record size is too small to hold an index record header.
    IndexRecordTooSmall { position: u64, size: u32 },
    /// Fewer bytes than a whole index record are available at `position`.
    UnexpectedEnd { position: u64, size: u32, available: u64 },
    /// The byte source failed to deliver the bytes at the logical offset `position`.
    Io { position: u64, error: ReadError },
}

/// How a byte source failed to deliver the bytes asked of it.
#[derive(Clone, Copy, Debug, PartialEq, Eq, Structural)]
pub enum ReadError {
    /// The source ends before the last byte asked for.
    UnexpectedEof,
    /// The medium could not be read.
    Failed,
}

} // verus!
