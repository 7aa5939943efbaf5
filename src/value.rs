use vstd::prelude::*;

use crate::error::ReadError;

verus! {

/// The logical byte stream of a non-resident attribute, described by plain values.
///
/// Reads go through a [`ByteSource`], which turns a logical offset of the
/// stream into bytes of the medium.
#[derive(Clone, Copy, Debug, PartialEq, Eq, Structural)]
pub struct NonResidentValue {
    /// Where the attribute's data starts on the medium (used in error reports).
    pub data_position: u64,
    /// The number of bytes of the attribute's data.
    pub len: u64,
    /// The cluster size of the file system, in bytes.
    pub cluster_size: u32,
}

impl NonResidentValue {
    pub fn new(data_position: u64, len: u64, cluster_size: u32) -> (r: NonResidentValue)
        ensures
            r == (NonResidentValue { data_position, len, cluster_size }),
    {
        NonResidentValue { data_position, len, cluster_size }
    }

    /// Where the attribute's data starts on the medium.
    pub fn position(&self) -> (r: u64)
        ensures
            r == self.data_position,
    {
        self.data_position
    }

    pub fn len(&self) -> (r: u64)
        ensures
            r == self.len,
    {
        self.len
    }
}

/// A caller-owned source of the bytes of an attribute's logical stream.
///
/// It is borrowed for single operations only and never stored by a detached
/// record stream.
pub trait ByteSource {
    /// Reads `count` bytes starting at the logical offset `position`.
    fn read_bytes(&mut self, position: u64, count: u32) -> Result<Vec<u8>, ReadError>;
}

/// A byte source over an attribute's bytes held in memory.
pub struct MemorySource {
    data: Vec<u8>,
}

impl View for MemorySource {
    type V = Seq<u8>;

    closed spec fn view(&self) -> Seq<u8> {
        self.data@
    }
}

impl MemorySource {
    pub fn new(data: Vec<u8>) -> (r: MemorySource)
        ensures
            r@ == data@,
    {
        MemorySource { data }
    }

    /// The `count` bytes at `position`, or `UnexpectedEof` where fewer remain.
    pub fn read_range(&self, position: u64, count: u32) -> (r: Result<Vec<u8>, ReadError>)
        ensures
            position + count <= self@.len() ==> (r matches Ok(b) && b@ == self@.subrange(
                position as int,
                position + count,
            )),
            position + count > self@.len() ==> r == Err::<Vec<u8>, ReadError>(
                ReadError::UnexpectedEof,
            ),
    {
        let n = self.data.len();
        if position as u128 + count as u128 > n as u128 {
            return Err(ReadError::UnexpectedEof);
        }
        let start = position as usize;
        let end = start + count as usize;
        let mut out: Vec<u8> = Vec::with_capacity(count as usize);
        let mut i: usize = start;
        while i < end
            invariant
                start <= i <= end <= self.data@.len(),
                out@ == self.data@.subrange(start as int, i as int),
            decreases end - i,
        {
            out.push(self.data[i]);
            i = i + 1;
        }
        Ok(out)
    }
}

impl ByteSource for MemorySource {
    fn read_bytes(&mut self, position: u64, count: u32) -> Result<Vec<u8>, ReadError> {
        self.read_range(position, count)
    }
}

} // verus!
