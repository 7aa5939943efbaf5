use vstd::prelude::*;

verus! {

/// What an index root tells the index allocation: the size of its records.
#[derive(Clone, Copy, Debug, PartialEq, Eq, Structural)]
pub struct NtfsIndexRoot {
    pub index_record_size: u32,
}

impl NtfsIndexRoot {
    pub fn new(index_record_size: u32) -> (r: NtfsIndexRoot)
        ensures
            r.index_record_size == index_record_size,
    {
        NtfsIndexRoot { index_record_size }
    }

    /// The number of bytes of each index record of the index allocation.
    pub fn index_record_size(&self) -> (r: u32)
        ensures
            r == self.index_record_size,
    {
        self.index_record_size
    }
}

} // verus!
