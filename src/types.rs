use vstd::prelude::*;

use crate::error::NtfsError;

verus! {

/// A virtual cluster number: a position in the logical cluster space of an attribute.
#[derive(Clone, Copy, Debug, PartialEq, Eq, Structural)]
pub struct Vcn(pub i64);

/// The byte offset of `vcn` for clusters of `cluster_size` bytes, unbounded.
pub open spec fn vcn_byte_offset(vcn: Vcn, cluster_size: u32) -> int {
    vcn.0 * cluster_size
}

/// Whether the byte offset of `vcn` fits into an `i64`.
pub open spec fn vcn_offset_fits(vcn: Vcn, cluster_size: u32) -> bool {
    i64::MIN <= vcn_byte_offset(vcn, cluster_size) <= i64::MAX
}

impl Vcn {
    pub fn new(value: i64) -> (r: Vcn)
        ensures
            r.0 == value,
    {
        Vcn(value)
    }

    pub fn value(&self) -> (r: i64)
        ensures
            r == self.0,
    {
        self.0
    }

    /// The byte offset of this VCN relative to the start of its attribute.
    pub fn offset(&self, cluster_size: u32) -> (r: Result<i64, NtfsError>)
        ensures
            vcn_offset_fits(*self, cluster_size) ==> r == Ok::<i64, NtfsError>(
                vcn_byte_offset(*self, cluster_size) as i64,
            ),
            !vcn_offset_fits(*self, cluster_size) ==> r == Err::<i64, NtfsError>(
                NtfsError::VcnTooBig { vcn: *self },
            ),
    {
        match self.0.checked_mul(cluster_size as i64) {
            Some(offset) => Ok(offset),
            None => Err(NtfsError::VcnTooBig { vcn: *self }),
        }
    }
}

} // verus!
