use vstd::prelude::*;

use crate::error::NtfsError;
use crate::types::Vcn;

verus! {

/// The number of bytes of an index record header, up to and including its VCN field.
pub const INDEX_RECORD_HEADER_SIZE: u32 = 24;

/// Where the VCN field starts in an index record header.
pub const INDEX_RECORD_VCN_OFFSET: usize = 16;

/// The unsigned little-endian number that the bytes `s` encode.
pub open spec fn le_value(s: Seq<u8>) -> nat
    decreases s.len(),
{
    if s.len() == 0 {
        0
    } else {
        s[0] as nat + 256 * le_value(s.subrange(1, s.len() as int))
    }
}

/// The VCN that an index record header reports for its own record.
pub open spec fn header_vcn(data: Seq<u8>) -> Vcn {
    Vcn(le_value(data.subrange(16, 24)) as u64 as i64)
}

/// 256 to the power `n`.
pub open spec fn byte_bound(n: nat) -> nat
    decreases n,
{
    if n == 0 {
        1
    } else {
        256 * byte_bound((n - 1) as nat)
    }
}

proof fn lemma_le_value_bound(s: Seq<u8>)
    ensures
        le_value(s) < byte_bound(s.len()),
    decreases s.len(),
{
    if s.len() > 0 {
        let rest = s.subrange(1, s.len() as int);
        lemma_le_value_bound(rest);
        let v = le_value(rest);
        let b = byte_bound(rest.len());
        assert(s[0] as nat + 256 * v < 256 * b) by (nonlinear_arith)
            requires
                v < b,
                s[0] < 256,
        ;
    }
}

proof fn lemma_byte_bound_monotone(a: nat, b: nat)
    requires
        a <= b,
    ensures
        byte_bound(a) <= byte_bound(b),
    decreases b,
{
    if a < b {
        lemma_byte_bound_monotone(a, (b - 1) as nat);
    }
}

/// What a parsed index record holds.
pub struct IndexRecordModel {
    /// The logical offset of the record in the attribute's stream.
    pub position: u64,
    /// The VCN that the record's header reports.
    pub vcn: Vcn,
    /// The record's bytes.
    pub data: Seq<u8>,
}

/// The outcome of parsing the bytes `data`, read at `position`, as a record of `record_size` bytes.
pub open spec fn record_from_bytes(position: u64, record_size: u32, data: Seq<u8>) -> Result<
    IndexRecordModel,
    NtfsError,
> {
    if record_size < INDEX_RECORD_HEADER_SIZE {
        Err(NtfsError::IndexRecordTooSmall { position, size: record_size })
    } else if data.len() != record_size {
        Err(
            NtfsError::UnexpectedEnd {
                position,
                size: record_size,
                available: data.len() as u64,
            },
        )
    } else {
        Ok(IndexRecordModel { position, vcn: header_vcn(data), data })
    }
}

/// One index record of an index allocation.
#[derive(Clone, Debug)]
pub struct NtfsIndexRecord {
    position: u64,
    vcn: Vcn,
    data: Vec<u8>,
}

impl View for NtfsIndexRecord {
    type V = IndexRecordModel;

    closed spec fn view(&self) -> IndexRecordModel {
        IndexRecordModel { position: self.position, vcn: self.vcn, data: self.data@ }
    }
}

/// Reads the VCN field of an index record header.
fn read_header_vcn(data: &Vec<u8>) -> (r: Vcn)
    requires
        data@.len() >= INDEX_RECORD_HEADER_SIZE,
    ensures
        r == header_vcn(data@),
{
    let end: usize = INDEX_RECORD_VCN_OFFSET + 8;
    let mut value: u64 = 0;
    let mut i: usize = end;
    while i > INDEX_RECORD_VCN_OFFSET
        invariant
            INDEX_RECORD_VCN_OFFSET <= i <= end,
            end == 24,
            end <= data@.len(),
            value == le_value(data@.subrange(i as int, end as int)),
        decreases i,
    {
        let ghost tail = data@.subrange(i as int, end as int);
        let ghost longer = data@.subrange(i - 1, end as int);
        proof {
            lemma_le_value_bound(tail);
            lemma_byte_bound_monotone(tail.len(), 7);
            reveal_with_fuel(byte_bound, 8);
            assert(longer.subrange(1, longer.len() as int) =~= tail);
        }
        value = value * 256 + data[i - 1] as u64;
        i = i - 1;
    }
    Vcn(value as i64)
}

impl NtfsIndexRecord {
    /// Parses the bytes `data`, read at the logical offset `position`, as one
    /// index record of `index_record_size` bytes.
    pub fn new(position: u64, data: Vec<u8>, index_record_size: u32) -> (r: Result<
        NtfsIndexRecord,
        NtfsError,
    >)
        ensures
            r matches Ok(rec) ==> record_from_bytes(position, index_record_size, data@) == Ok::<
                IndexRecordModel,
                NtfsError,
            >(rec@),
            r matches Err(e) ==> record_from_bytes(position, index_record_size, data@) == Err::<
                IndexRecordModel,
                NtfsError,
            >(e),
    {
        if index_record_size < INDEX_RECORD_HEADER_SIZE {
            return Err(NtfsError::IndexRecordTooSmall { position, size: index_record_size });
        }
        if data.len() != index_record_size as usize {
            return Err(
                NtfsError::UnexpectedEnd {
                    position,
                    size: index_record_size,
                    available: data.len() as u64,
                },
            );
        }
        let vcn = read_header_vcn(&data);
        Ok(NtfsIndexRecord { position, vcn, data })
    }

    /// The VCN that this record's header reports.
    pub fn vcn(&self) -> (r: Vcn)
        ensures
            r == self@.vcn,
    {
        self.vcn
    }

    /// The logical offset of this record in its attribute's stream.
    pub fn position(&self) -> (r: u64)
        ensures
            r == self@.position,
    {
        self.position
    }

    /// The bytes of this record.
    pub fn data(&self) -> (r: &Vec<u8>)
        ensures
            r@ == self@.data,
    {
        &self.data
    }
}

} // verus!
