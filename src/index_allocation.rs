use vstd::prelude::*;

use crate::error::{NtfsError, ReadError};
use crate::index_record::{
    record_from_bytes, IndexRecordModel, NtfsIndexRecord, INDEX_RECORD_HEADER_SIZE,
};
use crate::index_root::NtfsIndexRoot;
use crate::types::{vcn_byte_offset, vcn_offset_fits, Vcn};
use crate::value::{ByteSource, NonResidentValue};

verus! {

/// The state of a record stream: the attribute, the current logical offset and the record size.
pub struct RecordsModel {
    pub value: NonResidentValue,
    pub position: u64,
    pub record_size: u32,
}

/// A record stream never leaves its attribute and only stops on record boundaries.
pub open spec fn records_wf(m: RecordsModel) -> bool {
    &&& m.position <= m.value.len
    &&& m.record_size > 0 ==> (m.position as int) % (m.record_size as int) == 0
}

pub open spec fn is_exhausted(m: RecordsModel) -> bool {
    m.position >= m.value.len
}

/// A fresh record stream at the start of `value`.
pub open spec fn fresh_records(value: NonResidentValue, record_size: u32) -> RecordsModel {
    RecordsModel { value, position: 0, record_size }
}

/// The stream moved on by one record.
pub open spec fn advanced(m: RecordsModel) -> RecordsModel {
    RecordsModel {
        value: m.value,
        position: (m.position + m.record_size) as u64,
        record_size: m.record_size,
    }
}

/// Why no record of `record_size` bytes can be read at `position` of `value`, if so.
pub open spec fn placement_error(value: NonResidentValue, position: u64, record_size: u32) -> Option<
    NtfsError,
> {
    if record_size < INDEX_RECORD_HEADER_SIZE {
        Some(NtfsError::IndexRecordTooSmall { position, size: record_size })
    } else if position + record_size > value.len {
        Some(
            NtfsError::UnexpectedEnd {
                position,
                size: record_size,
                available: if position <= value.len {
                    (value.len - position) as u64
                } else {
                    0
                },
            },
        )
    } else {
        None
    }
}

/// The record parsed from what a byte source handed back for `position`.
pub open spec fn record_from_read(
    position: u64,
    record_size: u32,
    read: Result<Seq<u8>, ReadError>,
) -> Result<IndexRecordModel, NtfsError> {
    match read {
        Ok(data) => record_from_bytes(position, record_size, data),
        Err(error) => Err(NtfsError::Io { position, error }),
    }
}

/// What one pull on the stream `m` yields, given what the byte source handed back.
pub open spec fn pull_outcome(m: RecordsModel, read: Result<Seq<u8>, ReadError>) -> Option<
    Result<IndexRecordModel, NtfsError>,
> {
    if is_exhausted(m) {
        None
    } else {
        match placement_error(m.value, m.position, m.record_size) {
            Some(e) => Some(Err(e)),
            None => Some(record_from_read(m.position, m.record_size, read)),
        }
    }
}

/// The stream after one pull: advanced by a record exactly when a record came out.
pub open spec fn pull_state(m: RecordsModel, read: Result<Seq<u8>, ReadError>) -> RecordsModel {
    if pull_outcome(m, read) matches Some(Ok(_)) {
        advanced(m)
    } else {
        m
    }
}

/// The logical offset at which the record of `vcn` lies, or why it lies outside `value`.
pub open spec fn vcn_position(value: NonResidentValue, vcn: Vcn) -> Result<u64, NtfsError> {
    if !vcn_offset_fits(vcn, value.cluster_size) {
        Err(NtfsError::VcnTooBig { vcn })
    } else if vcn_byte_offset(vcn, value.cluster_size) < 0 || vcn_byte_offset(
        vcn,
        value.cluster_size,
    ) >= value.len {
        Err(NtfsError::VcnOutOfBoundsInIndexAllocation { position: value.data_position, vcn })
    } else {
        Ok(vcn_byte_offset(vcn, value.cluster_size) as u64)
    }
}

/// What a lookup of `vcn` yields, given what the byte source handed back for its offset.
pub open spec fn lookup_outcome(
    value: NonResidentValue,
    record_size: u32,
    vcn: Vcn,
    read: Result<Seq<u8>, ReadError>,
) -> Result<IndexRecordModel, NtfsError> {
    match vcn_position(value, vcn) {
        Err(e) => Err(e),
        Ok(position) => match placement_error(value, position, record_size) {
            Some(e) => Err(e),
            None => match record_from_read(position, record_size, read) {
                Err(e) => Err(e),
                Ok(record) => if record.vcn == vcn {
                    Ok(record)
                } else {
                    Err(
                        NtfsError::VcnMismatchInIndexAllocation {
                            position: value.data_position,
                            expected: vcn,
                            actual: record.vcn,
                        },
                    )
                },
            },
        },
    }
}

pub open spec fn read_view(read: Result<Vec<u8>, ReadError>) -> Result<Seq<u8>, ReadError> {
    match read {
        Ok(data) => Ok(data@),
        Err(e) => Err(e),
    }
}

pub open spec fn record_result_view(r: Result<NtfsIndexRecord, NtfsError>) -> Result<
    IndexRecordModel,
    NtfsError,
> {
    match r {
        Ok(record) => Ok(record@),
        Err(e) => Err(e),
    }
}

pub open spec fn pull_result_view(r: Option<Result<NtfsIndexRecord, NtfsError>>) -> Option<
    Result<IndexRecordModel, NtfsError>,
> {
    match r {
        Some(x) => Some(record_result_view(x)),
        None => None,
    }
}

fn check_placement(value: &NonResidentValue, position: u64, record_size: u32) -> (r: Option<
    NtfsError,
>)
    ensures
        r == placement_error(*value, position, record_size),
{
    if record_size < INDEX_RECORD_HEADER_SIZE {
        return Some(NtfsError::IndexRecordTooSmall { position, size: record_size });
    }
    if position as u128 + record_size as u128 > value.len as u128 {
        let available: u64 = if position <= value.len {
            value.len - position
        } else {
            0
        };
        return Some(NtfsError::UnexpectedEnd { position, size: record_size, available });
    }
    None
}

fn parse_read(position: u64, record_size: u32, read: Result<Vec<u8>, ReadError>) -> (r: Result<
    NtfsIndexRecord,
    NtfsError,
>)
    ensures
        record_result_view(r) == record_from_read(position, record_size, read_view(read)),
{
    match read {
        Ok(data) => NtfsIndexRecord::new(position, data, record_size),
        Err(error) => Err(NtfsError::Io { position, error }),
    }
}

/// The index allocation attribute of a directory index: the overflow records of its B-tree.
#[derive(Clone, Debug)]
pub struct NtfsIndexAllocation {
    value: NonResidentValue,
}

impl View for NtfsIndexAllocation {
    type V = NonResidentValue;

    closed spec fn view(&self) -> NonResidentValue {
        self.value
    }
}

impl NtfsIndexAllocation {
    pub fn from_non_resident_attribute_value(value: NonResidentValue) -> (r: NtfsIndexAllocation)
        ensures
            r@ == value,
    {
        NtfsIndexAllocation { value }
    }

    /// A stream over all index records, from the first one on.
    pub fn iter(&self, index_root: &NtfsIndexRoot) -> (r: NtfsIndexRecords)
        ensures
            r@ == fresh_records(self@, index_root.index_record_size),
            records_wf(r@),
    {
        let index_record_size = index_root.index_record_size();
        NtfsIndexRecords::new(self.value, index_record_size)
    }

    /// The logical offset of the record of `vcn`, checked to lie inside the attribute.
    pub fn record_position(&self, vcn: Vcn) -> (r: Result<u64, NtfsError>)
        ensures
            r == vcn_position(self@, vcn),
    {
        let offset = match vcn.offset(self.value.cluster_size) {
            Ok(offset) => offset,
            Err(e) => return Err(e),
        };
        if offset < 0 || offset as u64 >= self.value.len {
            return Err(
                NtfsError::VcnOutOfBoundsInIndexAllocation {
                    position: self.value.data_position,
                    vcn,
                },
            );
        }
        Ok(offset as u64)
    }

    /// The record of `vcn`, given what the byte source handed back for its offset.
    pub fn record_from_vcn_read(
        &self,
        index_root: &NtfsIndexRoot,
        vcn: Vcn,
        read: Result<Vec<u8>, ReadError>,
    ) -> (r: Result<NtfsIndexRecord, NtfsError>)
        ensures
            record_result_view(r) == lookup_outcome(
                self@,
                index_root.index_record_size,
                vcn,
                read_view(read),
            ),
    {
        let position = match self.record_position(vcn) {
            Ok(position) => position,
            Err(e) => return Err(e),
        };
        let index_record_size = index_root.index_record_size();
        if let Some(e) = check_placement(&self.value, position, index_record_size) {
            return Err(e);
        }
        let record = match parse_read(position, index_record_size, read) {
            Ok(record) => record,
            Err(e) => return Err(e),
        };
        let actual = record.vcn();
        if actual != vcn {
            return Err(
                NtfsError::VcnMismatchInIndexAllocation {
                    position: self.value.data_position,
                    expected: vcn,
                    actual,
                },
            );
        }
        Ok(record)
    }

    /// The record of `vcn`, read from `fs` and checked to report `vcn` itself.
    pub fn record_from_vcn<T: ByteSource>(
        &self,
        fs: &mut T,
        index_root: &NtfsIndexRoot,
        vcn: Vcn,
    ) -> (r: Result<NtfsIndexRecord, NtfsError>)
        ensures
            exists|read: Result<Seq<u8>, ReadError>|
                record_result_view(r) == lookup_outcome(
                    self@,
                    index_root.index_record_size,
                    vcn,
                    read,
                ),
            vcn_position(self@, vcn) is Err || placement_error(
                self@,
                vcn_position(self@, vcn)->Ok_0,
                index_root.index_record_size,
            ) is Some ==> *final(fs) == *old(fs),
    {
        let ghost no_read = Err::<Seq<u8>, ReadError>(ReadError::Failed);
        let index_record_size = index_root.index_record_size();
        let position = match self.record_position(vcn) {
            Ok(position) => position,
            Err(e) => {
                assert(record_result_view(Err(e)) == lookup_outcome(
                    self@,
                    index_record_size,
                    vcn,
                    no_read,
                ));
                return Err(e);
            },
        };
        if let Some(e) = check_placement(&self.value, position, index_record_size) {
            assert(record_result_view(Err(e)) == lookup_outcome(
                self@,
                index_record_size,
                vcn,
                no_read,
            ));
            return Err(e);
        }
        let read = fs.read_bytes(position, index_record_size);
        let r = self.record_from_vcn_read(index_root, vcn, read);
        assert(record_result_view(r) == lookup_outcome(
            self@,
            index_root.index_record_size,
            vcn,
            read_view(read),
        ));
        r
    }
}

/// A lazy stream over the index records of an index allocation, driven with a
/// byte source handed in for each pull.
#[derive(Clone, Debug)]
pub struct NtfsIndexRecords {
    value: NonResidentValue,
    stream_position: u64,
    index_record_size: u32,
}

impl View for NtfsIndexRecords {
    type V = RecordsModel;

    closed spec fn view(&self) -> RecordsModel {
        RecordsModel {
            value: self.value,
            position: self.stream_position,
            record_size: self.index_record_size,
        }
    }
}

impl NtfsIndexRecords {
    fn new(value: NonResidentValue, index_record_size: u32) -> (r: NtfsIndexRecords)
        ensures
            r@ == fresh_records(value, index_record_size),
            records_wf(r@),
    {
        let r = NtfsIndexRecords { value, stream_position: 0, index_record_size };
        assert(index_record_size > 0 ==> 0int % (index_record_size as int) == 0);
        r
    }

    /// Binds `fs` to this stream, so that records can be pulled without handing it in.
    pub fn attach<'a, T: ByteSource>(self, fs: &'a mut T) -> (r: NtfsIndexRecordsAttached<'a, T>)
        ensures
            r@ == self@,
    {
        NtfsIndexRecordsAttached::new(fs, self)
    }

    /// The logical offset of the next record.
    pub fn stream_position(&self) -> (r: u64)
        ensures
            r == self@.position,
    {
        self.stream_position
    }

    pub fn index_record_size(&self) -> (r: u32)
        ensures
            r == self@.record_size,
    {
        self.index_record_size
    }

    /// One pull, given what the byte source handed back for the current offset.
    pub fn next_from_read(&mut self, read: Result<Vec<u8>, ReadError>) -> (r: Option<
        Result<NtfsIndexRecord, NtfsError>,
    >)
        ensures
            records_wf(old(self)@) ==> records_wf(final(self)@),
            pull_result_view(r) == pull_outcome(old(self)@, read_view(read)),
            final(self)@ == pull_state(old(self)@, read_view(read)),
    {
        if self.stream_position >= self.value.len {
            return None;
        }
        if let Some(e) = check_placement(&self.value, self.stream_position, self.index_record_size) {
            return Some(Err(e));
        }
        let record = match parse_read(self.stream_position, self.index_record_size, read) {
            Ok(record) => record,
            Err(e) => return Some(Err(e)),
        };
        let ghost p = self.stream_position as int;
        let ghost s = self.index_record_size as int;
        self.stream_position = self.stream_position + self.index_record_size as u64;
        proof {
            assert(p % s == 0 ==> (p + s) % s == 0) by {
                vstd::arithmetic::div_mod::lemma_mod_adds(p, s, s);
                vstd::arithmetic::div_mod::lemma_mod_self_0(s);
            }
        }
        Some(Ok(record))
    }

    /// Pulls the next record, reading it from `fs`.
    pub fn next<T: ByteSource>(&mut self, fs: &mut T) -> (r: Option<
        Result<NtfsIndexRecord, NtfsError>,
    >)
        ensures
            records_wf(old(self)@) ==> records_wf(final(self)@),
            exists|read: Result<Seq<u8>, ReadError>|
                pull_result_view(r) == pull_outcome(old(self)@, read)
                    && final(self)@ == pull_state(old(self)@, read),
            is_exhausted(old(self)@) || placement_error(
                old(self)@.value,
                old(self)@.position,
                old(self)@.record_size,
            ) is Some ==> *final(fs) == *old(fs),
    {
        if self.stream_position >= self.value.len {
            assert(pull_result_view(None) == pull_outcome(self@, Err(ReadError::Failed)));
            return None;
        }
        if let Some(e) = check_placement(&self.value, self.stream_position, self.index_record_size) {
            let r = Some(Err(e));
            assert(pull_result_view(r) == pull_outcome(self@, Err(ReadError::Failed)));
            return r;
        }
        let read = fs.read_bytes(self.stream_position, self.index_record_size);
        let ghost before = self@;
        let r = self.next_from_read(read);
        assert(pull_result_view(r) == pull_outcome(before, read_view(read)));
        r
    }
}

/// A record stream bound to a byte source for as long as it is attached.
pub struct NtfsIndexRecordsAttached<'a, T: ByteSource> {
    fs: &'a mut T,
    index_records: NtfsIndexRecords,
}

impl<'a, T: ByteSource> View for NtfsIndexRecordsAttached<'a, T> {
    type V = RecordsModel;

    closed spec fn view(&self) -> RecordsModel {
        self.index_records@
    }
}

impl<'a, T: ByteSource> NtfsIndexRecordsAttached<'a, T> {
    fn new(fs: &'a mut T, index_records: NtfsIndexRecords) -> (r: NtfsIndexRecordsAttached<'a, T>)
        ensures
            r@ == index_records@,
    {
        NtfsIndexRecordsAttached { fs, index_records }
    }

    /// Releases the byte source and gives back the stream where it stands.
    pub fn detach(self) -> (r: NtfsIndexRecords)
        ensures
            r@ == self@,
    {
        self.index_records
    }

    /// Pulls the next record from the bound byte source.
    pub fn next(&mut self) -> (r: Option<Result<NtfsIndexRecord, NtfsError>>)
        ensures
            records_wf(old(self)@) ==> records_wf(final(self)@),
            exists|read: Result<Seq<u8>, ReadError>|
                pull_result_view(r) == pull_outcome(old(self)@, read)
                    && final(self)@ == pull_state(old(self)@, read),
    {
        let ghost before = self@;
        let r = self.index_records.next(self.fs);
        assert(exists|read: Result<Seq<u8>, ReadError>|
            pull_result_view(r) == pull_outcome(before, read) && self@ == pull_state(before, read));
        r
    }
}

} // verus!
