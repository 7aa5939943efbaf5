use ntfs::error::{NtfsError, ReadError};
use ntfs::index_allocation::{NtfsIndexAllocation, NtfsIndexRecords};
use ntfs::index_record::NtfsIndexRecord;
use ntfs::index_root::NtfsIndexRoot;
use ntfs::types::Vcn;
use ntfs::value::{ByteSource, MemorySource, NonResidentValue};

const RECORD_SIZE: u32 = 4096;

fn record_bytes(size: usize, vcn: i64) -> Vec<u8> {
    let mut data = vec![0u8; size];
    data[0..4].copy_from_slice(b"INDX");
    data[16..24].copy_from_slice(&vcn.to_le_bytes());
    data
}

fn attribute(vcns: &[i64]) -> Vec<u8> {
    let mut data = Vec::new();
    for vcn in vcns {
        data.extend(record_bytes(RECORD_SIZE as usize, *vcn));
    }
    data
}

fn allocation(len: usize) -> NtfsIndexAllocation {
    NtfsIndexAllocation::from_non_resident_attribute_value(NonResidentValue::new(
        0x10000,
        len as u64,
        RECORD_SIZE,
    ))
}

fn pull_vcn(records: &mut NtfsIndexRecords, fs: &mut MemorySource) -> Option<i64> {
    records
        .next(fs)
        .map(|r| r.expect("a record").vcn().value())
}

#[test]
fn three_records_scenario() {
    let data = attribute(&[0, 1, 2]);
    let alloc = allocation(data.len());
    let root = NtfsIndexRoot::new(RECORD_SIZE);
    let mut fs = MemorySource::new(data);

    let mut records = alloc.iter(&root);
    assert_eq!(pull_vcn(&mut records, &mut fs), Some(0));
    assert_eq!(pull_vcn(&mut records, &mut fs), Some(1));
    assert_eq!(pull_vcn(&mut records, &mut fs), Some(2));
    assert!(records.next(&mut fs).is_none());

    let second = alloc.record_from_vcn(&mut fs, &root, Vcn::new(1)).unwrap();
    assert_eq!(second.vcn(), Vcn::new(1));
    assert_eq!(second.position(), RECORD_SIZE as u64);

    assert_eq!(
        alloc.record_from_vcn(&mut fs, &root, Vcn::new(5)).unwrap_err(),
        NtfsError::VcnOutOfBoundsInIndexAllocation { position: 0x10000, vcn: Vcn::new(5) }
    );
}

#[test]
fn crafted_record_is_a_mismatch() {
    let data = attribute(&[0, 99, 2]);
    let alloc = allocation(data.len());
    let root = NtfsIndexRoot::new(RECORD_SIZE);
    let mut fs = MemorySource::new(data);
    assert_eq!(
        alloc.record_from_vcn(&mut fs, &root, Vcn::new(1)).unwrap_err(),
        NtfsError::VcnMismatchInIndexAllocation {
            position: 0x10000,
            expected: Vcn::new(1),
            actual: Vcn::new(99),
        }
    );
}

#[test]
fn every_streamed_vcn_is_found_by_lookup() {
    let data = attribute(&[0, 1, 2, 3, 4]);
    let alloc = allocation(data.len());
    let root = NtfsIndexRoot::new(RECORD_SIZE);
    let mut fs = MemorySource::new(data);
    let mut records = alloc.iter(&root);
    let mut seen = Vec::new();
    while let Some(record) = records.next(&mut fs) {
        let record = record.unwrap();
        let found = alloc.record_from_vcn(&mut fs, &root, record.vcn()).unwrap();
        assert_eq!(found.vcn(), record.vcn());
        assert_eq!(found.position(), record.position());
        assert_eq!(found.data(), record.data());
        seen.push(record.vcn().value());
    }
    assert_eq!(seen, vec![0, 1, 2, 3, 4]);
}

#[test]
fn stream_visits_whole_records_at_increasing_offsets() {
    let data = attribute(&[7, 8, 9, 10]);
    let alloc = allocation(data.len());
    let root = NtfsIndexRoot::new(RECORD_SIZE);
    let mut fs = MemorySource::new(data);
    let mut records = alloc.iter(&root);
    let mut offsets = Vec::new();
    while let Some(record) = records.next(&mut fs) {
        let record = record.unwrap();
        assert_eq!(record.position(), records.stream_position() - RECORD_SIZE as u64);
        offsets.push(record.position());
    }
    assert_eq!(offsets, vec![0, 4096, 8192, 12288]);
    assert_eq!(records.stream_position(), 4 * RECORD_SIZE as u64);
}

#[test]
fn partial_last_record_is_an_error_that_does_not_advance() {
    let mut data = attribute(&[0, 1]);
    data.extend(vec![0u8; 100]);
    let alloc = allocation(data.len());
    let root = NtfsIndexRoot::new(RECORD_SIZE);
    let mut fs = MemorySource::new(data);
    let mut records = alloc.iter(&root);
    assert_eq!(pull_vcn(&mut records, &mut fs), Some(0));
    assert_eq!(pull_vcn(&mut records, &mut fs), Some(1));
    let expected = NtfsError::UnexpectedEnd { position: 8192, size: RECORD_SIZE, available: 100 };
    assert_eq!(records.next(&mut fs).unwrap().unwrap_err(), expected);
    assert_eq!(records.stream_position(), 8192);
    assert_eq!(records.next(&mut fs).unwrap().unwrap_err(), expected);
}

#[test]
fn exhaustion_is_final_across_attach_and_detach() {
    let data = attribute(&[0]);
    let alloc = allocation(data.len());
    let root = NtfsIndexRoot::new(RECORD_SIZE);
    let mut fs = MemorySource::new(data);
    let mut attached = alloc.iter(&root).attach(&mut fs);
    assert_eq!(attached.next().unwrap().unwrap().vcn(), Vcn::new(0));
    assert!(attached.next().is_none());
    assert!(attached.next().is_none());
    let mut records = attached.detach();
    assert!(records.next(&mut fs).is_none());
    let mut attached = records.attach(&mut fs);
    assert!(attached.next().is_none());
    let records = attached.detach();
    assert_eq!(records.stream_position(), RECORD_SIZE as u64);
}

#[test]
fn attach_then_detach_keeps_the_position() {
    let data = attribute(&[0, 1, 2]);
    let alloc = allocation(data.len());
    let root = NtfsIndexRoot::new(RECORD_SIZE);
    let mut fs = MemorySource::new(data);
    let mut records = alloc.iter(&root);
    assert_eq!(pull_vcn(&mut records, &mut fs), Some(0));
    let records = records.attach(&mut fs).detach();
    assert_eq!(records.stream_position(), RECORD_SIZE as u64);
    assert_eq!(records.index_record_size(), RECORD_SIZE);
    let mut attached = records.attach(&mut fs);
    assert_eq!(attached.next().unwrap().unwrap().vcn(), Vcn::new(1));
    let mut records = attached.detach();
    assert_eq!(pull_vcn(&mut records, &mut fs), Some(2));
}

#[test]
fn lookup_past_end_is_out_of_bounds_even_with_data_there() {
    let data = attribute(&[0, 1, 2, 3]);
    let alloc = allocation(2 * RECORD_SIZE as usize);
    let root = NtfsIndexRoot::new(RECORD_SIZE);
    let mut fs = MemorySource::new(data);
    for vcn in [2i64, 3, 1000] {
        assert_eq!(
            alloc.record_from_vcn(&mut fs, &root, Vcn::new(vcn)).unwrap_err(),
            NtfsError::VcnOutOfBoundsInIndexAllocation { position: 0x10000, vcn: Vcn::new(vcn) }
        );
    }
    assert_eq!(
        alloc.record_from_vcn(&mut fs, &root, Vcn::new(-1)).unwrap_err(),
        NtfsError::VcnOutOfBoundsInIndexAllocation { position: 0x10000, vcn: Vcn::new(-1) }
    );
}

#[test]
fn lookup_of_huge_vcn_is_too_big() {
    let alloc = allocation(4096);
    let root = NtfsIndexRoot::new(RECORD_SIZE);
    let mut fs = MemorySource::new(attribute(&[0]));
    let vcn = Vcn::new(i64::MAX / 2);
    assert_eq!(
        alloc.record_from_vcn(&mut fs, &root, vcn).unwrap_err(),
        NtfsError::VcnTooBig { vcn }
    );
    assert_eq!(alloc.record_position(vcn), Err(NtfsError::VcnTooBig { vcn }));
}

#[test]
fn vcn_offset_is_vcn_times_cluster_size() {
    assert_eq!(Vcn::new(3).offset(4096), Ok(12288));
    assert_eq!(Vcn::new(-2).offset(512), Ok(-1024));
    assert_eq!(Vcn::new(i64::MAX).offset(1), Ok(i64::MAX));
    assert_eq!(
        Vcn::new(i64::MAX).offset(2),
        Err(NtfsError::VcnTooBig { vcn: Vcn::new(i64::MAX) })
    );
}

#[test]
fn record_position_resolves_inside_the_attribute() {
    let alloc = allocation(3 * RECORD_SIZE as usize);
    assert_eq!(alloc.record_position(Vcn::new(0)), Ok(0));
    assert_eq!(alloc.record_position(Vcn::new(2)), Ok(8192));
    assert_eq!(
        alloc.record_position(Vcn::new(3)),
        Err(NtfsError::VcnOutOfBoundsInIndexAllocation { position: 0x10000, vcn: Vcn::new(3) })
    );
}

#[test]
fn lookup_from_read_checks_the_reported_vcn() {
    let alloc = allocation(3 * RECORD_SIZE as usize);
    let root = NtfsIndexRoot::new(RECORD_SIZE);
    let ok = alloc
        .record_from_vcn_read(&root, Vcn::new(2), Ok(record_bytes(4096, 2)))
        .unwrap();
    assert_eq!(ok.vcn(), Vcn::new(2));
    assert_eq!(ok.position(), 8192);
    assert_eq!(
        alloc
            .record_from_vcn_read(&root, Vcn::new(2), Ok(record_bytes(4096, 7)))
            .unwrap_err(),
        NtfsError::VcnMismatchInIndexAllocation {
            position: 0x10000,
            expected: Vcn::new(2),
            actual: Vcn::new(7),
        }
    );
    assert_eq!(
        alloc
            .record_from_vcn_read(&root, Vcn::new(2), Err(ReadError::Failed))
            .unwrap_err(),
        NtfsError::Io { position: 8192, error: ReadError::Failed }
    );
    assert_eq!(
        alloc
            .record_from_vcn_read(&root, Vcn::new(1), Ok(record_bytes(100, 1)))
            .unwrap_err(),
        NtfsError::UnexpectedEnd { position: 4096, size: RECORD_SIZE, available: 100 }
    );
}

#[test]
fn too_small_record_size_is_reported() {
    let data = attribute(&[0]);
    let alloc = allocation(data.len());
    let root = NtfsIndexRoot::new(16);
    let mut fs = MemorySource::new(data);
    let mut records = alloc.iter(&root);
    let expected = NtfsError::IndexRecordTooSmall { position: 0, size: 16 };
    assert_eq!(records.next(&mut fs).unwrap().unwrap_err(), expected);
    assert_eq!(records.stream_position(), 0);
    assert_eq!(
        alloc.record_from_vcn(&mut fs, &root, Vcn::new(0)).unwrap_err(),
        expected
    );
    let zero = NtfsIndexRoot::new(0);
    let mut records = alloc.iter(&zero);
    assert_eq!(
        records.next(&mut fs).unwrap().unwrap_err(),
        NtfsError::IndexRecordTooSmall { position: 0, size: 0 }
    );
}

#[test]
fn empty_attribute_yields_nothing() {
    let alloc = allocation(0);
    let root = NtfsIndexRoot::new(RECORD_SIZE);
    let mut fs = MemorySource::new(Vec::new());
    let mut records = alloc.iter(&root);
    assert!(records.next(&mut fs).is_none());
    assert_eq!(
        alloc.record_from_vcn(&mut fs, &root, Vcn::new(0)).unwrap_err(),
        NtfsError::VcnOutOfBoundsInIndexAllocation { position: 0x10000, vcn: Vcn::new(0) }
    );
}

#[test]
fn read_failure_is_passed_on_without_advancing() {
    let alloc = allocation(2 * RECORD_SIZE as usize);
    let root = NtfsIndexRoot::new(RECORD_SIZE);
    let mut records = alloc.iter(&root);
    let r = records.next_from_read(Err(ReadError::UnexpectedEof));
    assert_eq!(
        r.unwrap().unwrap_err(),
        NtfsError::Io { position: 0, error: ReadError::UnexpectedEof }
    );
    assert_eq!(records.stream_position(), 0);
    let r = records.next_from_read(Ok(record_bytes(4096, 0x0102_0304_0506_0708)));
    assert_eq!(r.unwrap().unwrap().vcn(), Vcn::new(0x0102_0304_0506_0708));
    assert_eq!(records.stream_position(), 4096);
}

#[test]
fn memory_source_reads_ranges() {
    let mut fs = MemorySource::new(vec![1, 2, 3, 4, 5]);
    assert_eq!(fs.read_bytes(1, 3), Ok(vec![2, 3, 4]));
    assert_eq!(fs.read_range(5, 0), Ok(vec![]));
    assert_eq!(fs.read_bytes(3, 4), Err(ReadError::UnexpectedEof));
    assert_eq!(fs.read_range(9, 1), Err(ReadError::UnexpectedEof));
}

#[test]
fn record_header_vcn_is_little_endian_and_signed() {
    let rec = NtfsIndexRecord::new(0, record_bytes(32, -5), 32).unwrap();
    assert_eq!(rec.vcn(), Vcn::new(-5));
    let mut data = vec![0u8; 24];
    data[16] = 0x34;
    data[17] = 0x12;
    let rec = NtfsIndexRecord::new(48, data, 24).unwrap();
    assert_eq!(rec.vcn().value(), 0x1234);
    assert_eq!(rec.position(), 48);
    assert_eq!(
        NtfsIndexRecord::new(0, vec![0u8; 24], 32).unwrap_err(),
        NtfsError::UnexpectedEnd { position: 0, size: 32, available: 24 }
    );
    assert_eq!(
        NtfsIndexRecord::new(0, vec![0u8; 8], 8).unwrap_err(),
        NtfsError::IndexRecordTooSmall { position: 0, size: 8 }
    );
}

#[test]
fn value_and_root_accessors() {
    let value = NonResidentValue::new(512, 8192, 4096);
    assert_eq!(value.position(), 512);
    assert_eq!(value.len(), 8192);
    assert_eq!(NtfsIndexRoot::new(4096).index_record_size(), 4096);
}

struct FailingSource {
    reads: u32,
}

impl ByteSource for FailingSource {
    fn read_bytes(&mut self, _position: u64, _count: u32) -> Result<Vec<u8>, ReadError> {
        self.reads += 1;
        Err(ReadError::Failed)
    }
}

#[test]
fn failed_reads_are_io_errors_and_early_errors_make_no_read() {
    let alloc = allocation(3 * RECORD_SIZE as usize);
    let root = NtfsIndexRoot::new(RECORD_SIZE);
    let mut fs = FailingSource { reads: 0 };
    assert_eq!(
        alloc.record_from_vcn(&mut fs, &root, Vcn::new(1)).unwrap_err(),
        NtfsError::Io { position: 4096, error: ReadError::Failed }
    );
    assert_eq!(fs.reads, 1);
    assert!(alloc.record_from_vcn(&mut fs, &root, Vcn::new(3)).is_err());
    assert_eq!(fs.reads, 1);
    let mut records = alloc.iter(&root);
    assert_eq!(
        records.next(&mut fs).unwrap().unwrap_err(),
        NtfsError::Io { position: 0, error: ReadError::Failed }
    );
    assert_eq!(records.stream_position(), 0);
    assert_eq!(fs.reads, 2);
}
