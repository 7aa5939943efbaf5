use vstd::prelude::*;

use crate::error::{NtfsError, ReadError};
use crate::index_allocation::{
    advanced, fresh_records, is_exhausted, lookup_outcome, placement_error, pull_outcome,
    pull_state, vcn_position, RecordsModel,
};
use crate::index_record::{header_vcn, IndexRecordModel, INDEX_RECORD_HEADER_SIZE};
use crate::types::{vcn_byte_offset, vcn_offset_fits, Vcn};
use crate::value::NonResidentValue;

verus! {

/// The stream `m` after `k` records have come out of it.
pub open spec fn after_pulls(m: RecordsModel, k: nat) -> RecordsModel
    decreases k,
{
    if k == 0 {
        m
    } else {
        advanced(after_pulls(m, (k - 1) as nat))
    }
}

proof fn lemma_after_pulls_position(value: NonResidentValue, record_size: u32, k: nat)
    requires
        record_size >= INDEX_RECORD_HEADER_SIZE,
        k <= (value.len as int) / (record_size as int),
    ensures
        k * record_size <= value.len,
        after_pulls(fresh_records(value, record_size), k) == (RecordsModel {
            value,
            position: (k * record_size) as u64,
            record_size,
        }),
    decreases k,
{
    let s = record_size as int;
    let n = (value.len as int) / s;
    vstd::arithmetic::div_mod::lemma_fundamental_div_mod(value.len as int, s);
    vstd::arithmetic::div_mod::lemma_mod_pos_bound(value.len as int, s);
    assert(k * s <= value.len) by (nonlinear_arith)
        requires
            k <= n,
            s > 0,
            value.len == s * n + (value.len as int) % s,
            (value.len as int) % s >= 0,
    ;
    if k > 0 {
        lemma_after_pulls_position(value, record_size, (k - 1) as nat);
        assert((k - 1) * s + s == k * s) by (nonlinear_arith);
        assert(after_pulls(fresh_records(value, record_size), k) == advanced(
            after_pulls(fresh_records(value, record_size), (k - 1) as nat),
        ));
    } else {
        assert(k * s == 0) by (nonlinear_arith)
            requires
                k == 0,
        ;
    }
}

/// Pulling a fresh stream whose records are all read in full yields the records at
/// offsets 0, `record_size`, 2 * `record_size`, ... in that order, exactly
/// `len / record_size` of them; after them the stream is exhausted exactly when the
/// attribute holds whole records only.
pub proof fn lemma_stream_visits_every_record(value: NonResidentValue, record_size: u32)
    requires
        record_size >= INDEX_RECORD_HEADER_SIZE,
    ensures
        forall|k: nat| #![trigger after_pulls(fresh_records(value, record_size), k)]
            k <= (value.len as int) / (record_size as int) ==> after_pulls(
                fresh_records(value, record_size),
                k,
            ).position == k * record_size,
        forall|k: nat, data: Seq<u8>|
            #![trigger pull_outcome(after_pulls(fresh_records(value, record_size), k), Ok(data))]
            k < (value.len as int) / (record_size as int) && data.len() == record_size ==> {
                &&& pull_outcome(after_pulls(fresh_records(value, record_size), k), Ok(data))
                    == Some(
                    Ok::<IndexRecordModel, NtfsError>(
                        IndexRecordModel {
                            position: (k * record_size) as u64,
                            vcn: header_vcn(data),
                            data,
                        },
                    ),
                )
                &&& pull_state(after_pulls(fresh_records(value, record_size), k), Ok(data))
                    == after_pulls(fresh_records(value, record_size), k + 1)
            },
        is_exhausted(
            after_pulls(fresh_records(value, record_size), ((value.len as int) / (record_size as int)) as nat),
        ) <==> (value.len as int) % (record_size as int) == 0,
{
    let s = record_size as int;
    let n = (value.len as int) / s;
    let m0 = fresh_records(value, record_size);
    vstd::arithmetic::div_mod::lemma_fundamental_div_mod(value.len as int, s);
    assert forall|k: nat| #![trigger after_pulls(m0, k)]
        k <= n implies after_pulls(m0, k).position == k * s by {
        lemma_after_pulls_position(value, record_size, k);
    }
    assert forall|k: nat, data: Seq<u8>|
        #![trigger pull_outcome(after_pulls(m0, k), Ok(data))]
        k < n && data.len() == record_size implies {
        &&& pull_outcome(after_pulls(m0, k), Ok(data)) == Some(
            Ok::<IndexRecordModel, NtfsError>(
                IndexRecordModel { position: (k * s) as u64, vcn: header_vcn(data), data },
            ),
        )
        &&& pull_state(after_pulls(m0, k), Ok(data)) == after_pulls(m0, k + 1)
    } by {
        lemma_after_pulls_position(value, record_size, k);
        lemma_after_pulls_position(value, record_size, k + 1);
        assert(k * s + s == (k + 1) * s) by (nonlinear_arith);
    }
    lemma_after_pulls_position(value, record_size, n as nat);
}

/// Once a stream is exhausted, every further pull yields nothing and leaves it as it is,
/// whatever the byte source would hand back.
pub proof fn lemma_exhaustion_is_final(m: RecordsModel, read: Result<Seq<u8>, ReadError>)
    requires
        is_exhausted(m),
    ensures
        pull_outcome(m, read) is None,
        pull_state(m, read) == m,
        is_exhausted(pull_state(m, read)),
{
}

/// The VCN that a record of the stream reports, where it names that very record's
/// offset, is found again by a lookup, which yields the same record.
pub proof fn lemma_lookup_finds_streamed_record(
    value: NonResidentValue,
    record_size: u32,
    k: nat,
    data: Seq<u8>,
)
    requires
        record_size >= INDEX_RECORD_HEADER_SIZE,
        k < (value.len as int) / (record_size as int),
        data.len() == record_size,
        vcn_byte_offset(header_vcn(data), value.cluster_size) == k * record_size,
        k * record_size <= i64::MAX,
    ensures
        lookup_outcome(value, record_size, header_vcn(data), Ok(data)) matches Ok(record)
            && record.vcn == header_vcn(data),
        pull_outcome(after_pulls(fresh_records(value, record_size), k), Ok(data)) == Some(
            lookup_outcome(value, record_size, header_vcn(data), Ok(data)),
        ),
{
    let s = record_size as int;
    lemma_stream_visits_every_record(value, record_size);
    lemma_after_pulls_position(value, record_size, k + 1);
    assert(k * s + s == (k + 1) * s) by (nonlinear_arith);
    assert(k * s >= 0) by (nonlinear_arith)
        requires
            s > 0,
    ;
    assert(vcn_offset_fits(header_vcn(data), value.cluster_size));
    assert(pull_outcome(after_pulls(fresh_records(value, record_size), k), Ok(data)) == Some(
        Ok::<IndexRecordModel, NtfsError>(
            IndexRecordModel { position: (k * s) as u64, vcn: header_vcn(data), data },
        ),
    ));
}

/// A VCN whose offset lies at or past the end of the attribute is reported out of
/// bounds, never as a mismatch, whatever the byte source would hand back.
pub proof fn lemma_lookup_past_end(
    value: NonResidentValue,
    record_size: u32,
    vcn: Vcn,
    read: Result<Seq<u8>, ReadError>,
)
    requires
        vcn_offset_fits(vcn, value.cluster_size),
        vcn_byte_offset(vcn, value.cluster_size) >= value.len,
    ensures
        lookup_outcome(value, record_size, vcn, read) == Err::<IndexRecordModel, NtfsError>(
            NtfsError::VcnOutOfBoundsInIndexAllocation { position: value.data_position, vcn },
        ),
        !(lookup_outcome(value, record_size, vcn, read) matches Err(
            NtfsError::VcnMismatchInIndexAllocation { .. },
        )),
{
}

/// A whole record inside the attribute that reports another VCN than the one looked
/// up is a mismatch, which carries both VCNs.
pub proof fn lemma_lookup_mismatch(
    value: NonResidentValue,
    record_size: u32,
    vcn: Vcn,
    data: Seq<u8>,
)
    requires
        vcn_offset_fits(vcn, value.cluster_size),
        0 <= vcn_byte_offset(vcn, value.cluster_size),
        vcn_byte_offset(vcn, value.cluster_size) + record_size <= value.len,
        record_size >= INDEX_RECORD_HEADER_SIZE,
        data.len() == record_size,
        header_vcn(data) != vcn,
    ensures
        lookup_outcome(value, record_size, vcn, Ok(data)) == Err::<IndexRecordModel, NtfsError>(
            NtfsError::VcnMismatchInIndexAllocation {
                position: value.data_position,
                expected: vcn,
                actual: header_vcn(data),
            },
        ),
{
    assert(vcn_position(value, vcn) == Ok::<u64, NtfsError>(
        vcn_byte_offset(vcn, value.cluster_size) as u64,
    ));
    assert(placement_error(value, vcn_byte_offset(vcn, value.cluster_size) as u64, record_size)
        is None);
}

} // verus!
