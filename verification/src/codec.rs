//! The stored form of a segment: a record of plain values, and its bytes.

use crate::digest::Digest;
use crate::error::ResolutionError;
use crate::exit_code::ExitCode;
use crate::faults::{PageFaults, PageFaultsView};
use crate::image::MemoryImage;
use crate::pages::{
    collect_pages, is_strictly_ascending, lemma_pages_in_order, list_pages, pages_in_order,
    strictly_ascending,
};
use crate::segment::{
    cycles_fit, spec_cycles_fit, syscalls_view, Segment, SegmentView, SyscallRecord,
    SyscallRecordView,
};
use crate::segment_ref::outcome_view;
use vstd::prelude::*;

verus! {

/// The kinds of failure that `bincode` reports. Nothing is read out of one.
#[verifier::external_type_specification]
#[verifier::external_body]
pub struct ExErrorKind(bincode::ErrorKind);

/// The fields of a record, in the order in which they are written.
pub type RecordFields = (
    (u32, [u32; 8]),
    [u32; 8],
    (Vec<u32>, Vec<u32>),
    Vec<(Vec<u32>, (u32, u32))>,
    Option<u32>,
    (u32, u32),
    u32,
    u32,
    u32,
);

/// A segment as the plain values that are stored for it.
#[derive(Debug, PartialEq, Eq)]
pub struct SegmentRecord {
    /// The program counter and the Merkle root of the image at the start.
    pub pre_image: (u32, [u32; 8]),
    /// The commitment to the image at the end.
    pub post_image_id: [u32; 8],
    /// The pages that were read and the pages that were written, each list
    /// counting up.
    pub faults: (Vec<u32>, Vec<u32>),
    /// The system calls: for each, the words for the guest and the registers.
    pub syscalls: Vec<(Vec<u32>, (u32, u32))>,
    /// The instruction at which the host cut the segment, where it did.
    pub split_insn: Option<u32>,
    /// The exit code, as the number of its kind and the status of the guest.
    pub exit_code: (u32, u32),
    /// The binary logarithm of the padded number of cycles.
    pub po2: u32,
    /// The position of the segment in its session.
    pub index: u32,
    /// The number of cycles that ran guest instructions.
    pub cycles: u32,
}

/// The mathematical content of a [`SegmentRecord`].
pub struct SegmentRecordView {
    pub pre_image: (u32, [u32; 8]),
    pub post_image_id: [u32; 8],
    pub faults: (Seq<u32>, Seq<u32>),
    pub syscalls: Seq<(Seq<u32>, (u32, u32))>,
    pub split_insn: Option<u32>,
    pub exit_code: (u32, u32),
    pub po2: u32,
    pub index: u32,
    pub cycles: u32,
}

impl View for SegmentRecord {
    type V = SegmentRecordView;

    open spec fn view(&self) -> SegmentRecordView {
        SegmentRecordView {
            pre_image: self.pre_image,
            post_image_id: self.post_image_id,
            faults: (self.faults.0@, self.faults.1@),
            syscalls: Seq::new(
                self.syscalls@.len(),
                |i: int| (self.syscalls@[i].0@, self.syscalls@[i].1),
            ),
            split_insn: self.split_insn,
            exit_code: self.exit_code,
            po2: self.po2,
            index: self.index,
            cycles: self.cycles,
        }
    }
}

/// The bytes that `bincode::serialize` writes for the fields of a record.
pub uninterp spec fn bincode_bytes(record: SegmentRecordView) -> Seq<u8>;

/// The record whose fields `bincode::deserialize` reads from `bytes`, where
/// it reads them all.
pub uninterp spec fn bincode_record(bytes: Seq<u8>) -> Option<SegmentRecordView>;

/// Calls `bincode::serialize` on the fields of `record`, in their order.
///
/// Three things are taken from `bincode` here. The call succeeds: it writes
/// into a vector, under no limit of size, and every sequence among the
/// fields is a vector, which knows its length. The encoding is fixed by the
/// fields alone: the bytes that come out are those that stand for them. And
/// `bincode` reads back what it wrote: `bincode::deserialize` finds in these
/// bytes the fields that went in.
#[verifier::external_body]
fn serialize_record(record: &SegmentRecord) -> (outcome: Result<Vec<u8>, bincode::Error>)
    ensures
        outcome is Ok,
        outcome matches Ok(bytes) ==> bytes@ == bincode_bytes(record@),
        outcome matches Ok(bytes) ==> bincode_record(bytes@) == Some(record@),
{
    bincode::serialize(
        &(
            &record.pre_image,
            &record.post_image_id,
            &record.faults,
            &record.syscalls,
            &record.split_insn,
            &record.exit_code,
            &record.po2,
            &record.index,
            &record.cycles,
        ),
    )
}

/// Calls `bincode::deserialize` to read the fields of a record from `bytes`.
///
/// Whether the call succeeds, and with which fields, is fixed by the bytes
/// alone.
#[verifier::external_body]
fn deserialize_record(bytes: &[u8]) -> (outcome: Result<SegmentRecord, bincode::Error>)
    ensures
        match outcome {
            Ok(record) => bincode_record(bytes@) == Some(record@),
            Err(_) => bincode_record(bytes@) is None,
        },
{
    bincode::deserialize::<RecordFields>(bytes).map(
        |fields| SegmentRecord {
            pre_image: fields.0,
            post_image_id: fields.1,
            faults: fields.2,
            syscalls: fields.3,
            split_insn: fields.4,
            exit_code: fields.5,
            po2: fields.6,
            index: fields.7,
            cycles: fields.8,
        },
    )
}

/// The record that is stored for a segment.
pub open spec fn record_of(segment: SegmentView) -> SegmentRecordView {
    SegmentRecordView {
        pre_image: (segment.pre_image.pc, segment.pre_image.merkle_root.words),
        post_image_id: segment.post_image_id.words,
        faults: (pages_in_order(segment.faults.reads), pages_in_order(segment.faults.writes)),
        syscalls: Seq::new(
            segment.syscalls.len(),
            |i: int| (segment.syscalls[i].to_guest, segment.syscalls[i].regs),
        ),
        split_insn: segment.split_insn,
        exit_code: segment.exit_code.to_fields(),
        po2: segment.po2,
        index: segment.index,
        cycles: segment.cycles,
    }
}

/// Whether a record is the stored form of a segment: its exit code is one,
/// both of its page lists count up, and its cycles fit into its padded
/// length.
pub open spec fn is_segment_record(record: SegmentRecordView) -> bool {
    &&& ExitCode::from_fields(record.exit_code) is Some
    &&& strictly_ascending(record.faults.0)
    &&& strictly_ascending(record.faults.1)
    &&& spec_cycles_fit(record.po2, record.cycles)
}

/// The segment that a record is the stored form of, where it is one.
pub open spec fn segment_of(record: SegmentRecordView) -> Option<SegmentView> {
    if is_segment_record(record) {
        Some(
            SegmentView {
                pre_image: MemoryImage {
                    pc: record.pre_image.0,
                    merkle_root: Digest { words: record.pre_image.1 },
                },
                post_image_id: Digest { words: record.post_image_id },
                faults: PageFaultsView {
                    reads: record.faults.0.to_set(),
                    writes: record.faults.1.to_set(),
                },
                syscalls: Seq::new(
                    record.syscalls.len(),
                    |i: int|
                        SyscallRecordView {
                            to_guest: record.syscalls[i].0,
                            regs: record.syscalls[i].1,
                        },
                ),
                split_insn: record.split_insn,
                exit_code: ExitCode::from_fields(record.exit_code)->0,
                po2: record.po2,
                index: record.index,
                cycles: record.cycles,
            },
        )
    } else {
        None
    }
}

/// What decoding comes back with for a record that was read, or for none.
pub open spec fn segment_of_read(record: Option<SegmentRecordView>) -> Result<
    SegmentView,
    ResolutionError,
> {
    match record {
        Some(record) => match segment_of(record) {
            Some(segment) => Ok(segment),
            None => Err(ResolutionError::Codec),
        },
        None => Err(ResolutionError::Codec),
    }
}

/// The record of a segment stands for that segment again.
pub proof fn lemma_record_round_trip(segment: SegmentView)
    requires
        segment.wf(),
    ensures
        segment_of(record_of(segment)) == Some(segment),
{
    let record = record_of(segment);
    let back = segment_of(record);
    lemma_pages_in_order(segment.faults.reads);
    lemma_pages_in_order(segment.faults.writes);
    assert(back->0.syscalls =~= segment.syscalls);
}

/// Lays out a segment as the record that is stored for it.
pub fn to_record(segment: &Segment) -> (record: SegmentRecord)
    ensures
        record@ == record_of(segment@),
        segment_of(record@) == Some(segment@),
{
    let log = segment.syscalls();
    let mut syscalls: Vec<(Vec<u32>, (u32, u32))> = Vec::new();
    let mut i: usize = 0;
    while i < log.len()
        invariant
            i <= log.len(),
            syscalls@.len() == i,
            forall|j: int|
                0 <= j < i ==> (#[trigger] syscalls@[j]).0@ == log@[j]@.to_guest && syscalls@[j].1
                    == log@[j]@.regs,
        decreases log.len() - i,
    {
        syscalls.push((log[i].to_guest.clone(), log[i].regs));
        i += 1;
    }
    let faults = segment.faults();
    let image = segment.pre_image();
    let record = SegmentRecord {
        pre_image: (image.pc, image.merkle_root.words),
        post_image_id: segment.post_image_id().words,
        faults: (list_pages(&faults.reads), list_pages(&faults.writes)),
        syscalls,
        split_insn: segment.split_insn(),
        exit_code: segment.exit_code().to_fields(),
        po2: segment.po2(),
        index: segment.index(),
        cycles: segment.cycles(),
    };
    assert(record@.syscalls =~= record_of(segment@).syscalls);
    proof {
        lemma_record_round_trip(segment@);
    }
    record
}

/// Rebuilds the segment that `record` is the stored form of. A record that
/// is the stored form of none is refused.
pub fn from_record(record: &SegmentRecord) -> (outcome: Result<Segment, ResolutionError>)
    ensures
        outcome_view(outcome) == segment_of_read(Some(record@)),
{
    let exit_code = match ExitCode::from_fields(record.exit_code) {
        Some(code) => code,
        None => {
            return Err(ResolutionError::Codec);
        },
    };
    if !is_strictly_ascending(&record.faults.0) || !is_strictly_ascending(&record.faults.1)
        || !cycles_fit(record.po2, record.cycles) {
        return Err(ResolutionError::Codec);
    }
    let mut syscalls: Vec<SyscallRecord> = Vec::new();
    let mut i: usize = 0;
    while i < record.syscalls.len()
        invariant
            i <= record.syscalls.len(),
            syscalls@.len() == i,
            forall|j: int|
                0 <= j < i ==> (#[trigger] syscalls@[j])@ == (SyscallRecordView {
                    to_guest: record.syscalls@[j].0@,
                    regs: record.syscalls@[j].1,
                }),
        decreases record.syscalls.len() - i,
    {
        let call = &record.syscalls[i];
        syscalls.push(SyscallRecord { to_guest: call.0.clone(), regs: call.1 });
        i += 1;
    }
    let faults = PageFaults {
        reads: collect_pages(&record.faults.0),
        writes: collect_pages(&record.faults.1),
    };
    let image = MemoryImage::new(record.pre_image.0, Digest::new(record.pre_image.1));
    assert(syscalls_view(syscalls@) =~= segment_of(record@)->0.syscalls);
    Ok(
        Segment::new(
            Box::new(image),
            Digest::new(record.post_image_id),
            faults,
            syscalls,
            exit_code,
            record.split_insn,
            record.po2,
            record.index,
            record.cycles,
        ),
    )
}

/// Encodes a segment as the bytes that are stored for it. Every segment has
/// its bytes, and decoding them gives the segment again.
pub fn encode_segment(segment: &Segment) -> (outcome: Result<Vec<u8>, ResolutionError>)
    ensures
        outcome is Ok,
        outcome matches Ok(bytes) ==> bytes@ == bincode_bytes(record_of(segment@)),
        outcome matches Ok(bytes) ==> segment_of_read(bincode_record(bytes@)) == Ok::<
            SegmentView,
            ResolutionError,
        >(segment@),
{
    let record = to_record(segment);
    match serialize_record(&record) {
        Ok(bytes) => Ok(bytes),
        Err(_) => Err(ResolutionError::Codec),
    }
}

/// Decodes the segment that `bytes` are stored for. Bytes that no record can
/// be read from, or whose record is the stored form of no segment, are
/// refused.
pub fn decode_segment(bytes: &[u8]) -> (outcome: Result<Segment, ResolutionError>)
    ensures
        outcome_view(outcome) == segment_of_read(bincode_record(bytes@)),
{
    match deserialize_record(bytes) {
        Ok(record) => from_record(&record),
        Err(_) => Err(ResolutionError::Codec),
    }
}

} // verus!
