//! Segments: the chunks of execution that are proven one at a time.

use crate::digest::Digest;
use crate::exit_code::ExitCode;
use crate::faults::{PageFaults, PageFaultsView};
use crate::image::MemoryImage;
use vstd::arithmetic::power2::{lemma2_to64, pow2};
use vstd::bits::{lemma_u32_pow2_no_overflow, lemma_u32_shl_is_mul};
use vstd::prelude::*;

verus! {

/// One system call of the guest, as the executor logged it.
#[derive(Debug, PartialEq, Eq)]
pub struct SyscallRecord {
    /// The words that the host handed to the guest.
    pub to_guest: Vec<u32>,
    /// The two registers that the host set.
    pub regs: (u32, u32),
}

/// The mathematical content of a [`SyscallRecord`].
pub struct SyscallRecordView {
    pub to_guest: Seq<u32>,
    pub regs: (u32, u32),
}

impl View for SyscallRecord {
    type V = SyscallRecordView;

    open spec fn view(&self) -> SyscallRecordView {
        SyscallRecordView { to_guest: self.to_guest@, regs: self.regs }
    }
}

impl Clone for SyscallRecord {
    fn clone(&self) -> (record: SyscallRecord)
        ensures
            record@ == self@,
    {
        SyscallRecord { to_guest: self.to_guest.clone(), regs: self.regs }
    }
}

/// The contents of a log of system calls.
pub open spec fn syscalls_view(log: Seq<SyscallRecord>) -> Seq<SyscallRecordView> {
    Seq::new(log.len(), |i: int| log[i]@)
}

/// Copies a log of system calls.
pub fn clone_syscalls(log: &Vec<SyscallRecord>) -> (copy: Vec<SyscallRecord>)
    ensures
        syscalls_view(copy@) == syscalls_view(log@),
{
    let mut copy: Vec<SyscallRecord> = Vec::new();
    let mut i: usize = 0;
    while i < log.len()
        invariant
            i <= log.len(),
            copy@.len() == i,
            forall|j: int| 0 <= j < i ==> copy@[j]@ == log@[j]@,
        decreases log.len() - i,
    {
        copy.push(log[i].clone());
        i += 1;
    }
    assert(syscalls_view(copy@) =~= syscalls_view(log@));
    copy
}

/// Whether `cycles` instructions fit into a segment that is padded to
/// `2^po2` cycles.
pub open spec fn spec_cycles_fit(po2: u32, cycles: u32) -> bool {
    cycles <= pow2(po2 as nat)
}

/// Whether `cycles` instructions fit into a segment that is padded to
/// `2^po2` cycles.
#[verifier::when_used_as_spec(spec_cycles_fit)]
pub fn cycles_fit(po2: u32, cycles: u32) -> (fit: bool)
    ensures
        fit == spec_cycles_fit(po2, cycles),
{
    if po2 >= 32 {
        proof {
            lemma2_to64();
            if po2 > 32 {
                vstd::arithmetic::power2::lemma_pow2_strictly_increases(32, po2 as nat);
            }
        }
        true
    } else {
        proof {
            lemma_u32_pow2_no_overflow(po2 as nat);
            lemma_u32_shl_is_mul(1u32, po2);
        }
        cycles <= (1u32 << po2)
    }
}

/// A chunk of execution that one call of the proof system covers: the image
/// it starts from, what it touched, how it ended and how long it ran.
///
/// A segment does not change after it was made, and never holds more cycles
/// than its padded length has room for.
#[derive(Debug, PartialEq, Eq)]
pub struct Segment {
    pre_image: Box<MemoryImage>,
    post_image_id: Digest,
    faults: PageFaults,
    syscalls: Vec<SyscallRecord>,
    split_insn: Option<u32>,
    exit_code: ExitCode,
    po2: u32,
    index: u32,
    cycles: u32,
}

/// The mathematical content of a [`Segment`].
pub struct SegmentView {
    /// The memory image, with the program counter, from which the segment starts.
    pub pre_image: MemoryImage,
    /// The commitment to the memory image in which the segment ends.
    pub post_image_id: Digest,
    /// The pages that the segment touched.
    pub faults: PageFaultsView,
    /// The system calls of the segment, in the order in which they were made.
    pub syscalls: Seq<SyscallRecordView>,
    /// The instruction at which the host cut the segment, where it did.
    pub split_insn: Option<u32>,
    /// How the segment ended.
    pub exit_code: ExitCode,
    /// The binary logarithm of the padded number of cycles.
    pub po2: u32,
    /// The position of the segment in its session, counted from zero.
    pub index: u32,
    /// The number of cycles that ran guest instructions.
    pub cycles: u32,
}

impl SegmentView {
    /// The cycles of the segment fit into its padded length.
    pub open spec fn wf(self) -> bool {
        spec_cycles_fit(self.po2, self.cycles)
    }

    /// The number of cycles that the proof system pays for the segment.
    pub open spec fn padded_cycles(self) -> nat {
        pow2(self.po2 as nat)
    }
}

impl View for Segment {
    type V = SegmentView;

    closed spec fn view(&self) -> SegmentView {
        SegmentView {
            pre_image: *self.pre_image,
            post_image_id: self.post_image_id,
            faults: self.faults@,
            syscalls: syscalls_view(self.syscalls@),
            split_insn: self.split_insn,
            exit_code: self.exit_code,
            po2: self.po2,
            index: self.index,
            cycles: self.cycles,
        }
    }
}

impl Segment {
    #[verifier::type_invariant]
    spec fn fits(&self) -> bool {
        spec_cycles_fit(self.po2, self.cycles)
    }

    /// Makes a segment of its parts.
    pub fn new(
        pre_image: Box<MemoryImage>,
        post_image_id: Digest,
        faults: PageFaults,
        syscalls: Vec<SyscallRecord>,
        exit_code: ExitCode,
        split_insn: Option<u32>,
        po2: u32,
        index: u32,
        cycles: u32,
    ) -> (segment: Segment)
        requires
            spec_cycles_fit(po2, cycles),
        ensures
            segment@ == (SegmentView {
                pre_image: *pre_image,
                post_image_id,
                faults: faults@,
                syscalls: syscalls_view(syscalls@),
                split_insn,
                exit_code,
                po2,
                index,
                cycles,
            }),
            segment@.wf(),
    {
        Segment {
            pre_image,
            post_image_id,
            faults,
            syscalls,
            split_insn,
            exit_code,
            po2,
            index,
            cycles,
        }
    }

    /// The memory image from which the segment starts.
    pub fn pre_image(&self) -> (image: &MemoryImage)
        ensures
            *image == self@.pre_image,
    {
        &self.pre_image
    }

    /// The commitment to the memory image in which the segment ends.
    pub fn post_image_id(&self) -> (id: Digest)
        ensures
            id == self@.post_image_id,
    {
        self.post_image_id
    }

    /// The pages that the segment touched.
    pub fn faults(&self) -> (faults: &PageFaults)
        ensures
            faults@ == self@.faults,
    {
        &self.faults
    }

    /// The system calls of the segment, in the order in which they were made.
    pub fn syscalls(&self) -> (log: &Vec<SyscallRecord>)
        ensures
            syscalls_view(log@) == self@.syscalls,
    {
        &self.syscalls
    }

    /// The instruction at which the host cut the segment, where it did.
    pub fn split_insn(&self) -> (insn: Option<u32>)
        ensures
            insn == self@.split_insn,
    {
        self.split_insn
    }

    /// How the segment ended.
    pub fn exit_code(&self) -> (code: ExitCode)
        ensures
            code == self@.exit_code,
    {
        self.exit_code
    }

    /// The binary logarithm of the padded number of cycles.
    pub fn po2(&self) -> (po2: u32)
        ensures
            po2 == self@.po2,
            self@.wf(),
    {
        proof {
            use_type_invariant(self);
        }
        self.po2
    }

    /// The position of the segment in its session, counted from zero.
    pub fn index(&self) -> (index: u32)
        ensures
            index == self@.index,
    {
        self.index
    }

    /// The number of cycles that ran guest instructions.
    pub fn cycles(&self) -> (cycles: u32)
        ensures
            cycles == self@.cycles,
            self@.wf(),
    {
        proof {
            use_type_invariant(self);
        }
        self.cycles
    }
}

impl Clone for Segment {
    fn clone(&self) -> (segment: Segment)
        ensures
            segment@ == self@,
    {
        proof {
            use_type_invariant(self);
        }
        Segment {
            pre_image: Box::new((*self.pre_image).clone()),
            post_image_id: self.post_image_id,
            faults: self.faults.clone(),
            syscalls: clone_syscalls(&self.syscalls),
            split_insn: self.split_insn,
            exit_code: self.exit_code,
            po2: self.po2,
            index: self.index,
            cycles: self.cycles,
        }
    }
}

/// The contents of a sequence of segments.
pub open spec fn views(segments: Seq<Segment>) -> Seq<SegmentView> {
    Seq::new(segments.len(), |i: int| segments[i]@)
}

} // verus!
