use std::collections::BTreeSet;

use zkvm_session::codec::{decode_segment, encode_segment, from_record, to_record, SegmentRecord};
use zkvm_session::digest::Digest;
use zkvm_session::error::ResolutionError;
use zkvm_session::exit_code::ExitCode;
use zkvm_session::faults::PageFaults;
use zkvm_session::file_ref::FileSegmentRef;
use zkvm_session::image::MemoryImage;
use zkvm_session::pages::{is_strictly_ascending, collect_pages, list_pages};
use zkvm_session::segment::{cycles_fit, Segment, SyscallRecord};

fn words(first: u32) -> [u32; 8] {
    [first, first + 1, first + 2, first + 3, first + 4, first + 5, first + 6, first + 7]
}

fn sample_segment() -> Segment {
    let mut faults = PageFaults::default();
    faults.reads.insert(3);
    faults.reads.insert(1);
    faults.writes.insert(2);
    Segment::new(
        Box::new(MemoryImage::new(0x0102_0304, Digest::new(words(1)))),
        Digest::new(words(21)),
        faults,
        vec![SyscallRecord { to_guest: vec![9, 10], regs: (11, 12) }],
        ExitCode::Halted(5),
        Some(7),
        4,
        6,
        13,
    )
}

fn sample_record() -> SegmentRecord {
    SegmentRecord {
        pre_image: (0x0102_0304, words(1)),
        post_image_id: words(21),
        faults: (vec![1, 3], vec![2]),
        syscalls: vec![(vec![9, 10], (11, 12))],
        split_insn: Some(7),
        exit_code: (0, 5),
        po2: 4,
        index: 6,
        cycles: 13,
    }
}

fn le32(values: &[u32]) -> Vec<u8> {
    values.iter().flat_map(|value| value.to_le_bytes()).collect()
}

fn le64(value: u64) -> Vec<u8> {
    value.to_le_bytes().to_vec()
}

fn sample_bytes() -> Vec<u8> {
    let mut bytes = vec![0x04, 0x03, 0x02, 0x01];
    bytes.extend(le32(&words(1)));
    bytes.extend(le32(&words(21)));
    bytes.extend(le64(2));
    bytes.extend(le32(&[1, 3]));
    bytes.extend(le64(1));
    bytes.extend(le32(&[2]));
    bytes.extend(le64(1));
    bytes.extend(le64(2));
    bytes.extend(le32(&[9, 10]));
    bytes.extend(le32(&[11, 12]));
    bytes.push(1);
    bytes.extend(le32(&[7]));
    bytes.extend(le32(&[0, 5]));
    bytes.extend(le32(&[4, 6, 13]));
    bytes
}

#[test]
fn record_of_a_segment() {
    assert_eq!(to_record(&sample_segment()), sample_record());
}

#[test]
fn segment_of_a_record() {
    assert_eq!(from_record(&sample_record()), Ok(sample_segment()));
}

#[test]
fn record_round_trip() {
    let segment = sample_segment();
    assert_eq!(from_record(&to_record(&segment)), Ok(segment));
}

#[test]
fn record_of_each_exit_code() {
    for (code, fields) in [
        (ExitCode::Halted(0), (0, 0)),
        (ExitCode::Halted(u32::MAX), (0, u32::MAX)),
        (ExitCode::Paused(17), (1, 17)),
        (ExitCode::SystemSplit, (2, 0)),
        (ExitCode::SessionLimit, (3, 0)),
    ] {
        assert_eq!(code.to_fields(), fields);
        assert_eq!(ExitCode::from_fields(fields), Some(code));
        let record = SegmentRecord { exit_code: fields, ..sample_record() };
        assert_eq!(from_record(&record).unwrap().exit_code(), code);
    }
}

#[test]
fn record_with_unknown_exit_code_is_refused() {
    for fields in [(4, 0), (2, 1), (3, 7), (u32::MAX, 0)] {
        assert_eq!(ExitCode::from_fields(fields), None);
        let record = SegmentRecord { exit_code: fields, ..sample_record() };
        assert_eq!(from_record(&record), Err(ResolutionError::Codec));
    }
}

#[test]
fn record_with_pages_out_of_order_is_refused() {
    let unsorted = SegmentRecord { faults: (vec![3, 1], vec![2]), ..sample_record() };
    assert_eq!(from_record(&unsorted), Err(ResolutionError::Codec));
    let twice = SegmentRecord { faults: (vec![1, 3], vec![2, 2]), ..sample_record() };
    assert_eq!(from_record(&twice), Err(ResolutionError::Codec));
}

#[test]
fn record_with_too_many_cycles_is_refused() {
    let full = SegmentRecord { po2: 4, cycles: 16, ..sample_record() };
    assert_eq!(from_record(&full).unwrap().cycles(), 16);
    let over = SegmentRecord { po2: 4, cycles: 17, ..sample_record() };
    assert_eq!(from_record(&over), Err(ResolutionError::Codec));
}

#[test]
fn bytes_of_a_segment() {
    assert_eq!(encode_segment(&sample_segment()), Ok(sample_bytes()));
}

#[test]
fn segment_of_bytes() {
    assert_eq!(decode_segment(&sample_bytes()), Ok(sample_segment()));
}

#[test]
fn bytes_of_a_bare_segment() {
    let segment = Segment::new(
        Box::new(MemoryImage::new(0, Digest::zero())),
        Digest::zero(),
        PageFaults::default(),
        Vec::new(),
        ExitCode::SystemSplit,
        None,
        0,
        0,
        0,
    );
    let mut bytes = vec![0u8; 4 + 32 + 32 + 8 + 8 + 8];
    bytes.push(0);
    bytes.extend(le32(&[2, 0]));
    bytes.extend(le32(&[0, 0, 0]));
    assert_eq!(encode_segment(&segment), Ok(bytes.clone()));
    assert_eq!(decode_segment(&bytes), Ok(segment));
}

#[test]
fn encoding_round_trip() {
    let segment = sample_segment();
    let bytes = encode_segment(&segment).unwrap();
    let decoded = decode_segment(&bytes).unwrap();
    assert_eq!(decoded, segment);
    assert_eq!(decoded.pre_image(), segment.pre_image());
    assert_eq!(decoded.post_image_id(), segment.post_image_id());
    assert_eq!(decoded.faults(), segment.faults());
    assert_eq!(decoded.syscalls(), segment.syscalls());
    assert_eq!(decoded.split_insn(), segment.split_insn());
    assert_eq!(decoded.exit_code(), segment.exit_code());
    assert_eq!(decoded.po2(), segment.po2());
    assert_eq!(decoded.index(), segment.index());
    assert_eq!(decoded.cycles(), segment.cycles());
    assert_eq!(encode_segment(&decoded), Ok(bytes));
}

#[test]
fn every_segment_has_its_bytes() {
    let mut faults = PageFaults::default();
    for page in [u32::MAX, 0, 17] {
        faults.reads.insert(page);
        faults.writes.insert(page);
    }
    let segment = Segment::new(
        Box::new(MemoryImage::new(u32::MAX, Digest::new([u32::MAX; 8]))),
        Digest::new([u32::MAX; 8]),
        faults,
        vec![
            SyscallRecord { to_guest: Vec::new(), regs: (0, 0) },
            SyscallRecord { to_guest: vec![u32::MAX; 100], regs: (u32::MAX, u32::MAX) },
        ],
        ExitCode::SessionLimit,
        Some(u32::MAX),
        u32::MAX,
        u32::MAX,
        u32::MAX,
    );
    let bytes = encode_segment(&segment).unwrap();
    assert_eq!(bytes.len(), 4 + 32 + 32 + (8 + 12) + (8 + 12) + (8 + 8 + 8 + 8 + 400 + 8) + 5 + 8 + 12);
    assert_eq!(decode_segment(&bytes), Ok(segment));
}

#[test]
fn bytes_that_are_no_record_are_refused() {
    assert_eq!(decode_segment(&[]), Err(ResolutionError::Codec));
    assert_eq!(decode_segment(&[1, 2, 3]), Err(ResolutionError::Codec));
    let bytes = sample_bytes();
    assert_eq!(decode_segment(&bytes[..bytes.len() - 1]), Err(ResolutionError::Codec));
    let mut bad_option = sample_bytes();
    let at = bad_option.len() - 25;
    assert_eq!(bad_option[at], 1);
    bad_option[at] = 2;
    assert_eq!(decode_segment(&bad_option), Err(ResolutionError::Codec));
}

#[test]
fn bytes_of_an_ill_formed_record_are_refused() {
    let mut bytes = sample_bytes();
    let at = bytes.len() - 20;
    assert_eq!(bytes[at], 0);
    bytes[at] = 9;
    assert_eq!(decode_segment(&bytes), Err(ResolutionError::Codec));
    let mut swapped = sample_bytes();
    let reads = 4 + 32 + 32 + 8;
    swapped[reads] = 3;
    swapped[reads + 4] = 1;
    assert_eq!(decode_segment(&swapped), Err(ResolutionError::Codec));
}

#[test]
fn file_names() {
    assert_eq!(FileSegmentRef::file_name(0), "0.bincode");
    assert_eq!(FileSegmentRef::file_name(7), "7.bincode");
    assert_eq!(FileSegmentRef::file_name(10), "10.bincode");
    assert_eq!(FileSegmentRef::file_name(1234567890), "1234567890.bincode");
    assert_eq!(FileSegmentRef::file_name(u32::MAX), "4294967295.bincode");
}

#[test]
fn file_reference_for_a_segment() {
    let (reference, contents) = FileSegmentRef::new(&sample_segment(), "/var/segments").unwrap();
    assert_eq!(reference.path(), "/var/segments/6.bincode");
    assert_eq!(contents, sample_bytes());
    assert_eq!(reference.resolve_with(Ok(contents)), Ok(sample_segment()));
}

#[test]
fn file_reference_joins_directory_and_name() {
    let segment = sample_segment();
    let path_in = |directory: &str| {
        let (reference, _) = FileSegmentRef::new(&segment, directory).unwrap();
        reference.path().clone()
    };
    assert_eq!(path_in(""), "6.bincode");
    assert_eq!(path_in("/"), "/6.bincode");
    assert_eq!(path_in("segments"), "segments/6.bincode");
    assert_eq!(path_in("segments/"), "segments/6.bincode");
    assert_eq!(path_in("a/b"), "a/b/6.bincode");
    assert_eq!(path_in("\u{e9}t\u{e9}"), "\u{e9}t\u{e9}/6.bincode");
}

#[test]
fn file_reference_keeps_its_path() {
    let reference = FileSegmentRef::at(String::from("/tmp/segments/3.bincode"));
    assert_eq!(reference.path(), "/tmp/segments/3.bincode");
    assert_eq!(reference.clone(), reference);
}

#[test]
fn file_resolution_decodes_what_was_read() {
    let reference = FileSegmentRef::at(FileSegmentRef::file_name(6));
    assert_eq!(reference.resolve_with(Ok(sample_bytes())), Ok(sample_segment()));
    assert_eq!(reference.resolve_with(Ok(sample_bytes())), Ok(sample_segment()));
}

#[test]
fn file_resolution_passes_on_a_failed_read() {
    let reference = FileSegmentRef::at(FileSegmentRef::file_name(6));
    assert_eq!(reference.resolve_with(Err(ResolutionError::Io)), Err(ResolutionError::Io));
}

#[test]
fn file_resolution_refuses_an_empty_file() {
    let reference = FileSegmentRef::at(FileSegmentRef::file_name(6));
    assert_eq!(reference.resolve_with(Ok(Vec::new())), Err(ResolutionError::Codec));
}

#[test]
fn pages_are_listed_in_ascending_order() {
    let pages: BTreeSet<u32> = [5, 1, u32::MAX, 0, 3].into_iter().collect();
    assert_eq!(list_pages(&pages), vec![0, 1, 3, 5, u32::MAX]);
    assert_eq!(list_pages(&BTreeSet::new()), Vec::<u32>::new());
}

#[test]
fn pages_are_collected_from_a_list() {
    let pages: BTreeSet<u32> = [1, 4, 9].into_iter().collect();
    assert_eq!(collect_pages(&vec![1, 4, 9]), pages);
    assert_eq!(collect_pages(&vec![9, 1, 4, 1]), pages);
    assert_eq!(collect_pages(&Vec::new()), BTreeSet::new());
}

#[test]
fn ascending_lists() {
    assert!(is_strictly_ascending(&Vec::new()));
    assert!(is_strictly_ascending(&vec![8]));
    assert!(is_strictly_ascending(&vec![0, 1, 2, u32::MAX]));
    assert!(!is_strictly_ascending(&vec![1, 1]));
    assert!(!is_strictly_ascending(&vec![1, 2, 4, 3]));
    assert!(!is_strictly_ascending(&vec![2, 1, 3]));
}

#[test]
fn cycles_fit_up_to_the_padded_length() {
    assert!(cycles_fit(0, 0));
    assert!(cycles_fit(0, 1));
    assert!(!cycles_fit(0, 2));
    assert!(cycles_fit(10, 1024));
    assert!(!cycles_fit(10, 1025));
    assert!(cycles_fit(31, 1 << 31));
    assert!(!cycles_fit(31, (1 << 31) + 1));
    assert!(cycles_fit(32, u32::MAX));
    assert!(cycles_fit(64, u32::MAX));
    assert!(cycles_fit(u32::MAX, u32::MAX));
}

#[test]
fn segment_hands_out_its_parts() {
    let segment = sample_segment();
    assert_eq!(*segment.pre_image(), MemoryImage::new(0x0102_0304, Digest::new(words(1))));
    assert_eq!(segment.pre_image().pc, 0x0102_0304);
    assert_eq!(segment.pre_image().compute_root_hash(), Digest::new(words(1)));
    assert_eq!(segment.post_image_id(), Digest::new(words(21)));
    assert_eq!(list_pages(&segment.faults().reads), vec![1, 3]);
    assert_eq!(list_pages(&segment.faults().writes), vec![2]);
    assert_eq!(segment.syscalls().len(), 1);
    assert_eq!(segment.syscalls()[0], SyscallRecord { to_guest: vec![9, 10], regs: (11, 12) });
    assert_eq!(segment.split_insn(), Some(7));
    assert_eq!(segment.exit_code(), ExitCode::Halted(5));
    assert_eq!(segment.po2(), 4);
    assert_eq!(segment.index(), 6);
    assert_eq!(segment.cycles(), 13);
}

#[test]
fn copies_are_equal_to_what_they_were_made_of() {
    let segment = sample_segment();
    assert_eq!(segment.clone(), segment);
    let call = SyscallRecord { to_guest: vec![1, 2, 3], regs: (4, 5) };
    assert_eq!(call.clone(), call);
    let image = MemoryImage::new(12, Digest::new(words(3)));
    assert_eq!(image.clone(), image);
    let faults = segment.faults().clone();
    assert_eq!(&faults, segment.faults());
}

#[test]
fn page_faults_start_empty() {
    let faults = PageFaults::default();
    assert!(faults.reads.is_empty());
    assert!(faults.writes.is_empty());
}

#[test]
fn zero_digest() {
    assert_eq!(Digest::zero(), Digest::new([0; 8]));
    assert_eq!(Digest::zero().as_words(), &[0u32; 8]);
    assert_ne!(Digest::zero(), Digest::new(words(0)));
}
