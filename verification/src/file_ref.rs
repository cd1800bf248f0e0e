//! References to segments that are kept in files, one file for each segment.
//!
//! Reading and writing the files is left to the program that uses this
//! crate. What is fixed here is how a file is named, what it holds, and what
//! a resolution comes to once the file was read.

use crate::codec::{
    bincode_bytes, bincode_record, decode_segment, encode_segment, record_of, segment_of_read,
};
use crate::error::ResolutionError;
use crate::segment::{Segment, SegmentView};
use crate::segment_ref::outcome_view;
use vstd::prelude::*;
use vstd::string::{StrSliceExecFns, StringExecFns};

verus! {

/// The character of a decimal digit.
pub open spec fn digit(value: nat) -> char {
    if value == 0 {
        '0'
    } else if value == 1 {
        '1'
    } else if value == 2 {
        '2'
    } else if value == 3 {
        '3'
    } else if value == 4 {
        '4'
    } else if value == 5 {
        '5'
    } else if value == 6 {
        '6'
    } else if value == 7 {
        '7'
    } else if value == 8 {
        '8'
    } else {
        '9'
    }
}

/// A number in decimal digits, without leading zeros.
pub open spec fn decimal(n: nat) -> Seq<char>
    decreases n,
{
    if n < 10 {
        seq![digit(n)]
    } else {
        decimal(n / 10).push(digit(n % 10))
    }
}

/// The name of the file that holds the segment at position `index`: the
/// position in decimal digits, and the extension `.bincode`.
pub open spec fn file_name_of(index: u32) -> Seq<char> {
    decimal(index as nat) + ".bincode"@
}

/// The path of the file `name` in `directory`: the directory, a `/` where
/// the directory is not empty and does not end in one, and the name.
pub open spec fn path_in(directory: Seq<char>, name: Seq<char>) -> Seq<char> {
    if directory.len() == 0 || directory.last() == '/' {
        directory + name
    } else {
        directory + seq!['/'] + name
    }
}

fn digit_str(value: u32) -> (text: &'static str)
    requires
        value < 10,
    ensures
        text@ == seq![digit(value as nat)],
{
    proof {
        reveal_strlit("0");
        reveal_strlit("1");
        reveal_strlit("2");
        reveal_strlit("3");
        reveal_strlit("4");
        reveal_strlit("5");
        reveal_strlit("6");
        reveal_strlit("7");
        reveal_strlit("8");
        reveal_strlit("9");
    }
    let text = match value {
        0 => "0",
        1 => "1",
        2 => "2",
        3 => "3",
        4 => "4",
        5 => "5",
        6 => "6",
        7 => "7",
        8 => "8",
        _ => "9",
    };
    assert(text@ =~= seq![digit(value as nat)]);
    text
}

fn append_decimal(text: &mut String, n: u32)
    ensures
        final(text)@ == old(text)@ + decimal(n as nat),
    decreases n,
{
    if n >= 10 {
        append_decimal(text, n / 10);
    }
    text.append(digit_str(n % 10));
    assert(text@ =~= old(text)@ + decimal(n as nat));
}

/// What reading a file came back with, as mathematical content.
pub open spec fn read_view(read: Result<Vec<u8>, ResolutionError>) -> Result<
    Seq<u8>,
    ResolutionError,
> {
    match read {
        Ok(bytes) => Ok(bytes@),
        Err(error) => Err(error),
    }
}

/// What a resolution comes to, given what reading the file came back with:
/// the failure to read, or what decoding the bytes gives.
pub open spec fn resolution_of(read: Result<Seq<u8>, ResolutionError>) -> Result<
    SegmentView,
    ResolutionError,
> {
    match read {
        Ok(bytes) => segment_of_read(bincode_record(bytes)),
        Err(error) => Err(error),
    }
}

/// A reference to a segment that is kept in a file.
#[derive(Debug, PartialEq, Eq)]
pub struct FileSegmentRef {
    path: String,
}

impl View for FileSegmentRef {
    type V = Seq<char>;

    closed spec fn view(&self) -> Seq<char> {
        self.path@
    }
}

impl FileSegmentRef {
    /// The name, within its directory, of the file that holds the segment at
    /// position `index`.
    pub fn file_name(index: u32) -> (name: String)
        ensures
            name@ == file_name_of(index),
    {
        let mut name = String::new();
        append_decimal(&mut name, index);
        name.append(".bincode");
        assert(name@ =~= file_name_of(index));
        name
    }

    /// Prepares the file that keeps `segment` in `directory`: hands out the
    /// reference to the file, which is named after the index of the segment,
    /// and the bytes that the file has to hold. This succeeds for every
    /// segment and directory, and depends on nothing else. The reference
    /// resolves to the segment once the bytes were written to its path, in
    /// place of what was there.
    pub fn new(segment: &Segment, directory: &str) -> (outcome: Result<
        (FileSegmentRef, Vec<u8>),
        ResolutionError,
    >)
        ensures
            outcome is Ok,
            outcome matches Ok((reference, contents)) ==> {
                &&& reference@ == path_in(directory@, file_name_of(segment@.index))
                &&& contents@ == bincode_bytes(record_of(segment@))
                &&& resolution_of(Ok(contents@)) == Ok::<SegmentView, ResolutionError>(segment@)
            },
    {
        let contents = match encode_segment(segment) {
            Ok(contents) => contents,
            Err(error) => {
                return Err(error);
            },
        };
        let mut path = String::from_str(directory);
        let length: usize = directory.unicode_len();
        if length > 0 && directory.get_char(length - 1) != '/' {
            proof {
                reveal_strlit("/");
            }
            path.append("/");
        }
        let name = FileSegmentRef::file_name(segment.index());
        path.append(name.as_str());
        assert(path@ =~= path_in(directory@, file_name_of(segment@.index)));
        Ok((FileSegmentRef { path }, contents))
    }

    /// The reference to the segment in the file at `path`.
    pub fn at(path: String) -> (reference: FileSegmentRef)
        ensures
            reference@ == path@,
    {
        FileSegmentRef { path }
    }

    /// The path of the file.
    pub fn path(&self) -> (path: &String)
        ensures
            path@ == self@,
    {
        &self.path
    }

    /// Finishes a resolution: `read` is what reading the file at the path of
    /// this reference came back with.
    pub fn resolve_with(&self, read: Result<Vec<u8>, ResolutionError>) -> (outcome: Result<
        Segment,
        ResolutionError,
    >)
        ensures
            outcome_view(outcome) == resolution_of(read_view(read)),
    {
        match read {
            Ok(bytes) => decode_segment(bytes.as_slice()),
            Err(error) => Err(error),
        }
    }
}

impl Clone for FileSegmentRef {
    fn clone(&self) -> (reference: FileSegmentRef)
        ensures
            reference@ == self@,
    {
        FileSegmentRef { path: self.path.clone() }
    }
}

} // verus!
