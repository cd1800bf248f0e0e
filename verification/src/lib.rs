//! Execution traces of a zkVM guest, cut into segments that can be proven one
//! by one, and the claim that the proofs of a whole session attest to.
//!
//! A [`Session`] is the run of a guest as the sequence of its [`Segment`]s.
//! The session does not hold the segments themselves but references to them
//! ([`SegmentRef`]), so that a segment may live in memory
//! ([`SimpleSegmentRef`]) or in a file ([`FileSegmentRef`]) and is fetched
//! when it is needed. From a session the prover takes the claim that it is
//! going to prove ([`Session::get_metadata`]) and the number of cycles that
//! this is going to cost ([`Session::get_cycles`]).
//!
//! The modules, leaves first:
//! - [`digest`], [`exit_code`], [`image`], [`claim`]: the values that a claim
//!   is made of;
//! - [`faults`], [`pages`], [`segment`]: segments and what they record;
//! - [`segment_ref`], [`codec`], [`file_ref`]: references to segments, and
//!   the stored form of a segment;
//! - [`cycles`], [`run`], [`session`]: whole sessions.

pub mod claim;
pub mod codec;
pub mod cycles;
pub mod digest;
pub mod error;
pub mod exit_code;
pub mod faults;
pub mod file_ref;
pub mod image;
pub mod pages;
pub mod run;
pub mod segment;
pub mod segment_ref;
pub mod session;

pub use crate::claim::{Assumption, Assumptions, Journal, Output, ReceiptMetadata, ResolvedRef};
pub use crate::digest::Digest;
pub use crate::error::{ResolutionError, SessionError};
pub use crate::exit_code::ExitCode;
pub use crate::faults::PageFaults;
pub use crate::file_ref::FileSegmentRef;
pub use crate::image::{MemoryImage, SystemState};
pub use crate::segment::{Segment, SyscallRecord};
pub use crate::segment_ref::{SegmentRef, SimpleSegmentRef};
pub use crate::session::{Session, SessionEvents};
