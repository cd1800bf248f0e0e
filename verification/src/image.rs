//! Memory images and the machine states that they commit to.

use crate::digest::Digest;
use vstd::prelude::*;

verus! {

/// A snapshot of guest memory together with the program counter.
///
/// The pages and the Merkle tree over them belong to the executor. What this
/// crate reads of an image is the program counter and the root of that tree,
/// so an image holds these two.
#[derive(Debug, PartialEq, Eq)]
pub struct MemoryImage {
    /// The address of the next instruction.
    pub pc: u32,
    /// The root of the Merkle tree over the pages of the image.
    pub merkle_root: Digest,
}

impl MemoryImage {
    /// The image with the given program counter and Merkle root.
    pub fn new(pc: u32, merkle_root: Digest) -> (image: MemoryImage)
        ensures
            image.pc == pc,
            image.merkle_root == merkle_root,
    {
        MemoryImage { pc, merkle_root }
    }

    /// The digest that commits to the whole image.
    pub fn compute_root_hash(&self) -> (root: Digest)
        ensures
            root == self.merkle_root,
    {
        self.merkle_root
    }
}

impl Clone for MemoryImage {
    fn clone(&self) -> (image: MemoryImage)
        ensures
            image == *self,
    {
        MemoryImage { pc: self.pc, merkle_root: self.merkle_root }
    }
}

/// The state of the machine at a boundary of execution, as a claim names it.
#[derive(Clone, Copy, Debug, PartialEq, Eq)]
pub struct SystemState {
    /// The address of the next instruction.
    pub pc: u32,
    /// The root of the Merkle tree over the memory image.
    pub merkle_root: Digest,
}

impl SystemState {
    /// The state that `image` is a snapshot of.
    pub open spec fn of_image(image: MemoryImage) -> SystemState {
        SystemState { pc: image.pc, merkle_root: image.merkle_root }
    }
}

impl From<&MemoryImage> for SystemState {
    fn from(image: &MemoryImage) -> (state: SystemState) {
        SystemState { pc: image.pc, merkle_root: image.compute_root_hash() }
    }
}

impl vstd::std_specs::convert::FromSpecImpl<&MemoryImage> for SystemState {
    open spec fn obeys_from_spec() -> bool {
        true
    }

    open spec fn from_spec(image: &MemoryImage) -> SystemState {
        SystemState::of_image(*image)
    }
}

} // verus!
