//! Decoding of FAT32 on-disk structures: the master boot record, the
//! BIOS parameter block, file-allocation-table entries, directory
//! entries and their metadata, and the partition sector arithmetic.
//!
//! The filesystem proper — devices, caches, cluster chains — lives with
//! the embedding program; everything here is a total function from plain
//! bytes and numbers to plain values.

use vstd::prelude::*;

pub mod dirent;
pub mod ebpb;
pub mod fat;
pub mod mbr;
pub mod metadata;
pub mod partition;

verus! {

/// A cluster number of a FAT32 volume.
#[derive(Clone, Copy, Debug, PartialEq, Eq, Structural)]
pub struct Cluster(pub u32);

impl Cluster {
    /// Wraps a raw cluster number.
    pub fn from(raw: u32) -> (r: Cluster)
        ensures
            r.0 == raw,
    {
        Cluster(raw)
    }

    /// The raw cluster number.
    pub fn raw(&self) -> (r: u32)
        ensures
            r == self.0,
    {
        self.0
    }
}

/// The little-endian 16-bit value of two bytes.
pub open spec fn spec_le16(b0: u8, b1: u8) -> u16 {
    (b0 + b1 * 0x100) as u16
}

/// The little-endian 32-bit value of four bytes.
pub open spec fn spec_le32(b0: u8, b1: u8, b2: u8, b3: u8) -> u32 {
    (b0 + b1 * 0x100 + b2 * 0x10000 + b3 * 0x1000000) as u32
}

/// Reads a little-endian 16-bit value.
pub fn le16(b0: u8, b1: u8) -> (r: u16)
    ensures
        r == spec_le16(b0, b1),
{
    (b0 as u16) + (b1 as u16) * 0x100
}

/// Reads a little-endian 32-bit value.
pub fn le32(b0: u8, b1: u8, b2: u8, b3: u8) -> (r: u32)
    ensures
        r == spec_le32(b0, b1, b2, b3),
{
    (b0 as u32) + (b1 as u32) * 0x100 + (b2 as u32) * 0x10000 + (b3 as u32) * 0x1000000
}

} // verus!
