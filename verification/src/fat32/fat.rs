//! File-allocation-table entries and their decoded status.

use vstd::prelude::*;

use crate::fat32::Cluster;

verus! {

/// The decoded meaning of a file-allocation-table entry.
#[derive(Clone, Copy, Debug, PartialEq, Eq, Structural)]
pub enum Status {
    /// The entry corresponds to an unused (free) cluster.
    Free,
    /// The entry or its cluster is reserved.
    Reserved,
    /// The entry corresponds to a valid data cluster; the next cluster
    /// in the chain is the payload.
    Data(Cluster),
    /// The entry corresponds to a bad (disk-failed) cluster.
    Bad,
    /// The entry corresponds to the last valid data cluster of its
    /// chain.
    Eoc(u32),
}

/// One raw file-allocation-table entry.
#[derive(Clone, Copy, Debug, PartialEq, Eq, Structural)]
pub struct FatEntry(pub u32);

/// The decoded status of a raw entry: only the low 28 bits count.
pub open spec fn spec_status(v: u32) -> Status {
    let value = v & 0x0fff_ffff;
    if value == 0 {
        Status::Free
    } else if value == 1 {
        Status::Reserved
    } else if value <= 0x0fff_ffef {
        Status::Data(Cluster(value))
    } else if value <= 0x0fff_fff5 {
        Status::Data(Cluster(value))
    } else if value == 0x0fff_fff6 {
        Status::Reserved
    } else if value == 0x0fff_fff7 {
        Status::Bad
    } else {
        Status::Eoc(value)
    }
}

impl FatEntry {
    /// Decodes the status of this entry.
    pub fn status(&self) -> (r: Status)
        ensures
            r == spec_status(self.0),
    {
        let value = self.0 & 0x0fff_ffff;
        if value == 0 {
            Status::Free
        } else if value == 1 {
            Status::Reserved
        } else if value <= 0x0fff_ffef {
            Status::Data(Cluster(value))
        } else if value <= 0x0fff_fff5 {
            Status::Data(Cluster(value))
        } else if value == 0x0fff_fff6 {
            Status::Reserved
        } else if value == 0x0fff_fff7 {
            Status::Bad
        } else {
            Status::Eoc(value)
        }
    }
}

} // verus!
