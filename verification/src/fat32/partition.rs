//! Sector arithmetic for a block-device partition: mapping the logical
//! sectors of a partition onto the physical sectors of the device
//! beneath it.
//!
//! The device itself — reads, writes, caching — belongs to the
//! embedding program; this type carries only the numbers that decide
//! where a logical sector lives.

use vstd::prelude::*;

verus! {

/// Where a partition lies on its device and how large its logical
/// sectors are.
#[derive(Clone, Copy, Debug, PartialEq, Eq, Structural)]
pub struct Partition {
    /// The physical sector where the partition begins.
    pub start: u64,
    /// Number of logical sectors.
    pub num_sectors: u64,
    /// The size, in bytes, of a logical sector of the partition.
    pub sector_size: u64,
}

/// The sector arithmetic of one partition of a block device whose
/// physical sectors are `device_sector_size` bytes.
#[derive(Clone, Copy, Debug, PartialEq, Eq, Structural)]
pub struct BlockDevicePartition {
    pub device_sector_size: u64,
    pub partition: Partition,
}

impl BlockDevicePartition {
    /// Consistency: physical sectors exist, logical sectors are at least
    /// as large, and every logical sector maps to a physical sector
    /// below the address limit.
    pub open spec fn wf(&self) -> bool {
        &&& self.device_sector_size > 0
        &&& self.partition.sector_size >= self.device_sector_size
        &&& self.partition.start + self.partition.num_sectors * (
        self.partition.sector_size / self.device_sector_size) <= u64::MAX
    }

    /// Describes the partition starting at `partition.start` of a device
    /// with `device_sector_size`-byte sectors.
    pub fn new(device_sector_size: u64, partition: Partition) -> (r: BlockDevicePartition)
        requires
            (BlockDevicePartition { device_sector_size, partition }).wf(),
        ensures
            r == (BlockDevicePartition { device_sector_size, partition }),
            r.wf(),
    {
        BlockDevicePartition { device_sector_size, partition }
    }

    /// The number of physical sectors that make up one logical sector.
    pub fn factor(&self) -> (r: u64)
        requires
            self.wf(),
        ensures
            r == self.partition.sector_size / self.device_sector_size,
    {
        self.partition.sector_size / self.device_sector_size
    }

    /// Maps the logical sector `virt` to its physical sector, or `None`
    /// when `virt` is out of range of the partition.
    pub fn virtual_to_physical(&self, virt: u64) -> (r: Option<u64>)
        requires
            self.wf(),
        ensures
            r == if virt < self.partition.num_sectors {
                Some(
                    (self.partition.start + virt * (self.partition.sector_size
                        / self.device_sector_size)) as u64,
                )
            } else {
                None::<u64>
            },
    {
        if virt >= self.partition.num_sectors {
            return None;
        }
        let factor = self.factor();
        proof {
            let f = self.partition.sector_size as int / self.device_sector_size as int;
            assert(virt * f <= self.partition.num_sectors * f) by (nonlinear_arith)
                requires
                    virt < self.partition.num_sectors,
                    f >= 0,
            ;
        }
        let physical_offset = virt * factor;
        let physical_sector = self.partition.start + physical_offset;
        Some(physical_sector)
    }
}

} // verus!
