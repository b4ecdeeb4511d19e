//! The master boot record: the partition table of the first sector of a
//! disk.

use vstd::prelude::*;

use crate::fat32::{le16, le32, spec_le16, spec_le32};

verus! {

/// Splits a packed sector/cylinder word into the 6-bit sector and the
/// 10-bit cylinder.
pub fn split_sector_cylinder(bytes: [u8; 2]) -> (r: (u8, u16))
    ensures
        r.0 == (spec_le16(bytes@[0], bytes@[1]) & 0x3f) as u8,
        r.1 == (spec_le16(bytes@[0], bytes@[1]) & 0xffc0) / 0x40,
{
    let v = le16(bytes[0], bytes[1]);
    ((v & 0x3f) as u8, (v & 0xffc0) / 0x40)
}

/// A cylinder/head/sector address as stored in a partition entry.
#[derive(Copy, Clone, Debug, PartialEq, Eq)]
pub struct CHS {
    pub head: u8,
    pub sector_cylinder: [u8; 2],
}

impl CHS {
    /// The 6-bit sector and 10-bit cylinder of this address.
    pub fn sector_cylinder(&self) -> (r: (u8, u16))
        ensures
            r.0 == (spec_le16(self.sector_cylinder@[0], self.sector_cylinder@[1]) & 0x3f) as u8,
            r.1 == (spec_le16(self.sector_cylinder@[0], self.sector_cylinder@[1]) & 0xffc0) / 0x40,
    {
        split_sector_cylinder(self.sector_cylinder)
    }
}

/// One entry of the partition table.
#[derive(Copy, Clone, Debug, PartialEq, Eq)]
pub struct PartitionEntry {
    pub boot_indicator: u8,
    pub starting_chs: CHS,
    pub partition_type: u8,
    pub ending_chs: CHS,
    pub relative_sector: u32,
    pub total_sectors: u32,
}

/// Why a master boot record was rejected.
#[derive(Copy, Clone, Debug, PartialEq, Eq, Structural)]
pub enum Error {
    /// Partition (0-indexed) holds an invalid or unknown boot indicator.
    UnknownBootIndicator(u8),
    /// The magic signature of the boot sector was invalid.
    BadSignature,
}

/// The master boot record.
#[derive(Clone, Debug, PartialEq, Eq)]
pub struct MasterBootRecord {
    pub disk_id: Vec<u8>,
    pub partition_table: Vec<PartitionEntry>,
    pub signature: [u8; 2],
}

/// Byte offset of the disk id within the boot sector.
pub const MBR_DISK_ID: usize = 436;

/// Byte offset of the partition table within the boot sector.
pub const MBR_PART_TABLE: usize = 446;

/// The partition entry decoded from the 16 bytes at offset `base` of the
/// boot sector.
pub open spec fn spec_partition_entry(s: Seq<u8>, base: int) -> PartitionEntry {
    PartitionEntry {
        boot_indicator: s[base],
        starting_chs: CHS { head: s[base + 1], sector_cylinder: [s[base + 2], s[base + 3]] },
        partition_type: s[base + 4],
        ending_chs: CHS { head: s[base + 5], sector_cylinder: [s[base + 6], s[base + 7]] },
        relative_sector: spec_le32(s[base + 8], s[base + 9], s[base + 10], s[base + 11]),
        total_sectors: spec_le32(s[base + 12], s[base + 13], s[base + 14], s[base + 15]),
    }
}

/// True when the boot indicator of partition `n` is one of the two
/// recognized values.
pub open spec fn spec_part_ok(s: Seq<u8>, n: int) -> bool {
    s[MBR_PART_TABLE + 16 * n] == 0x00 || s[MBR_PART_TABLE + 16 * n] == 0x80
}

impl MasterBootRecord {
    /// Decodes the master boot record from the 512 bytes of the first
    /// disk sector.
    ///
    /// Rejects a sector whose magic signature is not `0x55 0xAA` with
    /// `BadSignature`, and then a partition entry whose boot indicator is
    /// neither `0x00` nor `0x80` with `UnknownBootIndicator(n)` for the
    /// first such partition `n`.
    pub fn from(sector: &Vec<u8>) -> (r: Result<MasterBootRecord, Error>)
        requires
            sector@.len() == 512,
        ensures
            r == Err::<MasterBootRecord, Error>(Error::BadSignature) <==> !(sector@[510] == 0x55
                && sector@[511] == 0xaa),
            r matches Err(Error::UnknownBootIndicator(n)) ==> sector@[510] == 0x55 && sector@[511]
                == 0xaa && 0 <= n < 4 && !spec_part_ok(sector@, n as int) && (forall|m: int|
                0 <= m < n ==> spec_part_ok(sector@, m)),
            r is Ok ==> (forall|m: int| 0 <= m < 4 ==> spec_part_ok(sector@, m)),
            r matches Ok(mbr) ==> {
                &&& mbr.disk_id@.len() == 10
                &&& (forall|i: int| 0 <= i < 10 ==> mbr.disk_id@[i] == sector@[MBR_DISK_ID + i])
                &&& mbr.partition_table@.len() == 4
                &&& (forall|n: int|
                    0 <= n < 4 ==> #[trigger] mbr.partition_table@[n] == spec_partition_entry(
                        sector@,
                        MBR_PART_TABLE + 16 * n,
                    ))
                &&& mbr.signature@[0] == 0x55 && mbr.signature@[1] == 0xaa
            },
    {
        if !(sector[510] == 0x55 && sector[511] == 0xaa) {
            return Err(Error::BadSignature);
        }
        let mut partition_table: Vec<PartitionEntry> = Vec::new();
        let mut n: usize = 0;
        while n < 4
            invariant
                sector@.len() == 512,
                sector@[510] == 0x55 && sector@[511] == 0xaa,
                n <= 4,
                partition_table@.len() == n,
                forall|m: int| 0 <= m < n ==> spec_part_ok(sector@, m),
                forall|m: int|
                    0 <= m < n ==> #[trigger] partition_table@[m] == spec_partition_entry(
                        sector@,
                        MBR_PART_TABLE + 16 * m,
                    ),
            decreases 4 - n,
        {
            let base = MBR_PART_TABLE + 16 * n;
            let boot_indicator = sector[base];
            if boot_indicator != 0x00 && boot_indicator != 0x80 {
                #[verifier::truncate]
                let bad = n as u8;
                return Err(Error::UnknownBootIndicator(bad));
            }
            let entry = PartitionEntry {
                boot_indicator,
                starting_chs: CHS {
                    head: sector[base + 1],
                    sector_cylinder: [sector[base + 2], sector[base + 3]],
                },
                partition_type: sector[base + 4],
                ending_chs: CHS {
                    head: sector[base + 5],
                    sector_cylinder: [sector[base + 6], sector[base + 7]],
                },
                relative_sector: le32(
                    sector[base + 8],
                    sector[base + 9],
                    sector[base + 10],
                    sector[base + 11],
                ),
                total_sectors: le32(
                    sector[base + 12],
                    sector[base + 13],
                    sector[base + 14],
                    sector[base + 15],
                ),
            };
            partition_table.push(entry);
            n = n + 1;
        }
        let mut disk_id: Vec<u8> = Vec::new();
        let mut i: usize = 0;
        while i < 10
            invariant
                sector@.len() == 512,
                sector@[510] == 0x55 && sector@[511] == 0xaa,
                i <= 10,
                disk_id@.len() == i,
                forall|j: int| 0 <= j < i ==> disk_id@[j] == sector@[MBR_DISK_ID + j],
            decreases 10 - i,
        {
            disk_id.push(sector[MBR_DISK_ID + i]);
            i = i + 1;
        }
        Ok(MasterBootRecord { disk_id, partition_table, signature: [sector[510], sector[511]] })
    }
}

} // verus!
