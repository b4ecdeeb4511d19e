//! The FAT32 extended BIOS parameter block: the volume geometry stored
//! in the first sector of a partition.

use vstd::prelude::*;

use crate::fat32::{le16, le32, spec_le16, spec_le32};

verus! {

/// Why a BIOS parameter block was rejected.
#[derive(Clone, Copy, Debug, PartialEq, Eq, Structural)]
pub enum EbpbError {
    /// The extended boot signature was invalid.
    BadSignature,
}

/// The fields of the extended BIOS parameter block this kernel reads,
/// decoded from their fixed little-endian offsets.
#[derive(Clone, Debug, PartialEq, Eq)]
pub struct BiosParameterBlock {
    pub oem_id: Vec<u8>,
    pub bytes_per_sector: u16,
    pub sectors_per_cluster: u8,
    pub reserved_sectors: u16,
    pub fats: u8,
    pub max_num_dir: u16,
    pub logical_sectors_16: u16,
    pub fat_id: u8,
    pub sectors_per_fat_16: u16,
    pub sectors_per_track: u16,
    pub heads: u16,
    pub hidden_sectors: u32,
    pub logical_sectors_32: u32,
    pub sectors_per_fat_32: u32,
    pub flags: u16,
    pub fat_version: [u8; 2],
    pub rootdir_cluster: u32,
    pub fsinfo_sector: u16,
    pub boot_sector_backup_sector: u16,
    pub drive_num: u8,
    pub flags_winnt: u8,
    pub signature: u8,
    pub volume_id: u32,
    pub volume_label: Vec<u8>,
    pub system_id: Vec<u8>,
    pub boot_part_signature: [u8; 2],
}

impl BiosParameterBlock {
    /// Decodes the extended BIOS parameter block from the 512 bytes of
    /// the partition's first sector; rejects an extended boot signature
    /// other than `0x28` or `0x29`.
    pub fn from(sector: &Vec<u8>) -> (r: Result<BiosParameterBlock, EbpbError>)
        requires
            sector@.len() == 512,
        ensures
            r is Err <==> !(sector@[66] == 0x28 || sector@[66] == 0x29),
            r matches Ok(e) ==> {
                &&& e.oem_id@.len() == 8
                &&& (forall|i: int| 0 <= i < 8 ==> e.oem_id@[i] == sector@[3 + i])
                &&& e.bytes_per_sector == spec_le16(sector@[11], sector@[12])
                &&& e.sectors_per_cluster == sector@[13]
                &&& e.reserved_sectors == spec_le16(sector@[14], sector@[15])
                &&& e.fats == sector@[16]
                &&& e.max_num_dir == spec_le16(sector@[17], sector@[18])
                &&& e.logical_sectors_16 == spec_le16(sector@[19], sector@[20])
                &&& e.fat_id == sector@[21]
                &&& e.sectors_per_fat_16 == spec_le16(sector@[22], sector@[23])
                &&& e.sectors_per_track == spec_le16(sector@[24], sector@[25])
                &&& e.heads == spec_le16(sector@[26], sector@[27])
                &&& e.hidden_sectors == spec_le32(
                    sector@[28],
                    sector@[29],
                    sector@[30],
                    sector@[31],
                )
                &&& e.logical_sectors_32 == spec_le32(
                    sector@[32],
                    sector@[33],
                    sector@[34],
                    sector@[35],
                )
                &&& e.sectors_per_fat_32 == spec_le32(
                    sector@[36],
                    sector@[37],
                    sector@[38],
                    sector@[39],
                )
                &&& e.flags == spec_le16(sector@[40], sector@[41])
                &&& e.fat_version@[0] == sector@[42] && e.fat_version@[1] == sector@[43]
                &&& e.rootdir_cluster == spec_le32(
                    sector@[44],
                    sector@[45],
                    sector@[46],
                    sector@[47],
                )
                &&& e.fsinfo_sector == spec_le16(sector@[48], sector@[49])
                &&& e.boot_sector_backup_sector == spec_le16(sector@[50], sector@[51])
                &&& e.drive_num == sector@[64]
                &&& e.flags_winnt == sector@[65]
                &&& e.signature == sector@[66]
                &&& e.volume_id == spec_le32(sector@[67], sector@[68], sector@[69], sector@[70])
                &&& e.volume_label@.len() == 11
                &&& (forall|i: int| 0 <= i < 11 ==> e.volume_label@[i] == sector@[71 + i])
                &&& e.system_id@.len() == 8
                &&& (forall|i: int| 0 <= i < 8 ==> e.system_id@[i] == sector@[82 + i])
                &&& e.boot_part_signature@[0] == sector@[510] && e.boot_part_signature@[1]
                    == sector@[511]
            },
    {
        let signature = sector[66];
        if signature != 0x28 && signature != 0x29 {
            return Err(EbpbError::BadSignature);
        }
        let oem_id = copy_bytes(sector, 3, 8);
        let volume_label = copy_bytes(sector, 71, 11);
        let system_id = copy_bytes(sector, 82, 8);
        Ok(
            BiosParameterBlock {
                oem_id,
                bytes_per_sector: le16(sector[11], sector[12]),
                sectors_per_cluster: sector[13],
                reserved_sectors: le16(sector[14], sector[15]),
                fats: sector[16],
                max_num_dir: le16(sector[17], sector[18]),
                logical_sectors_16: le16(sector[19], sector[20]),
                fat_id: sector[21],
                sectors_per_fat_16: le16(sector[22], sector[23]),
                sectors_per_track: le16(sector[24], sector[25]),
                heads: le16(sector[26], sector[27]),
                hidden_sectors: le32(sector[28], sector[29], sector[30], sector[31]),
                logical_sectors_32: le32(sector[32], sector[33], sector[34], sector[35]),
                sectors_per_fat_32: le32(sector[36], sector[37], sector[38], sector[39]),
                flags: le16(sector[40], sector[41]),
                fat_version: [sector[42], sector[43]],
                rootdir_cluster: le32(sector[44], sector[45], sector[46], sector[47]),
                fsinfo_sector: le16(sector[48], sector[49]),
                boot_sector_backup_sector: le16(sector[50], sector[51]),
                drive_num: sector[64],
                flags_winnt: sector[65],
                signature,
                volume_id: le32(sector[67], sector[68], sector[69], sector[70]),
                volume_label,
                system_id,
                boot_part_signature: [sector[510], sector[511]],
            },
        )
    }

    /// The total count of logical sectors, from whichever of the two
    /// on-disk fields is in use: the 16-bit one unless it is zero.
    pub fn logical_sectors(&self) -> (r: u32)
        ensures
            r == if self.logical_sectors_16 == 0 {
                self.logical_sectors_32
            } else {
                self.logical_sectors_16 as u32
            },
    {
        if self.logical_sectors_16 == 0 {
            self.logical_sectors_32
        } else {
            self.logical_sectors_16 as u32
        }
    }

    /// The sectors per file-allocation table, from whichever of the two
    /// on-disk fields is in use: the 16-bit one unless it is zero.
    pub fn sectors_per_fat(&self) -> (r: u32)
        ensures
            r == if self.sectors_per_fat_16 == 0 {
                self.sectors_per_fat_32
            } else {
                self.sectors_per_fat_16 as u32
            },
    {
        if self.sectors_per_fat_16 == 0 {
            self.sectors_per_fat_32
        } else {
            self.sectors_per_fat_16 as u32
        }
    }

    /// The raw OEM id bytes.
    pub fn oem_id(&self) -> (r: &Vec<u8>)
        ensures
            r == &self.oem_id,
    {
        &self.oem_id
    }

    /// The raw volume label bytes.
    pub fn volume_label(&self) -> (r: &Vec<u8>)
        ensures
            r == &self.volume_label,
    {
        &self.volume_label
    }

    /// The raw system id bytes.
    pub fn system_id(&self) -> (r: &Vec<u8>)
        ensures
            r == &self.system_id,
    {
        &self.system_id
    }
}

/// Copies `len` bytes of `src` starting at `from`.
fn copy_bytes(src: &Vec<u8>, from: usize, len: usize) -> (r: Vec<u8>)
    requires
        from + len <= src@.len(),
    ensures
        r@.len() == len,
        forall|i: int| 0 <= i < len ==> r@[i] == src@[from + i],
{
    let n = src.len();
    let mut v: Vec<u8> = Vec::new();
    let mut i: usize = 0;
    while i < len
        invariant
            n == src@.len(),
            from + len <= n,
            i <= len,
            v@.len() == i,
            forall|j: int| 0 <= j < i ==> v@[j] == src@[from + j],
        decreases len - i,
    {
        v.push(src[from + i]);
        i = i + 1;
    }
    v
}

} // verus!
