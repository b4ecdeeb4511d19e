//! On-disk directory entries: the regular 8.3 entry, the long-file-name
//! entry, and the minimal view shared by both, each decoded from its
//! fixed 32-byte layout.

use vstd::prelude::*;

use crate::fat32::metadata::{Attributes, Date, Metadata, Time, Timestamp};
use crate::fat32::{le16, le32, spec_le16, spec_le32, Cluster};

verus! {

/// A regular (short-name) directory entry.
#[derive(Clone, Debug, PartialEq, Eq)]
pub struct VFatRegularDirEntry {
    pub file_name: Vec<u8>,
    pub file_ext: Vec<u8>,
    pub attributes: Attributes,
    pub created_time_secs: u8,
    pub created_time: Time,
    pub created_date: Date,
    pub accessed_date: Date,
    pub first_cluster_hi: u16,
    pub modified_time: Time,
    pub modified_date: Date,
    pub first_cluster_lo: u16,
    pub size: u32,
}

impl VFatRegularDirEntry {
    /// Name and extension fields have their fixed on-disk lengths.
    pub open spec fn wf(&self) -> bool {
        self.file_name@.len() == 8 && self.file_ext@.len() == 3
    }

    /// Decodes a regular entry from its 32 raw bytes.
    pub fn from(raw: &Vec<u8>) -> (r: VFatRegularDirEntry)
        requires
            raw@.len() == 32,
        ensures
            r.wf(),
            forall|i: int| 0 <= i < 8 ==> r.file_name@[i] == raw@[i],
            forall|i: int| 0 <= i < 3 ==> r.file_ext@[i] == raw@[8 + i],
            r.attributes.0 == raw@[11],
            r.created_time_secs == raw@[13],
            r.created_time.0 == spec_le16(raw@[14], raw@[15]),
            r.created_date.0 == spec_le16(raw@[16], raw@[17]),
            r.accessed_date.0 == spec_le16(raw@[18], raw@[19]),
            r.first_cluster_hi == spec_le16(raw@[20], raw@[21]),
            r.modified_time.0 == spec_le16(raw@[22], raw@[23]),
            r.modified_date.0 == spec_le16(raw@[24], raw@[25]),
            r.first_cluster_lo == spec_le16(raw@[26], raw@[27]),
            r.size == spec_le32(raw@[28], raw@[29], raw@[30], raw@[31]),
    {
        let mut file_name: Vec<u8> = Vec::new();
        let mut i: usize = 0;
        while i < 8
            invariant
                raw@.len() == 32,
                i <= 8,
                file_name@.len() == i,
                forall|j: int| 0 <= j < i ==> file_name@[j] == raw@[j],
            decreases 8 - i,
        {
            file_name.push(raw[i]);
            i = i + 1;
        }
        let mut file_ext: Vec<u8> = Vec::new();
        let mut i: usize = 0;
        while i < 3
            invariant
                raw@.len() == 32,
                i <= 3,
                file_ext@.len() == i,
                forall|j: int| 0 <= j < i ==> file_ext@[j] == raw@[8 + j],
            decreases 3 - i,
        {
            file_ext.push(raw[8 + i]);
            i = i + 1;
        }
        VFatRegularDirEntry {
            file_name,
            file_ext,
            attributes: Attributes(raw[11]),
            created_time_secs: raw[13],
            created_time: Time(le16(raw[14], raw[15])),
            created_date: Date(le16(raw[16], raw[17])),
            accessed_date: Date(le16(raw[18], raw[19])),
            first_cluster_hi: le16(raw[20], raw[21]),
            modified_time: Time(le16(raw[22], raw[23])),
            modified_date: Date(le16(raw[24], raw[25])),
            first_cluster_lo: le16(raw[26], raw[27]),
            size: le32(raw[28], raw[29], raw[30], raw[31]),
        }
    }

    /// The first data cluster of the entry, from its split 16-bit
    /// halves.
    pub fn first_cluster(&self) -> (r: Cluster)
        ensures
            r.0 == self.first_cluster_lo + self.first_cluster_hi * 0x10000,
    {
        Cluster((self.first_cluster_lo as u32) + (self.first_cluster_hi as u32) * 0x10000)
    }

    /// The metadata of this entry: its attributes and its creation,
    /// modification and access timestamps (access time has no on-disk
    /// time-of-day field, so it reads as midnight).
    pub fn metadata(&self) -> (r: Metadata)
        ensures
            r == (Metadata {
                attributes: self.attributes,
                created_ts: Timestamp { date: self.created_date, time: self.created_time },
                modified_ts: Timestamp { date: self.modified_date, time: self.modified_time },
                accessed_ts: Timestamp { date: self.accessed_date, time: Time(0) },
            }),
    {
        Metadata {
            attributes: self.attributes,
            created_ts: Timestamp { date: self.created_date, time: self.created_time },
            modified_ts: Timestamp { date: self.modified_date, time: self.modified_time },
            accessed_ts: Timestamp { date: self.accessed_date, time: Time(0) },
        }
    }
}

/// A long-file-name directory entry: thirteen UTF-16 code units spread
/// over three fields, with a sequence number placing them in the full
/// name.
#[derive(Clone, Debug, PartialEq, Eq)]
pub struct VFatLfnDirEntry {
    pub seq_num: u8,
    pub name0: Vec<u16>,
    pub attributes: Attributes,
    pub entry_type: u8,
    pub name_checksum: u8,
    pub name1: Vec<u16>,
    pub zeroes: u16,
    pub name2: Vec<u16>,
}

impl VFatLfnDirEntry {
    /// The three name fields have their fixed on-disk lengths.
    pub open spec fn wf(&self) -> bool {
        self.name0@.len() == 5 && self.name1@.len() == 6 && self.name2@.len() == 2
    }

    /// Decodes a long-file-name entry from its 32 raw bytes.
    pub fn from(raw: &Vec<u8>) -> (r: VFatLfnDirEntry)
        requires
            raw@.len() == 32,
        ensures
            r.wf(),
            r.seq_num == raw@[0],
            forall|i: int| 0 <= i < 5 ==> r.name0@[i] == spec_le16(raw@[1 + 2 * i], raw@[2 + 2 * i]),
            r.attributes.0 == raw@[11],
            r.entry_type == raw@[12],
            r.name_checksum == raw@[13],
            forall|i: int|
                0 <= i < 6 ==> r.name1@[i] == spec_le16(raw@[14 + 2 * i], raw@[15 + 2 * i]),
            r.zeroes == spec_le16(raw@[26], raw@[27]),
            forall|i: int|
                0 <= i < 2 ==> r.name2@[i] == spec_le16(raw@[28 + 2 * i], raw@[29 + 2 * i]),
    {
        let name0 = copy_u16s(raw, 1, 5);
        let name1 = copy_u16s(raw, 14, 6);
        let name2 = copy_u16s(raw, 28, 2);
        VFatLfnDirEntry {
            seq_num: raw[0],
            name0,
            attributes: Attributes(raw[11]),
            entry_type: raw[12],
            name_checksum: raw[13],
            name1,
            zeroes: le16(raw[26], raw[27]),
            name2,
        }
    }
}

/// The minimal view of a directory entry before its kind is known: its
/// id byte and its attribute byte, which decide whether it ends the
/// directory, is deleted, or is a long-file-name entry.
#[derive(Clone, Copy, Debug, PartialEq, Eq, Structural)]
pub struct VFatUnknownDirEntry {
    pub id: u8,
    pub attributes: Attributes,
}

impl VFatUnknownDirEntry {
    /// Decodes the minimal view from the entry's 32 raw bytes.
    pub fn from(raw: &Vec<u8>) -> (r: VFatUnknownDirEntry)
        requires
            raw@.len() == 32,
        ensures
            r.id == raw@[0],
            r.attributes.0 == raw@[11],
    {
        VFatUnknownDirEntry { id: raw[0], attributes: Attributes(raw[11]) }
    }
}

/// Position of the first terminator byte (NUL or space) of `s`, or its
/// length when there is none.
pub open spec fn spec_name_end(s: Seq<u8>, i: int) -> int
    decreases s.len() - i,
{
    if i < 0 || i >= s.len() {
        s.len() as int
    } else if s[i] == 0x00 || s[i] == 0x20 {
        i
    } else {
        spec_name_end(s, i + 1)
    }
}

/// The display name of a regular entry: the name field up to its first
/// terminator, then — if the extension is nonempty — a dot and the
/// extension up to its first terminator.
pub fn regular_entry_name(regular_entry: &VFatRegularDirEntry) -> (r: Vec<u8>)
    requires
        regular_entry.wf(),
    ensures
        ({
            let name_len = spec_name_end(regular_entry.file_name@, 0);
            let ext_len = spec_name_end(regular_entry.file_ext@, 0);
            if ext_len == 0 {
                r@ =~= regular_entry.file_name@.subrange(0, name_len)
            } else {
                r@ =~= regular_entry.file_name@.subrange(0, name_len) + seq![0x2eu8]
                    + regular_entry.file_ext@.subrange(0, ext_len)
            }
        }),
{
    let name_len = name_end(&regular_entry.file_name);
    let ext_len = name_end(&regular_entry.file_ext);
    let mut r: Vec<u8> = Vec::new();
    let mut i: usize = 0;
    while i < name_len
        invariant
            regular_entry.wf(),
            name_len <= regular_entry.file_name@.len(),
            i <= name_len,
            r@.len() == i,
            forall|j: int| 0 <= j < i ==> r@[j] == regular_entry.file_name@[j],
        decreases name_len - i,
    {
        r.push(regular_entry.file_name[i]);
        i = i + 1;
    }
    if ext_len != 0 {
        r.push(0x2e);
        let mut k: usize = 0;
        while k < ext_len
            invariant
                regular_entry.wf(),
                name_len <= regular_entry.file_name@.len(),
                ext_len <= regular_entry.file_ext@.len(),
                k <= ext_len,
                r@.len() == name_len + 1 + k,
                forall|j: int| 0 <= j < name_len ==> r@[j] == regular_entry.file_name@[j],
                r@[name_len as int] == 0x2e,
                forall|j: int|
                    0 <= j < k ==> r@[name_len + 1 + j] == regular_entry.file_ext@[j],
            decreases ext_len - k,
        {
            r.push(regular_entry.file_ext[k]);
            k = k + 1;
        }
    }
    r
}

/// Finds the first terminator byte (NUL or space) of a name field.
fn name_end(s: &Vec<u8>) -> (r: usize)
    ensures
        r == spec_name_end(s@, 0),
        r <= s@.len(),
{
    let n = s.len();
    let mut i: usize = 0;
    while i < n
        invariant
            n == s@.len(),
            i <= n,
            spec_name_end(s@, 0) == spec_name_end(s@, i as int),
        decreases n - i,
    {
        if s[i] == 0x00 || s[i] == 0x20 {
            return i;
        }
        i = i + 1;
    }
    n
}

/// Copies `len` little-endian 16-bit values of `src` starting at byte
/// `from`.
fn copy_u16s(src: &Vec<u8>, from: usize, len: usize) -> (r: Vec<u16>)
    requires
        from + 2 * len <= src@.len(),
    ensures
        r@.len() == len,
        forall|i: int| 0 <= i < len ==> r@[i] == spec_le16(src@[from + 2 * i], src@[from + 2 * i + 1]),
{
    let n = src.len();
    let mut v: Vec<u16> = Vec::new();
    let mut i: usize = 0;
    while i < len
        invariant
            n == src@.len(),
            from + 2 * len <= n,
            i <= len,
            v@.len() == i,
            forall|j: int|
                0 <= j < i ==> v@[j] == spec_le16(src@[from + 2 * j], src@[from + 2 * j + 1]),
        decreases len - i,
    {
        v.push(le16(src[from + 2 * i], src[from + 2 * i + 1]));
        i = i + 1;
    }
    v
}

} // verus!
