//! Dates, times, attributes and metadata as represented in FAT32
//! on-disk directory entries.

use vstd::prelude::*;

verus! {

/// A date as represented in FAT32 on-disk structures: day in the low
/// five bits, month in the next four, years since 1980 in the top seven.
#[derive(Default, Debug, Copy, Clone, PartialEq, Eq, Structural)]
pub struct Date(pub u16);

impl Date {
    /// Wraps a raw on-disk date value.
    pub fn from(d: u16) -> (r: Date)
        ensures
            r.0 == d,
    {
        Date(d)
    }

    /// Day of the month.
    pub fn day(&self) -> (r: u8)
        ensures
            r == (self.0 & 0x1f) as u8,
    {
        (self.0 & 0x1f) as u8
    }

    /// Month of the year.
    pub fn month(&self) -> (r: u8)
        ensures
            r == ((self.0 & 0x1e0) / 0x20) as u8,
    {
        ((self.0 & 0x1e0) / 0x20) as u8
    }

    /// Calendar year.
    pub fn year(&self) -> (r: usize)
        ensures
            r == 1980 + ((self.0 & 0xfe00) / 0x200) as usize,
    {
        1980 + ((self.0 & 0xfe00) / 0x200) as usize
    }
}

/// Time as represented in FAT32 on-disk structures: two-second units in
/// the low five bits, minutes in the next six, hours in the top five.
#[derive(Default, Debug, Copy, Clone, PartialEq, Eq, Structural)]
pub struct Time(pub u16);

impl Time {
    /// Wraps a raw on-disk time value.
    pub fn from(t: u16) -> (r: Time)
        ensures
            r.0 == t,
    {
        Time(t)
    }

    /// Second of the minute (even values only: the field counts
    /// two-second units).
    pub fn second(&self) -> (r: u8)
        ensures
            r == ((self.0 & 0x1f) * 2) as u8,
    {
        proof {
            let v = self.0;
            assert(v & 0x1f < 0x20) by (bit_vector);
        }
        ((self.0 & 0x1f) * 2) as u8
    }

    /// Minute of the hour.
    pub fn minute(&self) -> (r: u8)
        ensures
            r == ((self.0 & 0x7e0) / 0x20) as u8,
    {
        ((self.0 & 0x7e0) / 0x20) as u8
    }

    /// Hour of the day.
    pub fn hour(&self) -> (r: u8)
        ensures
            r == ((self.0 & 0xf800) / 0x800) as u8,
    {
        ((self.0 & 0xf800) / 0x800) as u8
    }
}

/// Attribute bit: read-only.
pub const ATTR_READ_ONLY: u8 = 0x01;

/// Attribute bit: hidden.
pub const ATTR_HIDDEN: u8 = 0x02;

/// Attribute bit: system.
pub const ATTR_SYSTEM: u8 = 0x04;

/// Attribute bit: volume id.
pub const ATTR_VOLUME_ID: u8 = 0x08;

/// Attribute bit: directory.
pub const ATTR_DIRECTORY: u8 = 0x10;

/// Attribute bit: archive.
pub const ATTR_ARCHIVE: u8 = 0x20;

/// The attribute combination marking a long-file-name entry: read-only,
/// hidden, system and volume id together.
pub const ATTR_LFN: u8 = 0x0f;

/// File attributes as represented in FAT32 on-disk structures.
#[derive(Default, Debug, Copy, Clone, PartialEq, Eq, Structural)]
pub struct Attributes(pub u8);

impl Attributes {
    /// Wraps a raw on-disk attribute byte.
    pub fn from(a: u8) -> (r: Attributes)
        ensures
            r.0 == a,
    {
        Attributes(a)
    }

    /// The raw attribute byte.
    pub fn raw(&self) -> (r: u8)
        ensures
            r == self.0,
    {
        self.0
    }

    /// True when the read-only bit is set.
    pub fn read_only(&self) -> (r: bool)
        ensures
            r == (self.0 & ATTR_READ_ONLY != 0),
    {
        self.0 & ATTR_READ_ONLY != 0
    }

    /// True when the hidden bit is set.
    pub fn hidden(&self) -> (r: bool)
        ensures
            r == (self.0 & ATTR_HIDDEN != 0),
    {
        self.0 & ATTR_HIDDEN != 0
    }

    /// True when the system bit is set.
    pub fn system(&self) -> (r: bool)
        ensures
            r == (self.0 & ATTR_SYSTEM != 0),
    {
        self.0 & ATTR_SYSTEM != 0
    }

    /// True when the volume-id bit is set.
    pub fn volume_id(&self) -> (r: bool)
        ensures
            r == (self.0 & ATTR_VOLUME_ID != 0),
    {
        self.0 & ATTR_VOLUME_ID != 0
    }

    /// True when the directory bit is set.
    pub fn directory(&self) -> (r: bool)
        ensures
            r == (self.0 & ATTR_DIRECTORY != 0),
    {
        self.0 & ATTR_DIRECTORY != 0
    }

    /// True when the archive bit is set.
    pub fn archive(&self) -> (r: bool)
        ensures
            r == (self.0 & ATTR_ARCHIVE != 0),
    {
        self.0 & ATTR_ARCHIVE != 0
    }

    /// True when all four long-file-name marker bits are set.
    pub fn lfn(&self) -> (r: bool)
        ensures
            r == (self.0 & ATTR_LFN == ATTR_LFN),
    {
        self.0 & ATTR_LFN == ATTR_LFN
    }
}

/// A date and time together.
#[derive(Default, Debug, Copy, Clone, PartialEq, Eq, Structural)]
pub struct Timestamp {
    pub date: Date,
    pub time: Time,
}

impl Timestamp {
    /// Calendar year.
    pub fn year(&self) -> (r: usize)
        ensures
            r == 1980 + ((self.date.0 & 0xfe00) / 0x200) as usize,
    {
        self.date.year()
    }

    /// Month of the year.
    pub fn month(&self) -> (r: u8)
        ensures
            r == ((self.date.0 & 0x1e0) / 0x20) as u8,
    {
        self.date.month()
    }

    /// Day of the month.
    pub fn day(&self) -> (r: u8)
        ensures
            r == (self.date.0 & 0x1f) as u8,
    {
        self.date.day()
    }

    /// Hour of the day.
    pub fn hour(&self) -> (r: u8)
        ensures
            r == ((self.time.0 & 0xf800) / 0x800) as u8,
    {
        self.time.hour()
    }

    /// Minute of the hour.
    pub fn minute(&self) -> (r: u8)
        ensures
            r == ((self.time.0 & 0x7e0) / 0x20) as u8,
    {
        self.time.minute()
    }

    /// Second of the minute.
    pub fn second(&self) -> (r: u8)
        ensures
            r == ((self.time.0 & 0x1f) * 2) as u8,
    {
        self.time.second()
    }
}

/// Metadata of a directory entry: its attributes and its creation,
/// modification and access timestamps.
#[derive(Default, Debug, Clone, PartialEq, Eq, Structural)]
pub struct Metadata {
    pub attributes: Attributes,
    pub created_ts: Timestamp,
    pub modified_ts: Timestamp,
    pub accessed_ts: Timestamp,
}

impl Metadata {
    /// True when the entry is read-only.
    pub fn read_only(&self) -> (r: bool)
        ensures
            r == (self.attributes.0 & ATTR_READ_ONLY != 0),
    {
        self.attributes.read_only()
    }

    /// True when the entry is hidden.
    pub fn hidden(&self) -> (r: bool)
        ensures
            r == (self.attributes.0 & ATTR_HIDDEN != 0),
    {
        self.attributes.hidden()
    }

    /// When the entry was created.
    pub fn created(&self) -> (r: Timestamp)
        ensures
            r == self.created_ts,
    {
        self.created_ts
    }

    /// When the entry was last accessed.
    pub fn accessed(&self) -> (r: Timestamp)
        ensures
            r == self.accessed_ts,
    {
        self.accessed_ts
    }

    /// When the entry was last modified.
    pub fn modified(&self) -> (r: Timestamp)
        ensures
            r == self.modified_ts,
    {
        self.modified_ts
    }
}

} // verus!
