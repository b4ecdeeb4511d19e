//! Boot tags: the records the firmware leaves in memory describing the
//! core, the memory map, and the kernel command line.

use vstd::prelude::*;

verus! {

/// The core boot tag: flags, page size, and the root device.
#[derive(Debug, Copy, Clone, PartialEq, Eq, Structural)]
pub struct Core {
    pub flags: u32,
    pub page_size: u32,
    pub root_dev: u32,
}

/// The memory boot tag: the size and start of one memory region.
#[derive(Debug, Copy, Clone, PartialEq, Eq, Structural)]
pub struct Mem {
    pub size: u32,
    pub start: u32,
}

/// One decoded boot tag.
#[derive(Debug, Clone, PartialEq, Eq)]
pub enum Atag {
    Core(Core),
    Mem(Mem),
    Cmd(Vec<u8>),
    Unknown(u32),
    End,
}

impl Atag {
    /// The payload if this is a `Core` tag, and `None` otherwise.
    pub fn core_tag(self) -> (r: Option<Core>)
        ensures
            r == match self {
                Atag::Core(core) => Some(core),
                _ => None::<Core>,
            },
    {
        match self {
            Atag::Core(core) => Some(core),
            _ => None,
        }
    }

    /// The payload if this is a `Mem` tag, and `None` otherwise.
    pub fn mem(self) -> (r: Option<Mem>)
        ensures
            r == match self {
                Atag::Mem(mem) => Some(mem),
                _ => None::<Mem>,
            },
    {
        match self {
            Atag::Mem(mem) => Some(mem),
            _ => None,
        }
    }

    /// The command-line bytes if this is a `Cmd` tag, and `None`
    /// otherwise.
    pub fn cmd(self) -> (r: Option<Vec<u8>>)
        ensures
            match self {
                Atag::Cmd(cmd) => r == Some(cmd),
                _ => r is None,
            },
    {
        match self {
            Atag::Cmd(cmd) => Some(cmd),
            _ => None,
        }
    }
}

} // verus!
