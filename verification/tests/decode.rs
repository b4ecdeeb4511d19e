//! On-disk structure decoding, the slice-backed vector, boot tags, the
//! bin arithmetic, command parsing, and the alignment helpers.

use kernos::allocator::{bin_index_size, map_size_bin, Allocator, BINS_LEN};
use kernos::atags::{Atag, Core, Mem};
use kernos::fat32::dirent::{regular_entry_name, VFatLfnDirEntry, VFatRegularDirEntry,
    VFatUnknownDirEntry};
use kernos::fat32::ebpb::BiosParameterBlock;
use kernos::fat32::fat::{FatEntry, Status};
use kernos::fat32::mbr::{split_sector_cylinder, Error, MasterBootRecord, CHS};
use kernos::fat32::metadata::{Attributes, Date, Metadata, Time, Timestamp};
use kernos::fat32::partition::{BlockDevicePartition, Partition};
use kernos::fat32::Cluster;
use kernos::shell::{Command, LineAction, LineEditor, ParseError};
use kernos::stack_vec::StackVec;
use kernos::util::{align_down, align_up};

#[test]
fn align_rounds_to_the_nearest_multiple() {
    assert_eq!(align_down(0x1234, 0x1000), 0x1000);
    assert_eq!(align_down(0x1000, 0x1000), 0x1000);
    assert_eq!(align_down(7, 1), 7);
    assert_eq!(align_up(0x1234, 0x1000), 0x2000);
    assert_eq!(align_up(0x1000, 0x1000), 0x1000);
    assert_eq!(align_up(0, 16), 0);
}

#[test]
fn date_and_time_unpack_their_fields() {
    // 2005-09-23: (2005-1980) << 9 | 9 << 5 | 23.
    let d = Date::from((25 << 9) | (9 << 5) | 23);
    assert_eq!(d.year(), 2005);
    assert_eq!(d.month(), 9);
    assert_eq!(d.day(), 23);
    // 13:37:42 stored as two-second units.
    let t = Time::from((13 << 11) | (37 << 5) | 21);
    assert_eq!(t.hour(), 13);
    assert_eq!(t.minute(), 37);
    assert_eq!(t.second(), 42);
}

#[test]
fn attribute_bits_decode_individually() {
    let a = Attributes::from(0x01 | 0x10);
    assert!(a.read_only());
    assert!(!a.hidden());
    assert!(!a.system());
    assert!(!a.volume_id());
    assert!(a.directory());
    assert!(!a.archive());
    assert!(!a.lfn());
    assert_eq!(a.raw(), 0x11);
    // The long-file-name marker is all four low bits together.
    assert!(Attributes::from(0x0f).lfn());
    assert!(!Attributes::from(0x07).lfn());
}

#[test]
fn metadata_exposes_timestamps() {
    let ts = Timestamp { date: Date::from(23 | (1 << 5) | (44 << 9)), time: Time::from(0) };
    let m = Metadata {
        attributes: Attributes::from(0x02),
        created_ts: ts,
        modified_ts: ts,
        accessed_ts: ts,
    };
    assert!(m.hidden());
    assert!(!m.read_only());
    assert_eq!(m.created().year(), 2024);
    assert_eq!(m.modified().month(), 1);
    assert_eq!(m.accessed().day(), 23);
    assert_eq!(ts.hour(), 0);
    assert_eq!(ts.minute(), 0);
    assert_eq!(ts.second(), 0);
}

#[test]
fn sector_cylinder_splits_the_packed_word() {
    // sector 5, cylinder 0x2ac.
    let v: u16 = 5 | (0x2ac << 6);
    let bytes = [(v & 0xff) as u8, (v >> 8) as u8];
    assert_eq!(split_sector_cylinder(bytes), (5, 0x2ac));
    let chs = CHS { head: 1, sector_cylinder: bytes };
    assert_eq!(chs.sector_cylinder(), (5, 0x2ac));
}

fn boot_sector() -> Vec<u8> {
    let mut s = vec![0u8; 512];
    s[510] = 0x55;
    s[511] = 0xaa;
    // Partition 0: bootable FAT32 at sector 2048, 65536 sectors.
    let base = 446;
    s[base] = 0x80;
    s[base + 4] = 0x0c;
    s[base + 8..base + 12].copy_from_slice(&2048u32.to_le_bytes());
    s[base + 12..base + 16].copy_from_slice(&65536u32.to_le_bytes());
    s
}

#[test]
fn mbr_parses_the_partition_table() {
    let s = boot_sector();
    let mbr = MasterBootRecord::from(&s).unwrap();
    assert_eq!(mbr.partition_table.len(), 4);
    let p0 = &mbr.partition_table[0];
    assert_eq!(p0.boot_indicator, 0x80);
    assert_eq!(p0.partition_type, 0x0c);
    assert_eq!(p0.relative_sector, 2048);
    assert_eq!(p0.total_sectors, 65536);
    assert_eq!(mbr.signature, [0x55, 0xaa]);
}

#[test]
fn mbr_rejects_bad_signature_and_boot_indicator() {
    let mut s = boot_sector();
    s[511] = 0;
    assert_eq!(MasterBootRecord::from(&s), Err(Error::BadSignature));
    let mut s = boot_sector();
    s[446 + 16] = 0x7f;
    assert_eq!(MasterBootRecord::from(&s), Err(Error::UnknownBootIndicator(1)));
}

fn ebpb_sector() -> Vec<u8> {
    let mut s = vec![0u8; 512];
    s[3..11].copy_from_slice(b"MSWIN4.1");
    s[11..13].copy_from_slice(&512u16.to_le_bytes());
    s[13] = 8;
    s[14..16].copy_from_slice(&32u16.to_le_bytes());
    s[16] = 2;
    s[32..36].copy_from_slice(&1_000_000u32.to_le_bytes());
    s[36..40].copy_from_slice(&981u32.to_le_bytes());
    s[44..48].copy_from_slice(&2u32.to_le_bytes());
    s[66] = 0x29;
    s
}

#[test]
fn ebpb_parses_the_volume_geometry() {
    let s = ebpb_sector();
    let e = BiosParameterBlock::from(&s).unwrap();
    assert_eq!(e.oem_id(), b"MSWIN4.1");
    assert_eq!(e.bytes_per_sector, 512);
    assert_eq!(e.sectors_per_cluster, 8);
    assert_eq!(e.reserved_sectors, 32);
    assert_eq!(e.fats, 2);
    assert_eq!(e.logical_sectors(), 1_000_000);
    assert_eq!(e.sectors_per_fat(), 981);
    assert_eq!(e.rootdir_cluster, 2);
    assert_eq!(e.signature, 0x29);
}

#[test]
fn ebpb_prefers_the_sixteen_bit_fields_when_set() {
    let mut s = ebpb_sector();
    s[19..21].copy_from_slice(&1234u16.to_le_bytes());
    s[22..24].copy_from_slice(&55u16.to_le_bytes());
    let e = BiosParameterBlock::from(&s).unwrap();
    assert_eq!(e.logical_sectors(), 1234);
    assert_eq!(e.sectors_per_fat(), 55);
}

#[test]
fn ebpb_rejects_a_bad_signature() {
    let mut s = ebpb_sector();
    s[66] = 0x30;
    assert!(BiosParameterBlock::from(&s).is_err());
}

#[test]
fn fat_entry_status_covers_every_class() {
    assert_eq!(FatEntry(0).status(), Status::Free);
    assert_eq!(FatEntry(1).status(), Status::Reserved);
    assert_eq!(FatEntry(2).status(), Status::Data(Cluster::from(2)));
    assert_eq!(FatEntry(0x0fff_ffef).status(), Status::Data(Cluster::from(0x0fff_ffef)));
    assert_eq!(FatEntry(0x0fff_fff0).status(), Status::Data(Cluster::from(0x0fff_fff0)));
    assert_eq!(FatEntry(0x0fff_fff6).status(), Status::Reserved);
    assert_eq!(FatEntry(0x0fff_fff7).status(), Status::Bad);
    assert_eq!(FatEntry(0x0fff_fff8).status(), Status::Eoc(0x0fff_fff8));
    assert_eq!(FatEntry(0xffff_ffff).status(), Status::Eoc(0x0fff_ffff));
    assert_eq!(Cluster::from(9).raw(), 9);
}

#[test]
fn partition_maps_logical_to_physical_sectors() {
    let p = Partition { start: 2048, num_sectors: 100, sector_size: 1024 };
    let d = BlockDevicePartition::new(512, p);
    assert_eq!(d.factor(), 2);
    assert_eq!(d.virtual_to_physical(0), Some(2048));
    assert_eq!(d.virtual_to_physical(3), Some(2054));
    assert_eq!(d.virtual_to_physical(99), Some(2048 + 198));
    assert_eq!(d.virtual_to_physical(100), None);
}

fn regular_raw() -> Vec<u8> {
    let mut raw = vec![0u8; 32];
    raw[..8].copy_from_slice(b"README  ");
    raw[8..11].copy_from_slice(b"MD ");
    raw[11] = 0x20;
    raw[20..22].copy_from_slice(&3u16.to_le_bytes());
    raw[26..28].copy_from_slice(&0x0102u16.to_le_bytes());
    raw[28..32].copy_from_slice(&4096u32.to_le_bytes());
    raw
}

#[test]
fn regular_entry_decodes_cluster_and_name() {
    let e = VFatRegularDirEntry::from(&regular_raw());
    assert_eq!(e.first_cluster().raw(), 0x0102 | (3 << 16));
    assert_eq!(e.size, 4096);
    assert!(e.attributes.archive());
    assert_eq!(regular_entry_name(&e), b"README.MD".to_vec());
    let md = e.metadata();
    assert_eq!(md.attributes.raw(), 0x20);
}

#[test]
fn regular_entry_name_drops_an_empty_extension() {
    let mut raw = regular_raw();
    raw[8..11].copy_from_slice(b"   ");
    let e = VFatRegularDirEntry::from(&raw);
    assert_eq!(regular_entry_name(&e), b"README".to_vec());
}

#[test]
fn lfn_and_unknown_entries_decode() {
    let mut raw = vec![0u8; 32];
    raw[0] = 0x41;
    raw[11] = 0x0f;
    raw[1..3].copy_from_slice(&(b'h' as u16).to_le_bytes());
    let l = VFatLfnDirEntry::from(&raw);
    assert_eq!(l.seq_num, 0x41);
    assert!(l.attributes.lfn());
    assert_eq!(l.name0[0], b'h' as u16);
    let u = VFatUnknownDirEntry::from(&raw);
    assert_eq!(u.id, 0x41);
    assert!(u.attributes.lfn());
}

#[test]
fn stack_vec_respects_its_capacity() {
    let mut v = StackVec::new(vec![0u8; 3]);
    assert_eq!(v.capacity(), 3);
    assert!(v.is_empty());
    assert_eq!(v.push(10), Ok(()));
    assert_eq!(v.push(20), Ok(()));
    assert_eq!(v.push(30), Ok(()));
    assert!(v.is_full());
    assert_eq!(v.push(40), Err(()));
    assert_eq!(v.len(), 3);
    assert_eq!(*v.get(1), 20);
    assert_eq!(v.pop(), Some(30));
    assert_eq!(v.pop(), Some(20));
    assert_eq!(v.len(), 1);
    // Popping never shrinks the capacity.
    assert_eq!(v.capacity(), 3);
    assert_eq!(v.pop(), Some(10));
    assert_eq!(v.pop(), None);
}

#[test]
fn stack_vec_truncate_and_into_slice() {
    let mut v = StackVec::with_len(vec![1u8, 2, 3, 4], 4);
    v.truncate(10);
    assert_eq!(v.len(), 4);
    v.truncate(2);
    assert_eq!(v.len(), 2);
    assert_eq!(v.into_slice(), vec![1, 2]);
}

#[test]
fn atag_accessors_match_their_variant() {
    let core = Core { flags: 1, page_size: 4096, root_dev: 0 };
    let mem = Mem { size: 0x1000_0000, start: 0 };
    assert_eq!(Atag::Core(core).core_tag(), Some(core));
    assert_eq!(Atag::Mem(mem).core_tag(), None);
    assert_eq!(Atag::Mem(mem).mem(), Some(mem));
    assert_eq!(Atag::Core(core).mem(), None);
    assert_eq!(Atag::Cmd(b"console=tty0".to_vec()).cmd(), Some(b"console=tty0".to_vec()));
    assert_eq!(Atag::Unknown(7).cmd(), None);
    assert_eq!(Atag::End.mem(), None);
}

#[test]
fn bin_sizes_double_from_eight_bytes() {
    assert_eq!(bin_index_size(0), 8);
    assert_eq!(bin_index_size(1), 16);
    assert_eq!(bin_index_size(29), 1 << 32);
    assert_eq!(map_size_bin(1), (0, 8));
    assert_eq!(map_size_bin(8), (0, 8));
    assert_eq!(map_size_bin(9), (1, 16));
    assert_eq!(map_size_bin(4096), (9, 4096));
    // A request too large for any bin lands in the largest.
    assert_eq!(map_size_bin(1 << 33), (BINS_LEN - 1, 1 << 32));
    let a = Allocator::new(0x1000, 0x9000);
    assert_eq!(a.start, 0x1000);
    assert_eq!(a.end, 0x9000);
    assert_eq!(a.bins.len(), BINS_LEN);
}

#[test]
fn command_parse_splits_arguments() {
    let c = Command::parse(&b"cat  /a/b.txt".to_vec(), 64).unwrap();
    assert_eq!(c.args.len(), 2);
    assert_eq!(c.path(), &b"cat".to_vec());
    assert_eq!(c.args[1], b"/a/b.txt".to_vec());
}

#[test]
fn command_parse_rejects_empty_and_overfull_lines() {
    assert_eq!(Command::parse(&b"   ".to_vec(), 64), Err(ParseError::Empty));
    assert_eq!(Command::parse(&Vec::new(), 64), Err(ParseError::Empty));
    assert_eq!(Command::parse(&b"a b c".to_vec(), 2), Err(ParseError::TooManyArgs));
}

#[test]
fn stack_vec_as_slice_shows_the_live_prefix() {
    let mut v = StackVec::new(vec![0u8; 4]);
    v.push(7).unwrap();
    v.push(8).unwrap();
    assert_eq!(v.as_slice(), &[7, 8]);
}

#[test]
fn stack_vec_set_overwrites_a_live_element() {
    let mut v = StackVec::with_len(vec![1u8, 2, 3], 3);
    v.set(1, 9);
    assert_eq!(v.as_slice(), &[1, 9, 3]);
    assert_eq!(v.len(), 3);
    assert_eq!(v.capacity(), 3);
}

#[test]
fn line_editor_echoes_erases_and_submits() {
    let mut ed = LineEditor::new(3);
    assert_eq!(ed.handle_byte(b'l'), LineAction::Echo(vec![b'l']));
    assert_eq!(ed.handle_byte(b's'), LineAction::Echo(vec![b's']));
    assert_eq!(ed.line_bytes(), &b"ls".to_vec());
    // Backspace erases the last byte on screen and in the buffer.
    assert_eq!(ed.handle_byte(0x7f), LineAction::Echo(vec![0x08, 0x20, 0x08]));
    assert_eq!(ed.line_bytes(), &b"l".to_vec());
    // Backspace on an empty line does nothing.
    let mut empty = LineEditor::new(3);
    assert_eq!(empty.handle_byte(0x08), LineAction::Ignore);
    // A full buffer swallows further printable bytes.
    let mut full = LineEditor::new(1);
    assert_eq!(full.handle_byte(b'x'), LineAction::Echo(vec![b'x']));
    assert_eq!(full.handle_byte(b'y'), LineAction::Ignore);
    assert_eq!(full.line_bytes(), &b"x".to_vec());
    // Non-visible input rings the bell; line ends submit.
    assert_eq!(ed.handle_byte(0x1b), LineAction::Bell);
    assert_eq!(ed.handle_byte(b'\r'), LineAction::Submit);
    assert_eq!(ed.handle_byte(b'\n'), LineAction::Submit);
    ed.clear();
    assert!(ed.line_bytes().is_empty());
}
