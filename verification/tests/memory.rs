//! Physical memory, page tables, and the loader.

use kernos::pagetable::{
    KernPageTable, L3Entry, PagePerm, PageTable, UserPageTable, VmError, AP_KERN_RW, AP_USER_RW,
    ATTR_DEV, ATTR_MEM, SH_INNER, SH_OUTER,
};
use kernos::param::{IO_BASE, PAGE_SIZE, USER_IMG_BASE};
use kernos::pmem::PageAllocator;
use kernos::process::{Process, USER_STACK_BASE};

const BASE: u64 = 0x100_0000;
const PS: u64 = PAGE_SIZE as u64;

#[test]
fn allocator_hands_out_distinct_zeroed_frames() {
    let mut a = PageAllocator::new(BASE, 3);
    assert_eq!(a.free_count(), 3);
    let f1 = a.alloc_page().unwrap();
    let f2 = a.alloc_page().unwrap();
    let f3 = a.alloc_page().unwrap();
    assert!(f1 != f2 && f1 != f3 && f2 != f3);
    assert_eq!(a.free_count(), 0);
    assert_eq!(a.alloc_page(), None);
    assert_eq!(a.read_byte(f1, 0), 0);
    assert_eq!(a.read_byte(f2, PAGE_SIZE - 1), 0);
    a.dealloc_page(f2);
    assert_eq!(a.free_count(), 1);
    let f4 = a.alloc_page().unwrap();
    assert_eq!(f4, f2);
}

#[test]
fn written_bytes_read_back_through_the_same_frame() {
    let mut a = PageAllocator::new(BASE, 2);
    let f = a.alloc_page().unwrap();
    let data = vec![1u8, 2, 3, 4, 5];
    a.write_range(f, 10, &data, 1, 3);
    assert_eq!(a.read_byte(f, 9), 0);
    assert_eq!(a.read_byte(f, 10), 2);
    assert_eq!(a.read_byte(f, 11), 3);
    assert_eq!(a.read_byte(f, 12), 4);
    assert_eq!(a.read_byte(f, 13), 0);
}

#[test]
fn entry_packing_follows_the_descriptor_layout() {
    let e = L3Entry::new_page(0x2_0000, SH_INNER, AP_KERN_RW, ATTR_MEM);
    // valid | table | ap 0b00 at 7:6 | inner-shareable at 9:8 | access
    // flag at 10 | address bits.
    assert_eq!(e.packed(), 0x2_0000 | 0x400 | (0b11 << 8) | 0b11);
    let dev = L3Entry::new_page(0x3f00_0000, SH_OUTER, AP_KERN_RW, ATTR_DEV);
    assert_eq!(dev.packed(), 0x3f00_0000 | 0x400 | (0b10 << 8) | (1 << 2) | 0b11);
    assert_eq!(L3Entry::invalid().packed(), 0);
}

#[test]
fn fresh_user_table_has_every_page_invalid() {
    let mut a = PageAllocator::new(BASE, 8);
    let upt = UserPageTable::new(&mut a);
    for va in [
        USER_IMG_BASE,
        USER_IMG_BASE + PS,
        USER_IMG_BASE + 4096 * PS,
        USER_STACK_BASE,
    ] {
        assert!(upt.is_invalid(va));
        assert!(!upt.is_valid(va));
        assert_eq!(upt.get_page_addr(va), None);
    }
}

#[test]
fn alloc_maps_the_page_and_only_that_page() {
    let mut a = PageAllocator::new(BASE, 8);
    let mut upt = UserPageTable::new(&mut a);
    let va = USER_IMG_BASE + 2 * PS;
    let pa = upt.alloc_page(va, PagePerm::RW, &mut a).unwrap();
    assert!(upt.is_valid(va));
    assert_eq!(upt.get_page_addr(va), Some(pa));
    assert!(upt.is_invalid(USER_IMG_BASE));
    assert!(upt.is_invalid(va + PS));

    // Write/read coherency: bytes stored through the mapped frame are
    // the bytes reachable through the physical address the table holds.
    let payload = vec![0xab_u8, 0xcd];
    a.write_range(pa, 0, &payload, 0, 2);
    let through_table = upt.get_page_addr(va).unwrap();
    assert_eq!(a.read_byte(through_table, 0), 0xab);
    assert_eq!(a.read_byte(through_table, 1), 0xcd);
}

#[test]
fn alloc_refuses_double_mapping_and_bad_addresses() {
    let mut a = PageAllocator::new(BASE, 8);
    let mut upt = UserPageTable::new(&mut a);
    let va = USER_IMG_BASE;
    assert!(upt.alloc_page(va, PagePerm::RWX, &mut a).is_ok());
    // The second mapping of the same address fails.
    assert_eq!(upt.alloc_page(va, PagePerm::RWX, &mut a), Err(VmError::AlreadyMapped));
    // An address below the image base fails.
    assert_eq!(
        upt.alloc_page(USER_IMG_BASE - PS, PagePerm::RW, &mut a),
        Err(VmError::BelowImageBase)
    );
    // A misaligned address fails.
    assert_eq!(upt.alloc_page(va + 8, PagePerm::RW, &mut a), Err(VmError::Misaligned));
}

#[test]
fn alloc_reports_exhaustion() {
    let mut a = PageAllocator::new(BASE, 3);
    let mut upt = UserPageTable::new(&mut a);
    assert_eq!(a.free_count(), 0);
    assert_eq!(
        upt.alloc_page(USER_IMG_BASE, PagePerm::RW, &mut a),
        Err(VmError::NoMemory)
    );
}

#[test]
fn teardown_returns_every_frame() {
    let mut a = PageAllocator::new(BASE, 8);
    let before = a.free_count();
    let mut upt = UserPageTable::new(&mut a);
    upt.alloc_page(USER_IMG_BASE, PagePerm::RWX, &mut a).unwrap();
    upt.alloc_page(USER_STACK_BASE, PagePerm::RW, &mut a).unwrap();
    assert_eq!(a.free_count(), before - 5);
    upt.teardown(&mut a);
    assert_eq!(a.free_count(), before);
}

#[test]
fn locate_splits_the_window_offset() {
    assert_eq!(PageTable::locate(0), (0, 0));
    assert_eq!(PageTable::locate(PS), (0, 1));
    assert_eq!(PageTable::locate(0x2000_0000), (1, 0));
    assert_eq!(PageTable::locate(0x3fff_0000), (1, 8191));
}

#[test]
fn kernel_table_maps_ram_normal_and_devices_ordered() {
    let mut a = PageAllocator::new(BASE, 4);
    let kpt = KernPageTable::new(&mut a, 0x20_0000);
    let t = &kpt.0;
    // RAM below mem_end: identity-mapped, normal memory, inner
    // shareable.
    assert!(t.is_valid(0));
    assert!(t.is_valid(0x10_0000));
    let e = t.get_entry(0x10_0000);
    assert_eq!(e.addr, 0x10_0000);
    assert_eq!(e.attr, ATTR_MEM);
    assert_eq!(e.sh, SH_INNER);
    assert_eq!(e.ap, AP_KERN_RW);
    // Between RAM and the peripheral window: unmapped.
    assert!(t.is_invalid(0x20_0000));
    assert!(t.is_invalid(0x1000_0000));
    // The peripheral window: identity-mapped, device memory, outer
    // shareable.
    let d = t.get_entry(IO_BASE);
    assert!(d.valid);
    assert_eq!(d.addr, IO_BASE);
    assert_eq!(d.attr, ATTR_DEV);
    assert_eq!(d.sh, SH_OUTER);
    assert_eq!(t.get_baddr(), kpt.get_baddr());
}

#[test]
fn top_level_links_carry_the_requested_permission() {
    let mut a = PageAllocator::new(BASE, 8);
    // The kernel table links its leaf tables privileged read/write...
    let kpt = KernPageTable::new(&mut a, 0x20_0000);
    for (i, link) in kpt.0.l2.entries[..2].iter().enumerate() {
        assert!(link.valid);
        assert!(link.af);
        assert_eq!(link.addr, kpt.0.l3[i].as_ptr());
        assert_eq!(link.sh, SH_INNER);
        assert_eq!(link.ap, AP_KERN_RW);
        assert_eq!(link.attr, ATTR_MEM);
    }
    assert!(!kpt.0.l2.entries[2].valid);
    // ...and a user table links them user read/write.
    let upt = UserPageTable::new(&mut a);
    for (i, link) in upt.0.l2.entries[..2].iter().enumerate() {
        assert!(link.valid);
        assert!(link.af);
        assert_eq!(link.addr, upt.0.l3[i].as_ptr());
        assert_eq!(link.sh, SH_INNER);
        assert_eq!(link.ap, AP_USER_RW);
        assert_eq!(link.attr, ATTR_MEM);
    }
}

#[test]
fn load_copies_the_image_and_zero_fills_the_tail() {
    let mut a = PageAllocator::new(BASE, 16);
    let kern_baddr = 0x8_0000;
    let mut image = vec![0u8; PAGE_SIZE + 3];
    for (i, b) in image.iter_mut().enumerate() {
        *b = (i % 251) as u8;
    }
    let p = Process::load(&image, kern_baddr, &mut a).unwrap();
    assert_eq!(p.context.ttbr0, kern_baddr);
    assert_eq!(p.context.ttbr1, p.vmap.get_baddr());
    assert_eq!(p.context.tpidr, 0);

    // Two image pages and the stack page are mapped.
    let pa0 = p.vmap.get_page_addr(USER_IMG_BASE).unwrap();
    let pa1 = p.vmap.get_page_addr(USER_IMG_BASE + PS).unwrap();
    let pa_stack = p.vmap.get_page_addr(USER_STACK_BASE).unwrap();
    assert!(p.vmap.is_invalid(USER_IMG_BASE + 2 * PS));

    // The image bytes landed where the table points, the partial page is
    // zero past the image end, and the stack page is zeroed.
    assert_eq!(a.read_byte(pa0, 0), image[0]);
    assert_eq!(a.read_byte(pa0, 1000), image[1000]);
    assert_eq!(a.read_byte(pa1, 0), image[PAGE_SIZE]);
    assert_eq!(a.read_byte(pa1, 2), image[PAGE_SIZE + 2]);
    assert_eq!(a.read_byte(pa1, 3), 0);
    assert_eq!(a.read_byte(pa1, PAGE_SIZE - 1), 0);
    assert_eq!(a.read_byte(pa_stack, 0), 0);
    assert_eq!(a.read_byte(pa_stack, PAGE_SIZE - 1), 0);
}

#[test]
fn process_address_constants() {
    assert_eq!(Process::get_image_base(), USER_IMG_BASE);
    assert_eq!(Process::get_max_va(), u64::MAX);
    assert_eq!(Process::get_stack_base(), 0xffff_ffff_ffff_0000);
    assert_eq!(Process::get_stack_top(), 0xffff_ffff_ffff_fff0);
    assert_eq!(USER_IMG_BASE % PS, 0);
}

#[test]
fn user_permissions_follow_the_request() {
    let mut a = PageAllocator::new(BASE, 8);
    let mut upt = UserPageTable::new(&mut a);
    upt.alloc_page(USER_IMG_BASE, PagePerm::RW, &mut a).unwrap();
    let e = upt.0.get_entry(0);
    assert_eq!(e.ap, AP_USER_RW);
    assert_eq!(e.attr, ATTR_MEM);
    assert!(e.af);
}
