use moon_os::gdt::{build, KERNEL_CODE64, TSS_LIMIT};
use x86_64::structures::tss::TaskStateSegment;
use x86_64::{PrivilegeLevel, VirtAddr};

fn leaked_tss() -> &'static TaskStateSegment {
    Box::leak(Box::new(TaskStateSegment::new()))
}

#[test]
fn descriptor_table_selectors() {
    let built = build(leaked_tss());
    assert_eq!(built.code_selector.0, 8);
    assert_eq!(built.code_selector.index(), 1);
    assert_eq!(built.code_selector.rpl(), PrivilegeLevel::Ring0);
    assert_eq!(built.tss_selector.0, 16);
    assert_eq!(built.tss_selector.index(), 2);
    assert_eq!(built.tss_selector.rpl(), PrivilegeLevel::Ring0);
}

#[test]
fn descriptor_table_entries() {
    let tss = leaked_tss();
    let built = build(tss);
    let slots = built.table.as_raw_slice();
    assert_eq!(slots.len(), 4);
    assert_eq!(slots[0], 0);
    assert_eq!(slots[1], KERNEL_CODE64);
    // the task-state descriptor holds the segment's address in its base bits
    let address = VirtAddr::from_ptr(tss).as_u64();
    assert_eq!((slots[2] >> 16) & 0xff_ffff, address & 0xff_ffff);
    assert_eq!(slots[3] & 0xffff_ffff, address >> 32);
    assert_eq!((slots[2] >> 45) & 3, 0);
    // limit, type, present bit, and an empty top half of the second slot
    assert_eq!(slots[2] & 0xffff, TSS_LIMIT);
    assert_eq!((slots[2] >> 40) & 0xff, 0x89);
    assert_eq!((slots[2] >> 48) & 0xff, 0);
    assert_eq!(slots[3] >> 32, 0);
}
