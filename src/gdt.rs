//! The segment descriptor table and the layout of the double-fault stack.
//!
//! The table holds, after the null entry, a 64-bit kernel code segment and
//! the descriptor of the task-state segment; the selectors of these two are
//! what the code segment register and the task register are loaded with. A
//! double fault must not run on the stack that may have caused it, so the
//! task-state segment records the top of a separate stack in its interrupt
//! stack table, and the double-fault vector is bound to that slot.

use vstd::prelude::*;

use x86_64::structures::gdt::{Descriptor, GlobalDescriptorTable, SegmentSelector};
use x86_64::structures::tss::TaskStateSegment;

verus! {

/// Slot of the interrupt stack table that holds the double-fault stack.
pub const DOUBLE_FAULT_IST_INDEX: u16 = 0;

/// Size in bytes of the double-fault stack: five pages.
pub const DOUBLE_FAULT_STACK_SIZE: usize = 4096 * 5;

/// Number of 8-byte slots of the descriptor table.
pub const GDT_SLOTS: usize = 8;

/// The descriptor of a 64-bit ring-0 code segment: present, executable,
/// long mode, with the flat limit and 4 KiB granularity.
pub const KERNEL_CODE64: u64 = 0x00af_9b00_0000_ffff;

/// `x86_64`'s descriptor table: up to eight 8-byte slots, the first null.
#[verifier::external_type_specification]
#[verifier::external_body]
pub struct ExGlobalDescriptorTable(GlobalDescriptorTable);

/// `x86_64`'s task-state segment.
#[verifier::external_type_specification]
#[verifier::external_body]
pub struct ExTaskStateSegment(TaskStateSegment);

/// `x86_64`'s segment descriptor: one slot for a code or data segment, two
/// for a system segment such as a task-state segment.
#[verifier::external_type_specification]
pub struct ExDescriptor(Descriptor);

/// `x86_64`'s segment selector: the entry's index times 8, plus the
/// requested privilege level.
#[verifier::external_type_specification]
pub struct ExSegmentSelector(SegmentSelector);

/// The slots in use of a descriptor table, in order.
pub uninterp spec fn gdt_entries(table: GlobalDescriptorTable) -> Seq<u64>;

/// The slots a descriptor occupies in the table.
pub open spec fn descriptor_words(d: Descriptor) -> Seq<u64> {
    match d {
        Descriptor::UserSegment(value) => seq![value],
        Descriptor::SystemSegment(low, high) => seq![low, high],
    }
}

/// The descriptor privilege level: bits 45 and 46 of its first word.
pub open spec fn descriptor_dpl(d: Descriptor) -> u64 {
    match d {
        Descriptor::UserSegment(value) => (value >> 45u64) & 3u64,
        Descriptor::SystemSegment(low, _) => (low >> 45u64) & 3u64,
    }
}

/// The table index a selector designates.
pub open spec fn selector_index(s: SegmentSelector) -> int {
    s.0 as int / 8
}

/// The privilege level a selector requests.
pub open spec fn selector_rpl(s: SegmentSelector) -> int {
    s.0 as int % 4
}

/// Relies on `GlobalDescriptorTable::new`: a table holding the null
/// descriptor only.
pub assume_specification[ GlobalDescriptorTable::new ]() -> (r: GlobalDescriptorTable)
    ensures
        gdt_entries(r) == seq![0u64],
;

/// Relies on `GlobalDescriptorTable::add_entry`: appends the descriptor's
/// slots and returns the selector of its first slot, with the descriptor's
/// privilege level as requested level. It panics when the slots do not fit.
pub assume_specification[ GlobalDescriptorTable::add_entry ](
    table: &mut GlobalDescriptorTable,
    entry: Descriptor,
) -> (r: SegmentSelector)
    requires
        gdt_entries(*old(table)).len() + descriptor_words(entry).len() <= GDT_SLOTS,
    ensures
        gdt_entries(*final(table)) == gdt_entries(*old(table)) + descriptor_words(entry),
        r.0 as int == gdt_entries(*old(table)).len() * 8 + descriptor_dpl(entry),
;

/// Relies on `Descriptor::kernel_code_segment`: the flags of a 64-bit
/// ring-0 code segment.
pub assume_specification[ Descriptor::kernel_code_segment ]() -> (r: Descriptor)
    ensures
        r == Descriptor::UserSegment(KERNEL_CODE64),
;

/// Size in bytes of a task-state segment, less one: the limit its
/// descriptor records.
pub const TSS_LIMIT: u64 = 0x67;

/// The address-independent bits of a task-state-segment descriptor: the
/// limit in bits 0-15; in bits 40-47 the type "available 64-bit TSS"
/// (`0b1001`), a system segment, privilege level 0 and present (`0x89`);
/// bits 48-55 clear; and only the top half of the base in the second word.
pub open spec fn is_tss_descriptor(low: u64, high: u64) -> bool {
    &&& low & 0xffffu64 == TSS_LIMIT
    &&& (low >> 40u64) & 0xffu64 == 0x89
    &&& (low >> 48u64) & 0xffu64 == 0
    &&& high >> 32u64 == 0
}

/// A two-slot system descriptor with the bits of a task-state segment.
pub open spec fn is_tss_segment(d: Descriptor) -> bool {
    match d {
        Descriptor::SystemSegment(low, high) => is_tss_descriptor(low, high),
        Descriptor::UserSegment(_) => false,
    }
}

/// Relies on `Descriptor::tss_segment`: a two-slot system descriptor for the
/// segment at the reference's address, with the segment's size as limit, the
/// available-64-bit-TSS type, ring 0, and the present bit.
pub assume_specification[ Descriptor::tss_segment ](tss: &'static TaskStateSegment) -> (r: Descriptor)
    ensures
        is_tss_segment(r),
;

/// The descriptor table of the kernel and the selectors of its entries.
pub struct DescriptorTable {
    pub table: GlobalDescriptorTable,
    pub code_selector: SegmentSelector,
    pub tss_selector: SegmentSelector,
}

/// Builds the table: the null entry, the kernel code segment in slot 1 and
/// the given task-state segment in slots 2 and 3, selected as `0x08` and
/// `0x10` (indices 1 and 2, global table, ring 0). Loading it is left to the
/// caller.
pub fn build(tss: &'static TaskStateSegment) -> (r: DescriptorTable)
    ensures
        gdt_entries(r.table).len() == 4,
        gdt_entries(r.table)[0] == 0,
        gdt_entries(r.table)[1] == KERNEL_CODE64,
        is_tss_descriptor(gdt_entries(r.table)[2], gdt_entries(r.table)[3]),
        r.code_selector.0 == 0x08,
        r.tss_selector.0 == 0x10,
        selector_index(r.code_selector) == 1,
        selector_rpl(r.code_selector) == 0,
        selector_index(r.tss_selector) == 2,
        selector_rpl(r.tss_selector) == 0,
{
    let mut table = GlobalDescriptorTable::new();
    let code = Descriptor::kernel_code_segment();
    assert((KERNEL_CODE64 >> 45u64) & 3u64 == 0) by (bit_vector);
    let code_selector = table.add_entry(code);
    let tss_descriptor = Descriptor::tss_segment(tss);
    let ghost low = match tss_descriptor {
        Descriptor::SystemSegment(low, _) => low,
        Descriptor::UserSegment(value) => value,
    };
    assert((low >> 40u64) & 0xffu64 == 0x89 ==> (low >> 45u64) & 3u64 == 0) by (bit_vector);
    let tss_selector = table.add_entry(tss_descriptor);
    DescriptorTable { table, code_selector, tss_selector }
}

} // verus!
