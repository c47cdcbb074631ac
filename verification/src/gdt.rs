//! The descriptor set: a segment table with a code segment and a task-state
//! segment, and one dedicated fault stack wired into the task state at a
//! fixed slot. The double-fault handler runs on that stack, so a stack
//! overflow can still be reported instead of resetting the processor.
//!
//! The model here fixes the layout; the kernel binary builds the hardware
//! tables to this layout and loads them before interrupts are enabled.

use vstd::prelude::*;

verus! {

/// The slot of the interrupt stack table reserved for the double fault.
pub const DOUBLE_FAULT_IST_INDEX: u16 = 0;

/// Size in bytes of the dedicated double-fault stack.
pub const FAULT_STACK_SIZE: u64 = 4096;

/// How many descriptors the segment table holds besides the mandatory null
/// descriptor: one code segment and one task-state segment.
pub const SEGMENT_COUNT: u16 = 2;

/// The layout of the descriptor set: selectors for the code and task-state
/// segments, and the dedicated fault stack.
pub struct DescriptorSet {
    /// Selector of the kernel code segment.
    pub code_selector: u16,
    /// Selector of the task-state segment.
    pub tss_selector: u16,
    /// Slot of the task state's stack table that holds the fault stack.
    pub fault_stack_slot: u16,
    /// Size in bytes of the fault stack.
    pub fault_stack_size: u64,
}

impl DescriptorSet {
    /// The descriptor set is laid out as the boot sequence requires: the two
    /// segments sit in table entries 1 and 2 (a selector is its entry index
    /// shifted past the three privilege bits), and the fault stack fills its
    /// reserved slot with a full page.
    pub open spec fn wf(self) -> bool {
        &&& self.code_selector == 1u16 * 8
        &&& self.tss_selector == 2u16 * 8
        &&& self.fault_stack_slot == DOUBLE_FAULT_IST_INDEX
        &&& self.fault_stack_size == FAULT_STACK_SIZE
    }
}

/// Builds the descriptor-set layout: a code segment in entry 1, a task-state
/// segment in entry 2, and the double-fault stack of one page at its fixed
/// slot. Built exactly once by the boot sequence, strictly before interrupts
/// are enabled, and never changed afterwards.
pub fn init() -> (r: DescriptorSet)
    ensures
        r.wf(),
        r.code_selector != r.tss_selector,
{
    DescriptorSet {
        code_selector: 8,
        tss_selector: 16,
        fault_stack_slot: DOUBLE_FAULT_IST_INDEX,
        fault_stack_size: FAULT_STACK_SIZE,
    }
}

} // verus!
