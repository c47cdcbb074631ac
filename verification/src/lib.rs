//! Core of a small bare-metal kernel: a bump-allocation heap over a fixed
//! virtual address window, a model of the CPU descriptor and interrupt
//! dispatch tables with a dedicated double-fault stack, a bounds-checked
//! text console, and the scan-code decoding path of the keyboard handler.
//!
//! Everything that computes or decides lives here; the privileged hardware
//! operations (page-table writes, port I/O, table loads) are performed by the
//! surrounding kernel binary against the contracts stated in this crate.
#![allow(unused_imports)]

use vstd::prelude::*;

pub mod allocator;
pub mod gdt;
pub mod interrupts;
pub mod vga_buffer;

verus! {

/// The pass/fail signal the kernel hands to the external test harness: a
/// code written to a fixed port when the kernel is done.
#[derive(Debug, Clone, Copy, PartialEq, Eq, Structural)]
pub enum QemuExitCode {
    Success,
    Failed,
}

impl QemuExitCode {
    /// The value written to the exit port for this outcome.
    pub open spec fn spec_code(self) -> u32 {
        match self {
            QemuExitCode::Success => 0x10,
            QemuExitCode::Failed => 0x11,
        }
    }

    /// The value written to the exit port.
    pub fn code(self) -> (r: u32)
        ensures
            r == self.spec_code(),
    {
        match self {
            QemuExitCode::Success => 0x10,
            QemuExitCode::Failed => 0x11,
        }
    }
}

/// The boot sequence's progress. Descriptor tables, the dispatch table and
/// the interrupt controllers are each set up exactly once, and interrupts
/// are enabled only after all three stand: once interrupts can arrive, every
/// table they consult must already be loaded.
pub struct BootSequence {
    pub descriptors_loaded: bool,
    pub dispatch_loaded: bool,
    pub controllers_initialized: bool,
    pub interrupts_enabled: bool,
}

impl BootSequence {
    /// The ordering invariant: interrupts are enabled only with every table
    /// and controller ready.
    pub open spec fn wf(self) -> bool {
        self.interrupts_enabled ==> (self.descriptors_loaded && self.dispatch_loaded
            && self.controllers_initialized)
    }

    /// Boot starts with nothing loaded and interrupts disabled.
    pub fn new() -> (r: BootSequence)
        ensures
            r.wf(),
            !r.descriptors_loaded,
            !r.dispatch_loaded,
            !r.controllers_initialized,
            !r.interrupts_enabled,
    {
        BootSequence {
            descriptors_loaded: false,
            dispatch_loaded: false,
            controllers_initialized: false,
            interrupts_enabled: false,
        }
    }

    /// Records that the descriptor set is built and loaded: once, and before
    /// interrupts are enabled.
    pub fn mark_descriptors_loaded(&mut self)
        requires
            old(self).wf(),
            !old(self).descriptors_loaded,
            !old(self).interrupts_enabled,
        ensures
            final(self).wf(),
            *final(self) == (BootSequence { descriptors_loaded: true, ..*old(self) }),
    {
        self.descriptors_loaded = true;
    }

    /// Records that the dispatch table is built and loaded: once, and before
    /// interrupts are enabled.
    pub fn mark_dispatch_loaded(&mut self)
        requires
            old(self).wf(),
            !old(self).dispatch_loaded,
            !old(self).interrupts_enabled,
        ensures
            final(self).wf(),
            *final(self) == (BootSequence { dispatch_loaded: true, ..*old(self) }),
    {
        self.dispatch_loaded = true;
    }

    /// Records that the interrupt controllers are remapped: once, and before
    /// interrupts are enabled.
    pub fn mark_controllers_initialized(&mut self)
        requires
            old(self).wf(),
            !old(self).controllers_initialized,
            !old(self).interrupts_enabled,
        ensures
            final(self).wf(),
            *final(self) == (BootSequence { controllers_initialized: true, ..*old(self) }),
    {
        self.controllers_initialized = true;
    }

    /// Records that interrupts are enabled; every table and controller must
    /// already stand, or an early interrupt would consult a missing table.
    pub fn mark_interrupts_enabled(&mut self)
        requires
            old(self).wf(),
            old(self).descriptors_loaded,
            old(self).dispatch_loaded,
            old(self).controllers_initialized,
        ensures
            final(self).wf(),
            *final(self) == (BootSequence { interrupts_enabled: true, ..*old(self) }),
    {
        self.interrupts_enabled = true;
    }
}

} // verus!
