//! Interrupt dispatch hook.
//!
//! The IRQ slots of the vector table delegate to a pluggable handler, so a
//! partition can customise interrupt handling without touching the table
//! itself.  A hook receives the opaque interrupt identifier and returns the
//! structured diagnostic record to emit; a hook that cannot complete follows
//! the same fail-stop policy as a hardware exception.

use vstd::prelude::*;

use crate::diag::Diagnostic;

verus! {

/// The contract of a partition's interrupt dispatch hook.
pub trait InterruptHandler {
    /// The diagnostic record the hook produces for an interrupt.
    spec fn report_spec(&self, interrupt_id: u64) -> Diagnostic;

    /// Handles one interrupt, identified opaquely, and returns the
    /// diagnostic record to emit.
    fn handle(&self, interrupt_id: u64) -> (r: Diagnostic)
        ensures
            r == self.report_spec(interrupt_id),
    ;
}

/// The QEMU platform's hook: it only reports the interrupt it was handed.
pub struct QemuInterriptHandler;

impl InterruptHandler for QemuInterriptHandler {
    open spec fn report_spec(&self, interrupt_id: u64) -> Diagnostic {
        Diagnostic::Interrupt { interrupt_id }
    }

    fn handle(&self, interrupt_id: u64) -> (r: Diagnostic) {
        Diagnostic::Interrupt { interrupt_id }
    }
}

} // verus!
