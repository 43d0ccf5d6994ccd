//! Structured diagnostics.
//!
//! The diagnostic sink is the partition's only reporting channel.  The core
//! never formats text: it produces structured records, and the unverified
//! rim renders and emits them.

use vstd::prelude::*;

verus! {

/// Which privilege level and stack an exception came from.
#[derive(Clone, Copy, Debug, PartialEq, Eq, Structural)]
pub enum ExceptionOrigin {
    /// Current exception level, stack pointer SP_EL0.
    CurrentElSp0,
    /// Current exception level, dedicated stack pointer.
    CurrentElSpx,
    /// Lower exception level running AArch64.
    LowerElAarch64,
    /// Lower exception level running AArch32.
    LowerElAarch32,
}

/// Which kind of event transferred control to a vector slot.
#[derive(Clone, Copy, Debug, PartialEq, Eq, Structural)]
pub enum ExceptionClass {
    /// Synchronous exception (fault, trap).
    Synchronous,
    /// Ordinary interrupt request.
    Irq,
    /// Fast interrupt request.
    Fiq,
    /// System error.
    SError,
}

/// One structured diagnostic record.
#[derive(Clone, Copy, Debug, PartialEq, Eq, Structural)]
pub enum Diagnostic {
    /// A hardware exception reached a fail-stop vector slot.
    Exception {
        /// Origin of the exception.
        origin: ExceptionOrigin,
        /// Class of the exception.
        class: ExceptionClass,
    },
    /// The interrupt dispatch hook reports an interrupt it handled.
    Interrupt {
        /// Opaque identifier of the interrupt.
        interrupt_id: u64,
    },
    /// A service handler signalled an unrecoverable condition.
    HandlerFatal {
        /// Status word the handler reported.
        status: i64,
    },
}

} // verus!
