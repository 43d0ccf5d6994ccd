//! Exception vector table model.
//!
//! The table has 16 fixed-offset slots: 4 exception origins times 4
//! exception classes, in the architecturally mandated order.  The layout is
//! fixed and never reordered.  IRQ slots delegate to the interrupt dispatch
//! hook; every other slot is fail-stop by default: record one diagnostic,
//! then halt, because there is no safe way to resume after an unexpected
//! synchronous fault in this execution model.
//!
//! The table's link-time placement and the write of the vector base
//! register are properties of the unverified entry glue; here the table is
//! data, and the slots' dispositions are functions with contracts.

use vstd::prelude::*;

use crate::diag::Diagnostic;
use crate::diag::ExceptionClass;
use crate::diag::ExceptionOrigin;
use crate::interrupt::InterruptHandler;

verus! {

/// Number of slots in the exception vector table.
pub const VECTOR_SLOT_COUNT: usize = 16;

/// The architectural position of an origin within the table: a block of
/// four consecutive slots.
pub open spec fn origin_index(origin: ExceptionOrigin) -> int {
    match origin {
        ExceptionOrigin::CurrentElSp0 => 0,
        ExceptionOrigin::CurrentElSpx => 1,
        ExceptionOrigin::LowerElAarch64 => 2,
        ExceptionOrigin::LowerElAarch32 => 3,
    }
}

/// The architectural position of a class within an origin's block.
pub open spec fn class_index(class: ExceptionClass) -> int {
    match class {
        ExceptionClass::Synchronous => 0,
        ExceptionClass::Irq => 1,
        ExceptionClass::Fiq => 2,
        ExceptionClass::SError => 3,
    }
}

/// The origin owning table slot `k`.
pub open spec fn slot_origin(k: int) -> ExceptionOrigin {
    if k < 4 {
        ExceptionOrigin::CurrentElSp0
    } else if k < 8 {
        ExceptionOrigin::CurrentElSpx
    } else if k < 12 {
        ExceptionOrigin::LowerElAarch64
    } else {
        ExceptionOrigin::LowerElAarch32
    }
}

/// The class of table slot `k`.
pub open spec fn slot_class(k: int) -> ExceptionClass {
    if k % 4 == 0 {
        ExceptionClass::Synchronous
    } else if k % 4 == 1 {
        ExceptionClass::Irq
    } else if k % 4 == 2 {
        ExceptionClass::Fiq
    } else {
        ExceptionClass::SError
    }
}

/// One slot of the vector table: which origin and class it serves.
#[derive(Clone, Copy, Debug, PartialEq, Eq, Structural)]
pub struct VectorSlot {
    /// Origin dimension of the slot.
    pub origin: ExceptionOrigin,
    /// Class dimension of the slot.
    pub class: ExceptionClass,
}

/// The fixed slot serving an (origin, class) pair.
pub fn slot_index(origin: ExceptionOrigin, class: ExceptionClass) -> (r: usize)
    ensures
        r == 4 * origin_index(origin) + class_index(class),
        r < VECTOR_SLOT_COUNT,
        slot_origin(r as int) == origin,
        slot_class(r as int) == class,
{
    let o: usize = match origin {
        ExceptionOrigin::CurrentElSp0 => 0,
        ExceptionOrigin::CurrentElSpx => 1,
        ExceptionOrigin::LowerElAarch64 => 2,
        ExceptionOrigin::LowerElAarch32 => 3,
    };
    let c: usize = match class {
        ExceptionClass::Synchronous => 0,
        ExceptionClass::Irq => 1,
        ExceptionClass::Fiq => 2,
        ExceptionClass::SError => 3,
    };
    4 * o + c
}

/// No two (origin, class) pairs share a slot: the table layout is fixed.
pub proof fn lemma_slot_index_injective(
    o1: ExceptionOrigin,
    c1: ExceptionClass,
    o2: ExceptionOrigin,
    c2: ExceptionClass,
)
    requires
        4 * origin_index(o1) + class_index(c1) == 4 * origin_index(o2) + class_index(c2),
    ensures
        o1 == o2,
        c1 == c2,
{
}

/// Builds the 16-entry table in architectural order: four blocks of four
/// slots, origins outermost, classes in the order synchronous, IRQ, FIQ,
/// SError within each block.
pub fn build_vector_table() -> (t: Vec<VectorSlot>)
    ensures
        t@.len() == VECTOR_SLOT_COUNT,
        forall|k: int|
            0 <= k < VECTOR_SLOT_COUNT ==> (#[trigger] t@[k]) == (VectorSlot {
                origin: slot_origin(k),
                class: slot_class(k),
            }),
{
    let mut t: Vec<VectorSlot> = Vec::new();
    let origins: [ExceptionOrigin; 4] = [
        ExceptionOrigin::CurrentElSp0,
        ExceptionOrigin::CurrentElSpx,
        ExceptionOrigin::LowerElAarch64,
        ExceptionOrigin::LowerElAarch32,
    ];
    let classes: [ExceptionClass; 4] = [
        ExceptionClass::Synchronous,
        ExceptionClass::Irq,
        ExceptionClass::Fiq,
        ExceptionClass::SError,
    ];
    let mut o: usize = 0;
    while o < 4
        invariant
            o <= 4,
            t@.len() == 4 * o,
            origins@ == seq![
                ExceptionOrigin::CurrentElSp0,
                ExceptionOrigin::CurrentElSpx,
                ExceptionOrigin::LowerElAarch64,
                ExceptionOrigin::LowerElAarch32,
            ],
            classes@ == seq![
                ExceptionClass::Synchronous,
                ExceptionClass::Irq,
                ExceptionClass::Fiq,
                ExceptionClass::SError,
            ],
            forall|k: int|
                0 <= k < 4 * o ==> (#[trigger] t@[k]) == (VectorSlot {
                    origin: slot_origin(k),
                    class: slot_class(k),
                }),
        decreases 4 - o,
    {
        let mut c: usize = 0;
        while c < 4
            invariant
                o < 4,
                c <= 4,
                t@.len() == 4 * o + c,
                origins@ == seq![
                    ExceptionOrigin::CurrentElSp0,
                    ExceptionOrigin::CurrentElSpx,
                    ExceptionOrigin::LowerElAarch64,
                    ExceptionOrigin::LowerElAarch32,
                ],
                classes@ == seq![
                    ExceptionClass::Synchronous,
                    ExceptionClass::Irq,
                    ExceptionClass::Fiq,
                    ExceptionClass::SError,
                ],
                forall|k: int|
                    0 <= k < 4 * o + c ==> (#[trigger] t@[k]) == (VectorSlot {
                        origin: slot_origin(k),
                        class: slot_class(k),
                    }),
            decreases 4 - c,
        {
            t.push(VectorSlot { origin: origins[o], class: classes[c] });
            proof {
                let k = 4 * o + c;
                assert(t@[k as int].origin == slot_origin(k as int));
                assert(t@[k as int].class == slot_class(k as int));
            }
            c = c + 1;
        }
        o = o + 1;
    }
    t
}

/// What a vector slot's trampoline resolves to.
pub enum VectorOutcome {
    /// Record exactly this diagnostic, then halt: no recovery from an
    /// unexpected exception in this execution model.
    FailStop {
        /// The diagnostic naming the exception's origin and class.
        diagnostic: Diagnostic,
    },
    /// The interrupt dispatch hook handled the interrupt; its report.
    InterruptHandled {
        /// The hook's diagnostic record.
        report: Diagnostic,
    },
}

/// Resolves one exception arrival: IRQ slots of every origin delegate to
/// the interrupt dispatch hook with the opaque interrupt identifier; every
/// other slot is fail-stop with a diagnostic naming the origin and class.
pub fn vector_entry<H: InterruptHandler>(
    hook: &H,
    origin: ExceptionOrigin,
    class: ExceptionClass,
    interrupt_id: u64,
) -> (r: VectorOutcome)
    ensures
        class is Irq ==> r == (VectorOutcome::InterruptHandled {
            report: hook.report_spec(interrupt_id),
        }),
        !(class is Irq) ==> r == (VectorOutcome::FailStop {
            diagnostic: Diagnostic::Exception { origin, class },
        }),
{
    match class {
        ExceptionClass::Irq => VectorOutcome::InterruptHandled {
            report: hook.handle(interrupt_id),
        },
        _ => VectorOutcome::FailStop { diagnostic: Diagnostic::Exception { origin, class } },
    }
}

} // verus!
