//! Entry sequence.
//!
//! The loader transfers control exactly once, handing over four opaque
//! 64-bit arguments.  In strict order the trampoline must: make the
//! reserved boot stack the active stack — before any instruction that could
//! push to a stack — install the exception vector base, and invoke the
//! application's init routine with the four original arguments, unmodified.
//! The init routine never returns; failure past this point is fatal to the
//! whole partition, as there is no supervisor to restart it.
//!
//! The machine instructions live in the unverified entry glue; here the
//! sequence is a state machine whose transitions admit only that order.

use vstd::prelude::*;

verus! {

/// How far the entry sequence has come.
#[derive(Clone, Copy, Debug, PartialEq, Eq, Structural)]
pub enum BootPhase {
    /// Control just arrived from the loader; no stack exists yet.
    Reset,
    /// The boot stack reservation is the active stack.
    StackInstalled,
    /// The exception vector base register points at the vector table.
    VectorsInstalled,
    /// The application's init routine has taken over; it never returns.
    Running,
}

/// The rank of a phase in the entry order.
pub open spec fn phase_rank(phase: BootPhase) -> int {
    match phase {
        BootPhase::Reset => 0,
        BootPhase::StackInstalled => 1,
        BootPhase::VectorsInstalled => 2,
        BootPhase::Running => 3,
    }
}

/// The entry sequence's state: its phase, the established top-of-stack and
/// vector base addresses, and the loader's four arguments, carried verbatim.
#[derive(Clone, Copy, Debug, PartialEq, Eq, Structural)]
pub struct EntryContext {
    /// The phase reached so far.
    pub phase: BootPhase,
    /// Top-of-stack address; zero until the stack is installed, fixed after.
    pub stack_top: u64,
    /// Vector base address; zero until installed, fixed after.
    pub vector_base: u64,
    /// First loader argument, never inspected or reinterpreted.
    pub arg0: u64,
    /// Second loader argument.
    pub arg1: u64,
    /// Third loader argument.
    pub arg2: u64,
    /// Fourth loader argument.
    pub arg3: u64,
}

/// The entry sequence's transition relation: each step advances the phase
/// by exactly one rank, carries the loader arguments unchanged, and never
/// moves an address established by an earlier step.
pub open spec fn boot_next(pre: EntryContext, post: EntryContext) -> bool {
    &&& post.arg0 == pre.arg0
    &&& post.arg1 == pre.arg1
    &&& post.arg2 == pre.arg2
    &&& post.arg3 == pre.arg3
    &&& match (pre.phase, post.phase) {
        (BootPhase::Reset, BootPhase::StackInstalled) => true,
        (BootPhase::StackInstalled, BootPhase::VectorsInstalled) => post.stack_top
            == pre.stack_top,
        (BootPhase::VectorsInstalled, BootPhase::Running) => post.stack_top == pre.stack_top
            && post.vector_base == pre.vector_base,
        _ => false,
    }
}

impl EntryContext {
    /// Receives control from the loader with its four opaque arguments.
    pub fn receive(arg0: u64, arg1: u64, arg2: u64, arg3: u64) -> (r: Self)
        ensures
            r.phase is Reset,
            r.stack_top == 0,
            r.vector_base == 0,
            r.arg0 == arg0,
            r.arg1 == arg1,
            r.arg2 == arg2,
            r.arg3 == arg3,
    {
        EntryContext {
            phase: BootPhase::Reset,
            stack_top: 0,
            vector_base: 0,
            arg0,
            arg1,
            arg2,
            arg3,
        }
    }

    /// Makes the boot stack reservation the active stack: the top-of-stack
    /// address is the reservation's base plus its size, computed once and
    /// never recomputed.  Must run before any stack-using step, which the
    /// phase order enforces.
    pub fn install_stack(&mut self, stack_base: u64, stack_size: u64)
        requires
            old(self).phase is Reset,
            stack_base + stack_size <= u64::MAX,
        ensures
            final(self).phase is StackInstalled,
            final(self).stack_top == stack_base + stack_size,
            final(self).vector_base == old(self).vector_base,
            final(self).arg0 == old(self).arg0,
            final(self).arg1 == old(self).arg1,
            final(self).arg2 == old(self).arg2,
            final(self).arg3 == old(self).arg3,
            boot_next(*old(self), *final(self)),
    {
        self.phase = BootPhase::StackInstalled;
        self.stack_top = stack_base + stack_size;
    }

    /// Installs the exception vector base, so that no later code can fault
    /// without a vector slot to receive it.
    pub fn install_vector_base(&mut self, vector_base: u64)
        requires
            old(self).phase is StackInstalled,
        ensures
            final(self).phase is VectorsInstalled,
            final(self).vector_base == vector_base,
            final(self).stack_top == old(self).stack_top,
            final(self).arg0 == old(self).arg0,
            final(self).arg1 == old(self).arg1,
            final(self).arg2 == old(self).arg2,
            final(self).arg3 == old(self).arg3,
            boot_next(*old(self), *final(self)),
    {
        self.phase = BootPhase::VectorsInstalled;
        self.vector_base = vector_base;
    }

    /// Hands control to the application's init routine, forwarding the four
    /// loader arguments verbatim.  Only a context whose stack and vector
    /// base stand can take this step.
    pub fn enter_application(&mut self) -> (args: (u64, u64, u64, u64))
        requires
            old(self).phase is VectorsInstalled,
        ensures
            final(self).phase is Running,
            final(self).stack_top == old(self).stack_top,
            final(self).vector_base == old(self).vector_base,
            final(self).arg0 == old(self).arg0,
            final(self).arg1 == old(self).arg1,
            final(self).arg2 == old(self).arg2,
            final(self).arg3 == old(self).arg3,
            args == (old(self).arg0, old(self).arg1, old(self).arg2, old(self).arg3),
            boot_next(*old(self), *final(self)),
    {
        self.phase = BootPhase::Running;
        (self.arg0, self.arg1, self.arg2, self.arg3)
    }
}

/// In a valid entry trace the phase rank equals the position: the sequence
/// admits no reordering and no skipped step.
pub proof fn lemma_boot_rank(trace: Seq<EntryContext>, i: int)
    requires
        trace.len() > 0,
        trace[0].phase is Reset,
        forall|k: int| 0 <= k < trace.len() - 1 ==> boot_next(trace[k], #[trigger] trace[k + 1]),
        0 <= i < trace.len(),
    ensures
        phase_rank(trace[i].phase) == i,
    decreases i,
{
    if i > 0 {
        lemma_boot_rank(trace, i - 1);
        assert(boot_next(trace[i - 1], trace[(i - 1) + 1]));
    }
}

/// Boot ordering: in any valid entry trace, by the time the application
/// runs, the stack was established at an earlier step and has not moved
/// since — no stack-using instruction ever executes before the stack
/// pointer stands.
pub proof fn lemma_stack_established_before_run(trace: Seq<EntryContext>)
    requires
        trace.len() > 0,
        trace[0].phase is Reset,
        forall|k: int| 0 <= k < trace.len() - 1 ==> boot_next(trace[k], #[trigger] trace[k + 1]),
    ensures
        forall|i: int|
            0 <= i < trace.len() && (#[trigger] trace[i].phase) is Running ==> exists|k: int|
                0 <= k < i && (#[trigger] trace[k].phase) is StackInstalled && trace[k].stack_top
                    == trace[i].stack_top,
{
    assert forall|i: int|
        0 <= i < trace.len() && (#[trigger] trace[i].phase) is Running implies exists|k: int|
        0 <= k < i && (#[trigger] trace[k].phase) is StackInstalled && trace[k].stack_top
            == trace[i].stack_top by {
        lemma_boot_rank(trace, i);
        assert(i == 3);
        lemma_boot_rank(trace, 1);
        lemma_boot_rank(trace, 2);
        assert(boot_next(trace[1 as int], trace[(1 as int) + 1]));
        assert(boot_next(trace[2 as int], trace[(2 as int) + 1]));
        assert(trace[1].phase is StackInstalled && trace[1].stack_top == trace[i].stack_top);
    }
}

} // verus!
