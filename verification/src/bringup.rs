//! Interrupt controller bring-up and entry handoff.
//!
//! Arming the vectored interrupt path is a fixed sequence of writes to the
//! interrupt controller and to machine control and status registers; its
//! whole logic is that sequence and its order. The sequence is computed
//! here as a plan — an ordered list of operations pinned down op by op —
//! and the unverified startup code performs each operation against the
//! hardware exactly in plan order. The same holds for the final handoff to
//! the application entry point.
//!
//! Bring-up must run after relocation (the vector table it points the trap
//! base at lives in relocated memory) and before the handoff, so that the
//! application starts with interrupts live.

use vstd::prelude::*;

verus! {

/// How many stale pending claims the bring-up drains from the controller.
pub const CLAIM_DRAIN_COUNT: usize = 1024;

/// How many per-target enable-register banks the bring-up clears.
pub const ENABLE_BANK_COUNT: usize = 4;

/// One operation of the interrupt-controller bring-up sequence.
#[derive(Clone, Copy, Debug, PartialEq, Eq, Structural)]
pub enum BringupOp {
    /// Set the controller's priority threshold, accepting all priorities
    /// at threshold zero.
    SetPriorityThreshold(u32),
    /// Complete a possibly pending claim for one interrupt id, clearing
    /// stale state.
    ClaimPending(u32),
    /// Clear one bank of the boot target's interrupt-enable register.
    ClearEnableBank(u32),
    /// Enable the cycle counter.
    EnableCycleCounter,
    /// Point the trap-vector base register at the vectored interrupt
    /// table.
    SetTrapVectorBase(u32),
    /// Enable vectored dispatch mode in the interrupt controller.
    EnableVectoredController,
    /// Enable vectored controller dispatch in the core's miscellaneous
    /// control register.
    EnableVectoredCore,
    /// Set the global machine interrupt-enable bit.
    EnableMachineInterrupts,
    /// Set the supervisor interrupt-enable bit.
    EnableSupervisorInterrupts,
    /// Set the external interrupt-enable bit.
    EnableExternalInterrupts,
}

/// Computes the bring-up sequence for a vectored interrupt table at
/// `vector_table_addr`: threshold to zero, drain every possibly pending
/// claim, clear every enable bank, enable the cycle counter, point the
/// trap-vector base at the table, switch controller and core to vectored
/// mode, then turn on machine, supervisor and external interrupt enables —
/// in exactly that order.
pub fn interrupt_bringup_plan(vector_table_addr: u32) -> (plan: Vec<BringupOp>)
    ensures
        plan@.len() == 1 + CLAIM_DRAIN_COUNT + ENABLE_BANK_COUNT + 7,
        plan@[0] == BringupOp::SetPriorityThreshold(0),
        forall|i: int|
            0 <= i < CLAIM_DRAIN_COUNT ==> #[trigger] plan@[1 + i] == BringupOp::ClaimPending(
                i as u32,
            ),
        forall|i: int|
            0 <= i < ENABLE_BANK_COUNT ==> #[trigger] plan@[1 + CLAIM_DRAIN_COUNT + i]
                == BringupOp::ClearEnableBank(i as u32),
        plan@[1029] == BringupOp::EnableCycleCounter,
        plan@[1030] == BringupOp::SetTrapVectorBase(vector_table_addr),
        plan@[1031] == BringupOp::EnableVectoredController,
        plan@[1032] == BringupOp::EnableVectoredCore,
        plan@[1033] == BringupOp::EnableMachineInterrupts,
        plan@[1034] == BringupOp::EnableSupervisorInterrupts,
        plan@[1035] == BringupOp::EnableExternalInterrupts,
{
    let mut plan: Vec<BringupOp> = Vec::new();
    plan.push(BringupOp::SetPriorityThreshold(0));
    let mut i: usize = 0;
    while i < CLAIM_DRAIN_COUNT
        invariant
            i <= CLAIM_DRAIN_COUNT,
            plan@.len() == 1 + i,
            plan@[0] == BringupOp::SetPriorityThreshold(0),
            forall|j: int|
                0 <= j < i ==> #[trigger] plan@[1 + j] == BringupOp::ClaimPending(j as u32),
        decreases CLAIM_DRAIN_COUNT - i,
    {
        plan.push(BringupOp::ClaimPending(i as u32));
        i += 1;
    }
    let mut b: usize = 0;
    while b < ENABLE_BANK_COUNT
        invariant
            b <= ENABLE_BANK_COUNT,
            plan@.len() == 1 + CLAIM_DRAIN_COUNT + b,
            plan@[0] == BringupOp::SetPriorityThreshold(0),
            forall|j: int|
                0 <= j < CLAIM_DRAIN_COUNT ==> #[trigger] plan@[1 + j] == BringupOp::ClaimPending(
                    j as u32,
                ),
            forall|j: int|
                0 <= j < b ==> #[trigger] plan@[1 + CLAIM_DRAIN_COUNT + j]
                    == BringupOp::ClearEnableBank(j as u32),
        decreases ENABLE_BANK_COUNT - b,
    {
        plan.push(BringupOp::ClearEnableBank(b as u32));
        b += 1;
    }
    plan.push(BringupOp::EnableCycleCounter);
    plan.push(BringupOp::SetTrapVectorBase(vector_table_addr));
    plan.push(BringupOp::EnableVectoredController);
    plan.push(BringupOp::EnableVectoredCore);
    plan.push(BringupOp::EnableMachineInterrupts);
    plan.push(BringupOp::EnableSupervisorInterrupts);
    plan.push(BringupOp::EnableExternalInterrupts);
    plan
}

/// Multiprocessor parking: the boot core — hardware core identifier zero
/// — always proceeds through reset; every other core stays parked in its
/// wait-for-interrupt loop until platform code releases it.
pub fn core_proceeds_from_reset(hart_id: u32, released_by_platform: bool) -> (r: bool)
    ensures
        r == (hart_id == 0 || released_by_platform),
{
    hart_id == 0 || released_by_platform
}

/// One operation of the entry handoff, after relocation and bring-up.
#[derive(Clone, Copy, Debug, PartialEq, Eq, Structural)]
pub enum HandoffOp {
    /// Enable the instruction cache.
    EnableInstructionCache,
    /// Enable the data cache.
    EnableDataCache,
    /// Invalidate the whole data cache.
    InvalidateDataCache,
    /// Move the floating-point unit to the clean state.
    FpuStateClean,
    /// Move the floating-point unit to the initial state.
    FpuStateInitial,
    /// Call the application entry point; the call never returns, and if
    /// it ever did, the reset path falls into an infinite no-op loop.
    CallEntryPoint,
}

/// Computes the entry handoff sequence: bring up the caches, invalidate
/// the data cache, step the floating-point unit through clean to initial,
/// then hand control to the application entry point, in exactly that
/// order.
pub fn entry_handoff_plan() -> (plan: Vec<HandoffOp>)
    ensures
        plan@.len() == 6,
        plan@[0] == HandoffOp::EnableInstructionCache,
        plan@[1] == HandoffOp::EnableDataCache,
        plan@[2] == HandoffOp::InvalidateDataCache,
        plan@[3] == HandoffOp::FpuStateClean,
        plan@[4] == HandoffOp::FpuStateInitial,
        plan@[5] == HandoffOp::CallEntryPoint,
{
    let mut plan: Vec<HandoffOp> = Vec::new();
    plan.push(HandoffOp::EnableInstructionCache);
    plan.push(HandoffOp::EnableDataCache);
    plan.push(HandoffOp::InvalidateDataCache);
    plan.push(HandoffOp::FpuStateClean);
    plan.push(HandoffOp::FpuStateInitial);
    plan.push(HandoffOp::CallEntryPoint);
    plan
}

} // verus!
