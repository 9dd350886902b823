use hpm_riscv_rt::bringup::{
    core_proceeds_from_reset, entry_handoff_plan, interrupt_bringup_plan, BringupOp, HandoffOp,
    CLAIM_DRAIN_COUNT, ENABLE_BANK_COUNT,
};

#[test]
fn bringup_plan_has_the_documented_sequence() {
    let plan = interrupt_bringup_plan(0x8000_1000);
    assert_eq!(plan.len(), 1 + CLAIM_DRAIN_COUNT + ENABLE_BANK_COUNT + 7);

    assert_eq!(plan[0], BringupOp::SetPriorityThreshold(0));
    for i in 0..CLAIM_DRAIN_COUNT {
        assert_eq!(plan[1 + i], BringupOp::ClaimPending(i as u32));
    }
    for i in 0..ENABLE_BANK_COUNT {
        assert_eq!(plan[1 + CLAIM_DRAIN_COUNT + i], BringupOp::ClearEnableBank(i as u32));
    }
    let tail = 1 + CLAIM_DRAIN_COUNT + ENABLE_BANK_COUNT;
    assert_eq!(plan[tail], BringupOp::EnableCycleCounter);
    assert_eq!(plan[tail + 1], BringupOp::SetTrapVectorBase(0x8000_1000));
    assert_eq!(plan[tail + 2], BringupOp::EnableVectoredController);
    assert_eq!(plan[tail + 3], BringupOp::EnableVectoredCore);
    assert_eq!(plan[tail + 4], BringupOp::EnableMachineInterrupts);
    assert_eq!(plan[tail + 5], BringupOp::EnableSupervisorInterrupts);
    assert_eq!(plan[tail + 6], BringupOp::EnableExternalInterrupts);
}

#[test]
fn bringup_plan_points_the_vector_base_at_the_given_table() {
    let plan = interrupt_bringup_plan(0xDEAD_BEE0);
    assert!(plan.contains(&BringupOp::SetTrapVectorBase(0xDEAD_BEE0)));
    assert!(!plan.contains(&BringupOp::SetTrapVectorBase(0x8000_1000)));
}

#[test]
fn only_the_boot_core_proceeds_unreleased() {
    assert!(core_proceeds_from_reset(0, false));
    assert!(core_proceeds_from_reset(0, true));
    assert!(!core_proceeds_from_reset(1, false));
    assert!(core_proceeds_from_reset(1, true));
    assert!(!core_proceeds_from_reset(7, false));
}

#[test]
fn handoff_plan_brings_up_caches_then_fpu_then_calls_entry() {
    let plan = entry_handoff_plan();
    assert_eq!(
        plan,
        vec![
            HandoffOp::EnableInstructionCache,
            HandoffOp::EnableDataCache,
            HandoffOp::InvalidateDataCache,
            HandoffOp::FpuStateClean,
            HandoffOp::FpuStateInitial,
            HandoffOp::CallEntryPoint,
        ]
    );
}
