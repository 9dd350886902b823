//! Trap classification and handler resolution.
//!
//! A hardware trap saves the caller-saved registers into a [`TrapFrame`],
//! reads the trap-cause register, and must then decide which handler to
//! invoke. That decision is the whole logic of the trap entry path, and it
//! is computed here by [`dispatch`] as a pure function of the cause class,
//! the cause code, the faulting-instruction value and the two vector
//! tables. The assembly stub and the register reads stay outside the crate;
//! they feed `dispatch` plain values and invoke exactly the handler its
//! decision names — one handler per trap, never more.
//!
//! A table slot holds either a handler reference or nothing; an absent slot
//! and an out-of-range code both resolve to the generic fallback, which by
//! default halts rather than resume into corrupted state.

use vstd::prelude::*;

verus! {

/// Number of slots in the exception vector table.
pub const EXCEPTION_TABLE_LEN: usize = 16;

/// Number of slots in the interrupt vector table.
pub const INTERRUPT_TABLE_LEN: usize = 14;

/// Exception code of an illegal-instruction fault, the code the hardware
/// erratum workaround inspects.
pub const ILLEGAL_INSTRUCTION_CODE: usize = 2;

/// The caller-saved registers a trap entry stores on the stack, in the
/// exact order the entry stub saves them and the exit stub restores them:
/// the link register, the temporaries, then the argument registers.
#[derive(Clone, Copy, Debug, PartialEq, Eq, Structural)]
pub struct TrapFrame {
    pub ra: usize,
    pub t0: usize,
    pub t1: usize,
    pub t2: usize,
    pub t3: usize,
    pub t4: usize,
    pub t5: usize,
    pub t6: usize,
    pub a0: usize,
    pub a1: usize,
    pub a2: usize,
    pub a3: usize,
    pub a4: usize,
    pub a5: usize,
    pub a6: usize,
    pub a7: usize,
}

/// What the trap entry path must do for one trap: invoke a specific
/// exception handler with the frame, invoke a specific interrupt handler,
/// fall back to the generic exception or interrupt handler, or — for the
/// known-benign erratum fault alone — return without invoking anything.
/// Handlers are named by opaque references (their addresses, once linked).
#[derive(Clone, Copy, Debug, PartialEq, Eq, Structural)]
pub enum Dispatch {
    Exception(u32),
    ExceptionFallback,
    Interrupt(u32),
    InterruptFallback,
    ErrataResume,
}

/// The instruction/data-local-memory erratum: an illegal-instruction
/// exception whose faulting-instruction value reads as zero is a known
/// false fault and must be absorbed, not dispatched. Only checked when the
/// workaround is compiled in (`errata_fix`).
pub open spec fn errata_false_fault(
    errata_fix: bool,
    is_exception: bool,
    code: usize,
    fault_value: u32,
) -> bool {
    errata_fix && is_exception && code == ILLEGAL_INSTRUCTION_CODE && fault_value == 0
}

/// Resolves one trap to the single handler invocation the entry path owes.
///
/// `is_exception` and `code` come from the trap-cause register,
/// `fault_value` from the faulting-instruction-value register. A present
/// table slot resolves to its handler; an absent slot or a code beyond the
/// table resolves to the generic fallback; the erratum's false fault
/// resolves to an immediate return. Exactly one of these holds for every
/// input, so every trap invokes exactly one handler or none.
pub fn dispatch(
    exceptions: &Vec<Option<u32>>,
    interrupts: &Vec<Option<u32>>,
    is_exception: bool,
    code: usize,
    fault_value: u32,
    errata_fix: bool,
) -> (d: Dispatch)
    requires
        exceptions@.len() == EXCEPTION_TABLE_LEN,
        interrupts@.len() == INTERRUPT_TABLE_LEN,
    ensures
        errata_false_fault(errata_fix, is_exception, code, fault_value) ==> d
            == Dispatch::ErrataResume,
        is_exception && !errata_false_fault(errata_fix, is_exception, code, fault_value) ==> {
            &&& code < EXCEPTION_TABLE_LEN ==> (exceptions@[code as int] matches Some(h) ==> d
                == Dispatch::Exception(h))
            &&& code < EXCEPTION_TABLE_LEN && exceptions@[code as int] is None ==> d
                == Dispatch::ExceptionFallback
            &&& code >= EXCEPTION_TABLE_LEN ==> d == Dispatch::ExceptionFallback
        },
        !is_exception ==> {
            &&& code < INTERRUPT_TABLE_LEN ==> (interrupts@[code as int] matches Some(h) ==> d
                == Dispatch::Interrupt(h))
            &&& code < INTERRUPT_TABLE_LEN && interrupts@[code as int] is None ==> d
                == Dispatch::InterruptFallback
            &&& code >= INTERRUPT_TABLE_LEN ==> d == Dispatch::InterruptFallback
        },
{
    if is_exception {
        if errata_fix && code == ILLEGAL_INSTRUCTION_CODE && fault_value == 0 {
            return Dispatch::ErrataResume;
        }
        if code < EXCEPTION_TABLE_LEN {
            match exceptions[code] {
                Some(handler) => Dispatch::Exception(handler),
                None => Dispatch::ExceptionFallback,
            }
        } else {
            Dispatch::ExceptionFallback
        }
    } else {
        if code < INTERRUPT_TABLE_LEN {
            match interrupts[code] {
                Some(handler) => Dispatch::Interrupt(handler),
                None => Dispatch::InterruptFallback,
            }
        } else {
            Dispatch::InterruptFallback
        }
    }
}

/// The verdict of the generic fallbacks: the system must stop here, never
/// resuming the interrupted context. The unverified entry stub realizes it
/// as an infinite spin, which no terminating verified body can be.
#[derive(Clone, Copy, Debug, PartialEq, Eq, Structural)]
pub struct Halt;

/// The generic exception fallback: an unhandled exception must not resume
/// into possibly-corrupt state, so the only verdict is a deliberate
/// fail-stop. Overridable at link time by platform code; this is the weak
/// default.
#[allow(non_snake_case, unused_variables)]
pub fn DefaultExceptionHandler(trap_frame: &TrapFrame) -> (h: Halt)
    ensures
        h == Halt,
{
    Halt
}

/// The generic interrupt fallback, the same deliberate fail-stop. Safe as
/// both the core and the external default because execution never comes
/// back from the halt.
#[allow(non_snake_case)]
pub fn DefaultInterruptHandler() -> (h: Halt)
    ensures
        h == Halt,
{
    Halt
}

/// Builds the exception vector table in its link-time shape from the
/// fourteen specific handler references, in hardware exception-code order:
/// instruction misaligned, instruction fault, illegal instruction,
/// breakpoint, load misaligned, load fault, store misaligned, store fault,
/// environment calls from user and supervisor mode, machine environment
/// call, instruction page fault, load page fault and store page fault.
/// Codes 10 and 14 have no specific handler and fall back.
pub fn standard_exception_table(handlers: &Vec<u32>) -> (t: Vec<Option<u32>>)
    requires
        handlers@.len() == 14,
    ensures
        t@.len() == EXCEPTION_TABLE_LEN,
        forall|i: int| 0 <= i < 10 ==> #[trigger] t@[i] == Some(handlers@[i]),
        t@[10] is None,
        t@[11] == Some(handlers@[10]),
        t@[12] == Some(handlers@[11]),
        t@[13] == Some(handlers@[12]),
        t@[14] is None,
        t@[15] == Some(handlers@[13]),
{
    let mut t: Vec<Option<u32>> = Vec::new();
    let mut i: usize = 0;
    while i < 10
        invariant
            i <= 10,
            handlers@.len() == 14,
            t@.len() == i,
            forall|j: int| 0 <= j < i ==> #[trigger] t@[j] == Some(handlers@[j]),
        decreases 10 - i,
    {
        t.push(Some(handlers[i]));
        i += 1;
    }
    t.push(None);
    t.push(Some(handlers[10]));
    t.push(Some(handlers[11]));
    t.push(Some(handlers[12]));
    t.push(None);
    t.push(Some(handlers[13]));
    t
}

/// Builds the interrupt vector table in its link-time shape from the six
/// core handler references, in order: supervisor software, machine
/// software, supervisor timer, machine timer, supervisor external and
/// machine external. They sit at the odd codes 1, 3, 5, 7, 9 and 11; every
/// other slot is absent and falls back.
pub fn standard_interrupt_table(handlers: &Vec<u32>) -> (t: Vec<Option<u32>>)
    requires
        handlers@.len() == 6,
    ensures
        t@.len() == INTERRUPT_TABLE_LEN,
        t@[0] is None,
        t@[1] == Some(handlers@[0]),
        t@[2] is None,
        t@[3] == Some(handlers@[1]),
        t@[4] is None,
        t@[5] == Some(handlers@[2]),
        t@[6] is None,
        t@[7] == Some(handlers@[3]),
        t@[8] is None,
        t@[9] == Some(handlers@[4]),
        t@[10] is None,
        t@[11] == Some(handlers@[5]),
        t@[12] is None,
        t@[13] is None,
{
    let mut t: Vec<Option<u32>> = Vec::new();
    t.push(None);
    t.push(Some(handlers[0]));
    t.push(None);
    t.push(Some(handlers[1]));
    t.push(None);
    t.push(Some(handlers[2]));
    t.push(None);
    t.push(Some(handlers[3]));
    t.push(None);
    t.push(Some(handlers[4]));
    t.push(None);
    t.push(Some(handlers[5]));
    t.push(None);
    t.push(None);
    t
}

} // verus!
