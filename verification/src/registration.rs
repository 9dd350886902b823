//! Handler registration: validating user-authored functions against the
//! runtime's calling-convention contracts and deriving the names, linkage
//! and placement their re-emitted stubs must carry.
//!
//! The build step parses each user function and hands its signature here as
//! a plain [`FnSig`]; everything it then emits — export names, derived
//! symbols, calling conventions, link sections — is decided by the verified
//! functions of this module and pinned down by their contracts. A signature
//! that violates a contract is rejected with the clause it violates; no
//! signature is ever silently coerced.

use vstd::prelude::*;

verus! {

/// The return type a user function declares.
#[derive(Clone, Copy, Debug, PartialEq, Eq, Structural)]
pub enum ReturnKind {
    /// No return type written at all.
    Omitted,
    /// The empty tuple, written out.
    Unit,
    /// The never type: the function cannot return.
    Never,
    /// Any other type.
    Other,
}

/// What registration reads of a user-authored function: its name and the
/// signature clauses the contracts judge.
pub struct FnSig {
    pub name: String,
    pub n_params: usize,
    pub is_const: bool,
    pub is_async: bool,
    pub is_unsafe: bool,
    /// Default (inherited) visibility, no `pub` of any form.
    pub vis_inherited: bool,
    /// An explicit calling-convention annotation is present.
    pub has_abi: bool,
    pub n_generic_params: usize,
    pub has_where_clause: bool,
    pub has_variadic: bool,
    pub output: ReturnKind,
}

/// The violated clause a rejected registration reports.
#[derive(Clone, Copy, Debug, PartialEq, Eq, Structural)]
pub enum RegistrationError {
    /// The entry point takes no arguments.
    EntryHasParameters,
    /// The entry point must be `[unsafe] fn() -> !`.
    EntrySignatureInvalid,
    /// The attribute itself accepts no arguments.
    AttributeHasArguments,
    /// The interrupt attribute accepts at most one argument.
    InterruptTooManyArguments,
    /// The interrupt attribute's argument must be a plain interrupt name.
    InterruptArgumentNotAName,
    /// An interrupt handler must be `[unsafe] fn() [-> !]` with at most
    /// one parameter.
    InterruptSignatureInvalid,
    /// A pre-init hook must be `unsafe fn()`.
    PreInitSignatureInvalid,
    /// Fast placement applies only to a function or a static.
    FastExpectedFnOrStatic,
}

/// The calling convention a handler stub is emitted with.
#[derive(Clone, Copy, Debug, PartialEq, Eq, Structural)]
pub enum Convention {
    /// The platform's trap-return convention, for the reserved core
    /// interrupts.
    TrapReturn,
    /// The plain "C" convention.
    PlainC,
}

/// The entry-point contract: no const or async qualifier, default
/// visibility, no explicit calling convention, no generics or where
/// clause, not variadic, and a declared never-returning result.
pub open spec fn entry_sig_ok(s: FnSig) -> bool {
    &&& !s.is_const
    &&& !s.is_async
    &&& s.vis_inherited
    &&& !s.has_abi
    &&& s.n_generic_params == 0
    &&& !s.has_where_clause
    &&& !s.has_variadic
    &&& s.output == ReturnKind::Never
}

/// The renamed, relinked equivalent of a valid entry point.
#[derive(Debug)]
pub struct EntryStub {
    /// The external name the startup sequence calls.
    pub export_name: String,
    /// The name the wrapper function itself is emitted under.
    pub symbol: String,
}

/// Validates an application entry point and derives its stub: the function
/// is re-exported under the external name `main` that the reset path
/// calls. Rejection identifies the violated clause: parameters first, then
/// the signature contract, then arguments to the attribute itself.
pub fn validate_entry(sig: &FnSig, n_attr_args: usize) -> (r: Result<
    EntryStub,
    RegistrationError,
>)
    ensures
        sig.n_params > 0 ==> r == Err::<EntryStub, _>(RegistrationError::EntryHasParameters),
        sig.n_params == 0 && !entry_sig_ok(*sig) ==> r == Err::<EntryStub, _>(
            RegistrationError::EntrySignatureInvalid,
        ),
        sig.n_params == 0 && entry_sig_ok(*sig) && n_attr_args > 0 ==> r == Err::<EntryStub, _>(
            RegistrationError::AttributeHasArguments,
        ),
        sig.n_params == 0 && entry_sig_ok(*sig) && n_attr_args == 0 ==> (r matches Ok(stub)
            && stub.export_name@ == "main"@ && stub.symbol@ == "__hpm_riscv_v_rt__main"@),
{
    if sig.n_params > 0 {
        return Err(RegistrationError::EntryHasParameters);
    }
    let ok = !sig.is_const && !sig.is_async && sig.vis_inherited && !sig.has_abi
        && sig.n_generic_params == 0 && !sig.has_where_clause && !sig.has_variadic && matches!(
        sig.output,
        ReturnKind::Never
    );
    if !ok {
        return Err(RegistrationError::EntrySignatureInvalid);
    }
    if n_attr_args > 0 {
        return Err(RegistrationError::AttributeHasArguments);
    }
    Ok(
        EntryStub {
            export_name: String::from_str("main"),
            symbol: String::from_str("__hpm_riscv_v_rt__main"),
        },
    )
}

/// The six reserved core interrupt names, whose handlers are force-linked
/// to exactly these external names.
pub open spec fn is_core_interrupt_name(s: Seq<char>) -> bool {
    ||| s == "SupervisorSoft"@
    ||| s == "MachineSoft"@
    ||| s == "SupervisorTimer"@
    ||| s == "MachineTimer"@
    ||| s == "SupervisorExternal"@
    ||| s == "MachineExternal"@
}

/// Decides whether `name` is one of the six reserved core interrupt
/// names.
pub fn core_interrupt_name(name: &String) -> (r: bool)
    ensures
        r == is_core_interrupt_name(name@),
{
    *name == String::from_str("SupervisorSoft") || *name == String::from_str("MachineSoft")
        || *name == String::from_str("SupervisorTimer") || *name == String::from_str(
        "MachineTimer",
    ) || *name == String::from_str("SupervisorExternal") || *name == String::from_str(
        "MachineExternal",
    )
}

/// One argument handed to the interrupt attribute.
#[derive(Debug)]
pub enum InterruptArg {
    /// A plain single-segment name.
    Name(String),
    /// Anything else.
    NotAName,
}

/// The interrupt-handler contract: no const qualifier, default visibility,
/// no explicit calling convention, no generics or where clause, not
/// variadic, at most one parameter, and a result that is nothing, the
/// empty tuple, or never-returning.
pub open spec fn interrupt_sig_ok(s: FnSig) -> bool {
    &&& !s.is_const
    &&& s.vis_inherited
    &&& !s.has_abi
    &&& s.n_generic_params == 0
    &&& !s.has_where_clause
    &&& !s.has_variadic
    &&& s.n_params <= 1
    &&& (s.output == ReturnKind::Omitted || s.output == ReturnKind::Unit || s.output
        == ReturnKind::Never)
}

/// The interrupt name a registration asks for: the attribute's argument
/// when one is given, else the function's own name.
pub open spec fn requested_interrupt_name(sig: FnSig, args: Seq<InterruptArg>) -> Seq<char> {
    if args.len() == 1 {
        match args[0] {
            InterruptArg::Name(n) => n@,
            InterruptArg::NotAName => sig.name@,
        }
    } else {
        sig.name@
    }
}

/// The renamed, relinked equivalent of a valid interrupt handler.
#[derive(Debug)]
pub struct InterruptStub {
    /// The external name the handler is linked under: for a reserved core
    /// interrupt, exactly that reserved name.
    pub link_name: String,
    /// The derived name the re-emitted function itself carries.
    pub symbol: String,
    /// The name matched one of the six reserved core interrupt names.
    pub is_core: bool,
    /// Core interrupts get the trap-return convention, others plain "C".
    pub convention: Convention,
}

/// Validates an interrupt handler and derives its stub. The handler's
/// interrupt is named by the attribute argument if present, else by the
/// function's own name; the stub is re-emitted under the derived symbol
/// `__rt_isr_<NAME>` and force-linked to `<NAME>` itself. A reserved core
/// interrupt name selects the trap-return calling convention, any other
/// name the plain "C" convention.
pub fn validate_interrupt(sig: &FnSig, args: &Vec<InterruptArg>) -> (r: Result<
    InterruptStub,
    RegistrationError,
>)
    ensures
        args@.len() > 1 ==> r == Err::<InterruptStub, _>(
            RegistrationError::InterruptTooManyArguments,
        ),
        args@.len() == 1 && args@[0] is NotAName ==> r == Err::<InterruptStub, _>(
            RegistrationError::InterruptArgumentNotAName,
        ),
        (args@.len() == 0 || (args@.len() == 1 && args@[0] is Name)) && !interrupt_sig_ok(*sig)
            ==> r == Err::<InterruptStub, _>(RegistrationError::InterruptSignatureInvalid),
        (args@.len() == 0 || (args@.len() == 1 && args@[0] is Name)) && interrupt_sig_ok(*sig)
            ==> (r matches Ok(stub) && {
            &&& stub.link_name@ == requested_interrupt_name(*sig, args@)
            &&& stub.symbol@ == "__rt_isr_"@ + stub.link_name@
            &&& stub.is_core == is_core_interrupt_name(stub.link_name@)
            &&& stub.convention == (if stub.is_core {
                Convention::TrapReturn
            } else {
                Convention::PlainC
            })
        }),
{
    if args.len() > 1 {
        return Err(RegistrationError::InterruptTooManyArguments);
    }
    let link_name: String = if args.len() == 1 {
        let a0 = &args[0];
        match a0 {
            InterruptArg::Name(n) => n.clone(),
            InterruptArg::NotAName => {
                return Err(RegistrationError::InterruptArgumentNotAName);
            },
        }
    } else {
        sig.name.clone()
    };
    let ok = !sig.is_const && sig.vis_inherited && !sig.has_abi && sig.n_generic_params == 0
        && !sig.has_where_clause && !sig.has_variadic && sig.n_params <= 1 && (matches!(
        sig.output,
        ReturnKind::Omitted
    ) || matches!(sig.output, ReturnKind::Unit) || matches!(sig.output, ReturnKind::Never));
    if !ok {
        return Err(RegistrationError::InterruptSignatureInvalid);
    }
    let is_core = core_interrupt_name(&link_name);
    let symbol = String::from_str("__rt_isr_").concat(link_name.as_str());
    let convention = if is_core {
        Convention::TrapReturn
    } else {
        Convention::PlainC
    };
    Ok(InterruptStub { link_name, symbol, is_core, convention })
}

/// The pre-init contract: declared `unsafe` (it runs before the stack is
/// finalized), with no const qualifier, default visibility, no explicit
/// calling convention, no parameters, no generics or where clause, not
/// variadic, and no result beyond the empty tuple.
pub open spec fn pre_init_sig_ok(s: FnSig) -> bool {
    &&& !s.is_const
    &&& s.vis_inherited
    &&& s.is_unsafe
    &&& !s.has_abi
    &&& s.n_params == 0
    &&& s.n_generic_params == 0
    &&& !s.has_where_clause
    &&& !s.has_variadic
    &&& (s.output == ReturnKind::Omitted || s.output == ReturnKind::Unit)
}

/// The re-exported equivalent of a valid pre-init hook.
#[derive(Debug)]
pub struct PreInitStub {
    /// The fixed external name the startup sequence calls before the
    /// stack pointer is finalized.
    pub export_name: String,
}

/// Validates a pre-initialization hook and derives its stub, re-exported
/// under the fixed external name `__pre_init` the reset path calls.
pub fn validate_pre_init(sig: &FnSig, n_attr_args: usize) -> (r: Result<
    PreInitStub,
    RegistrationError,
>)
    ensures
        !pre_init_sig_ok(*sig) ==> r == Err::<PreInitStub, _>(
            RegistrationError::PreInitSignatureInvalid,
        ),
        pre_init_sig_ok(*sig) && n_attr_args > 0 ==> r == Err::<PreInitStub, _>(
            RegistrationError::AttributeHasArguments,
        ),
        pre_init_sig_ok(*sig) && n_attr_args == 0 ==> (r matches Ok(stub) && stub.export_name@
            == "__pre_init"@),
{
    let ok = !sig.is_const && sig.vis_inherited && sig.is_unsafe && !sig.has_abi && sig.n_params
        == 0 && sig.n_generic_params == 0 && !sig.has_where_clause && !sig.has_variadic && (
    matches!(sig.output, ReturnKind::Omitted) || matches!(sig.output, ReturnKind::Unit));
    if !ok {
        return Err(RegistrationError::PreInitSignatureInvalid);
    }
    if n_attr_args > 0 {
        return Err(RegistrationError::AttributeHasArguments);
    }
    Ok(PreInitStub { export_name: String::from_str("__pre_init") })
}

/// `s` ends in `suffix`.
pub open spec fn seq_ends_with(s: Seq<char>, suffix: Seq<char>) -> bool {
    s.len() >= suffix.len() && s.subrange(s.len() - suffix.len(), s.len() as int) == suffix
}

/// Decides whether `s` ends in `suffix`, character by character.
pub fn str_ends_with(s: &str, suffix: &str) -> (r: bool)
    ensures
        r == seq_ends_with(s@, suffix@),
{
    let n: usize = s.unicode_len();
    let m: usize = suffix.unicode_len();
    if m > n {
        return false;
    }
    let mut i: usize = 0;
    while i < m
        invariant
            i <= m,
            m <= n,
            n == s@.len(),
            m == suffix@.len(),
            forall|j: int| 0 <= j < i ==> s@[n - m + j] == suffix@[j],
        decreases m - i,
    {
        if s.get_char(n - m + i) != suffix.get_char(i) {
            proof {
                assert(s@.subrange(n - m, n as int)[i as int] == s@[n - m + i]);
            }
            return false;
        }
        i += 1;
    }
    proof {
        assert(s@.subrange(n - m, n as int) =~= suffix@);
    }
    true
}

/// The item the fast-placement attribute was put on: a function, a static
/// together with the printed form of its initializer when that is a
/// constructor call, or anything else.
#[derive(Debug)]
pub enum FastItem {
    Function,
    Static { init_call: Option<String> },
    OtherItem,
}

/// Where a fast-placed item lands.
#[derive(Clone, Copy, Debug, PartialEq, Eq, Structural)]
pub enum FastPlacement {
    /// The fast-code region; the function is also marked never-inline so
    /// its code truly resides at the fast address.
    FastText,
    /// The fast initialized-data region.
    FastData,
    /// The fast zero-fill region.
    FastBss,
}

/// A static whose initializer is syntactically an uninitialized
/// constructor call carries no image bytes and belongs in the zero-fill
/// region.
pub open spec fn is_uninit_ctor(s: Seq<char>) -> bool {
    seq_ends_with(s, "MaybeUninit :: uninit()"@) || seq_ends_with(
        s,
        "MaybeUninit :: uninit_array()"@,
    )
}

/// A static goes to the fast zero-fill region exactly when its
/// initializer is an uninitialized constructor call.
pub open spec fn static_goes_to_bss(init_call: Option<String>) -> bool {
    init_call matches Some(c) && is_uninit_ctor(c@)
}

impl FastPlacement {
    /// The link section the placement selects.
    pub fn section(&self) -> (s: String)
        ensures
            *self == FastPlacement::FastText ==> s@ == ".fast.text"@,
            *self == FastPlacement::FastData ==> s@ == ".fast.data"@,
            *self == FastPlacement::FastBss ==> s@ == ".fast.bss"@,
    {
        match self {
            FastPlacement::FastText => String::from_str(".fast.text"),
            FastPlacement::FastData => String::from_str(".fast.data"),
            FastPlacement::FastBss => String::from_str(".fast.bss"),
        }
    }

    /// Whether the placement also forbids inlining; it does exactly for
    /// fast-placed code.
    pub fn forbids_inline(&self) -> (r: bool)
        ensures
            r == (*self == FastPlacement::FastText),
    {
        matches!(self, FastPlacement::FastText)
    }
}

/// Classifies an item under the fast-placement attribute: a function goes
/// to the fast-code region (and is kept out of line), a zero-initialized
/// static to the fast zero-fill region, any other static to the fast
/// initialized-data region; anything else is rejected.
pub fn classify_fast(item: &FastItem) -> (r: Result<FastPlacement, RegistrationError>)
    ensures
        *item is Function ==> r == Ok::<_, RegistrationError>(FastPlacement::FastText),
        *item matches FastItem::Static { init_call } && static_goes_to_bss(init_call) ==> r
            == Ok::<_, RegistrationError>(FastPlacement::FastBss),
        *item matches FastItem::Static { init_call } && !static_goes_to_bss(init_call) ==> r
            == Ok::<_, RegistrationError>(FastPlacement::FastData),
        *item is OtherItem ==> r == Err::<FastPlacement, _>(
            RegistrationError::FastExpectedFnOrStatic,
        ),
{
    match item {
        FastItem::Function => Ok(FastPlacement::FastText),
        FastItem::Static { init_call } => {
            match init_call {
                Some(c) => {
                    if str_ends_with(c.as_str(), "MaybeUninit :: uninit()") || str_ends_with(
                        c.as_str(),
                        "MaybeUninit :: uninit_array()",
                    ) {
                        Ok(FastPlacement::FastBss)
                    } else {
                        Ok(FastPlacement::FastData)
                    }
                },
                None => Ok(FastPlacement::FastData),
            }
        },
        FastItem::OtherItem => Err(RegistrationError::FastExpectedFnOrStatic),
    }
}

} // verus!
