use hpm_riscv_rt::registration::{
    classify_fast, core_interrupt_name, str_ends_with, validate_entry, validate_interrupt,
    validate_pre_init, Convention, FastItem, FastPlacement, FnSig, InterruptArg,
    RegistrationError, ReturnKind,
};

fn plain_sig(name: &str) -> FnSig {
    FnSig {
        name: name.to_string(),
        n_params: 0,
        is_const: false,
        is_async: false,
        is_unsafe: false,
        vis_inherited: true,
        has_abi: false,
        n_generic_params: 0,
        has_where_clause: false,
        has_variadic: false,
        output: ReturnKind::Omitted,
    }
}

fn entry_sig() -> FnSig {
    FnSig { output: ReturnKind::Never, ..plain_sig("app_main") }
}

#[test]
fn entry_accepts_a_plain_diverging_function() {
    let stub = validate_entry(&entry_sig(), 0).unwrap();
    assert_eq!(stub.export_name, "main");
    assert_eq!(stub.symbol, "__hpm_riscv_v_rt__main");
}

#[test]
fn entry_accepts_an_unsafe_diverging_function() {
    let sig = FnSig { is_unsafe: true, ..entry_sig() };
    assert!(validate_entry(&sig, 0).is_ok());
}

#[test]
fn entry_rejects_a_function_with_a_parameter() {
    let sig = FnSig { n_params: 1, ..entry_sig() };
    assert_eq!(validate_entry(&sig, 0).unwrap_err(), RegistrationError::EntryHasParameters);
}

#[test]
fn entry_rejects_a_returning_function() {
    for output in [ReturnKind::Omitted, ReturnKind::Unit, ReturnKind::Other] {
        let sig = FnSig { output, ..entry_sig() };
        assert_eq!(validate_entry(&sig, 0).unwrap_err(), RegistrationError::EntrySignatureInvalid);
    }
}

#[test]
fn entry_rejects_each_forbidden_qualifier() {
    let rejected = [
        FnSig { is_const: true, ..entry_sig() },
        FnSig { is_async: true, ..entry_sig() },
        FnSig { vis_inherited: false, ..entry_sig() },
        FnSig { has_abi: true, ..entry_sig() },
        FnSig { n_generic_params: 1, ..entry_sig() },
        FnSig { has_where_clause: true, ..entry_sig() },
        FnSig { has_variadic: true, ..entry_sig() },
    ];
    for sig in rejected {
        assert_eq!(validate_entry(&sig, 0).unwrap_err(), RegistrationError::EntrySignatureInvalid);
    }
}

#[test]
fn entry_rejects_attribute_arguments() {
    assert_eq!(validate_entry(&entry_sig(), 1).unwrap_err(), RegistrationError::AttributeHasArguments);
}

#[test]
fn core_interrupt_names_are_the_six_reserved_ones() {
    for name in [
        "SupervisorSoft",
        "MachineSoft",
        "SupervisorTimer",
        "MachineTimer",
        "SupervisorExternal",
        "MachineExternal",
    ] {
        assert!(core_interrupt_name(&name.to_string()));
    }
    assert!(!core_interrupt_name(&"UART0".to_string()));
    assert!(!core_interrupt_name(&"machineTimer".to_string()));
    assert!(!core_interrupt_name(&"MachineTimer2".to_string()));
}

#[test]
fn interrupt_named_for_a_core_interrupt_gets_forced_name_and_trap_return() {
    let stub = validate_interrupt(&plain_sig("MachineTimer"), &Vec::new()).unwrap();
    assert!(stub.is_core);
    assert_eq!(stub.link_name, "MachineTimer");
    assert_eq!(stub.symbol, "__rt_isr_MachineTimer");
    assert_eq!(stub.convention, Convention::TrapReturn);
}

#[test]
fn interrupt_with_nonreserved_name_gets_derived_name_and_plain_convention() {
    let stub = validate_interrupt(&plain_sig("UART0"), &Vec::new()).unwrap();
    assert!(!stub.is_core);
    assert_eq!(stub.link_name, "UART0");
    assert_eq!(stub.symbol, "__rt_isr_UART0");
    assert_eq!(stub.convention, Convention::PlainC);
}

#[test]
fn interrupt_attribute_argument_renames_the_handler() {
    let args = vec![InterruptArg::Name("MachineTimer".to_string())];
    let stub = validate_interrupt(&plain_sig("SysTick"), &args).unwrap();
    assert!(stub.is_core);
    assert_eq!(stub.link_name, "MachineTimer");
    assert_eq!(stub.symbol, "__rt_isr_MachineTimer");
    assert_eq!(stub.convention, Convention::TrapReturn);

    let args = vec![InterruptArg::Name("GPIO3".to_string())];
    let stub = validate_interrupt(&plain_sig("on_pin"), &args).unwrap();
    assert!(!stub.is_core);
    assert_eq!(stub.link_name, "GPIO3");
    assert_eq!(stub.symbol, "__rt_isr_GPIO3");
    assert_eq!(stub.convention, Convention::PlainC);
}

#[test]
fn interrupt_accepts_one_parameter_and_each_return_shape() {
    for output in [ReturnKind::Omitted, ReturnKind::Unit, ReturnKind::Never] {
        let sig = FnSig { n_params: 1, output, ..plain_sig("UART0") };
        assert!(validate_interrupt(&sig, &Vec::new()).is_ok());
    }
}

#[test]
fn interrupt_rejects_two_or_more_parameters() {
    for n_params in [2usize, 3, 7] {
        let sig = FnSig { n_params, ..plain_sig("UART0") };
        assert_eq!(validate_interrupt(&sig, &Vec::new()).unwrap_err(), RegistrationError::InterruptSignatureInvalid);
    }
}

#[test]
fn interrupt_rejects_a_value_returning_function() {
    let sig = FnSig { output: ReturnKind::Other, ..plain_sig("UART0") };
    assert_eq!(validate_interrupt(&sig, &Vec::new()).unwrap_err(), RegistrationError::InterruptSignatureInvalid);
}

#[test]
fn interrupt_rejects_too_many_attribute_arguments() {
    let args = vec![
        InterruptArg::Name("MachineTimer".to_string()),
        InterruptArg::Name("MachineSoft".to_string()),
    ];
    assert_eq!(validate_interrupt(&plain_sig("SysTick"), &args).unwrap_err(), RegistrationError::InterruptTooManyArguments);
}

#[test]
fn interrupt_rejects_an_argument_that_is_not_a_name() {
    let args = vec![InterruptArg::NotAName];
    assert_eq!(validate_interrupt(&plain_sig("SysTick"), &args).unwrap_err(), RegistrationError::InterruptArgumentNotAName);
}

fn pre_init_sig() -> FnSig {
    FnSig { is_unsafe: true, ..plain_sig("before_main") }
}

#[test]
fn pre_init_accepts_an_unsafe_unit_function() {
    let stub = validate_pre_init(&pre_init_sig(), 0).unwrap();
    assert_eq!(stub.export_name, "__pre_init");
    let sig = FnSig { output: ReturnKind::Unit, ..pre_init_sig() };
    assert!(validate_pre_init(&sig, 0).is_ok());
}

#[test]
fn pre_init_rejects_a_function_missing_the_unsafe_qualifier() {
    let sig = FnSig { is_unsafe: false, ..pre_init_sig() };
    assert_eq!(validate_pre_init(&sig, 0).unwrap_err(), RegistrationError::PreInitSignatureInvalid);
}

#[test]
fn pre_init_rejects_parameters_and_results() {
    let sig = FnSig { n_params: 1, ..pre_init_sig() };
    assert_eq!(validate_pre_init(&sig, 0).unwrap_err(), RegistrationError::PreInitSignatureInvalid);
    let sig = FnSig { output: ReturnKind::Other, ..pre_init_sig() };
    assert_eq!(validate_pre_init(&sig, 0).unwrap_err(), RegistrationError::PreInitSignatureInvalid);
    assert_eq!(validate_pre_init(&pre_init_sig(), 2).unwrap_err(), RegistrationError::AttributeHasArguments);
}

#[test]
fn str_ends_with_checks_the_suffix_exactly() {
    assert!(str_ends_with("MaybeUninit :: uninit()", "MaybeUninit :: uninit()"));
    assert!(str_ends_with("core :: mem :: MaybeUninit :: uninit()", "MaybeUninit :: uninit()"));
    assert!(!str_ends_with("uninit()", "MaybeUninit :: uninit()"));
    assert!(!str_ends_with("MaybeUninit :: uninit() ", "MaybeUninit :: uninit()"));
    assert!(str_ends_with("anything", ""));
}

#[test]
fn fast_function_goes_to_fast_text_and_stays_out_of_line() {
    let placement = classify_fast(&FastItem::Function).unwrap();
    assert_eq!(placement, FastPlacement::FastText);
    assert_eq!(placement.section(), ".fast.text");
    assert!(placement.forbids_inline());
}

#[test]
fn fast_uninit_static_goes_to_fast_bss() {
    for init in ["MaybeUninit :: uninit()", "core :: mem :: MaybeUninit :: uninit_array()"] {
        let item = FastItem::Static { init_call: Some(init.to_string()) };
        let placement = classify_fast(&item).unwrap();
        assert_eq!(placement, FastPlacement::FastBss);
        assert_eq!(placement.section(), ".fast.bss");
        assert!(!placement.forbids_inline());
    }
}

#[test]
fn fast_initialized_static_goes_to_fast_data() {
    let item = FastItem::Static { init_call: Some("AtomicU32 :: new(7)".to_string()) };
    let placement = classify_fast(&item).unwrap();
    assert_eq!(placement, FastPlacement::FastData);
    assert_eq!(placement.section(), ".fast.data");

    let item = FastItem::Static { init_call: None };
    assert_eq!(classify_fast(&item).unwrap(), FastPlacement::FastData);
}

#[test]
fn fast_rejects_other_items() {
    assert_eq!(
        classify_fast(&FastItem::OtherItem).unwrap_err(), RegistrationError::FastExpectedFnOrStatic);
}
