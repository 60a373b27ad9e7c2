use napi_cli::descriptor::{
    CallbackDescriptor, FnKind, FunctionDescriptor, Parameter, ReceiverKind, ReferenceMode,
    ReturnType, ValueType,
};
use napi_cli::dispatch::{
    export_record_name, gen_fn_receiver, gen_fn_register, gen_fn_return, generate,
};
use napi_cli::emit::{
    BodyItem, CallArg, Callee, Conversion, Declaration, Invocation, Prologue, Registration,
    ReturnAssembly, SourceFunction, Statement, TrampolineStep,
};
use napi_cli::marshal::{gen_arg_conversions, trampoline_steps};

fn descriptor(parameters: Vec<Parameter>) -> FunctionDescriptor {
    FunctionDescriptor {
        name: "sum".to_string(),
        exported_name: "sum".to_string(),
        kind: FnKind::Plain,
        receiver: None,
        owner: None,
        parameters,
        return_type: Some(ReturnType::Named("i32".to_string())),
        is_fallible: false,
        is_async: false,
        strict: false,
        namespace: None,
    }
}

fn value(ty: &str, mode: ReferenceMode) -> Parameter {
    Parameter::Value { ty: ValueType::Named(ty.to_string()), mode }
}

fn callback(pure: bool, inputs: usize, ret: bool) -> Parameter {
    Parameter::Callback(CallbackDescriptor {
        input_types: (0..inputs).map(|_| "u32".to_string()).collect(),
        return_type: if ret { Some("String".to_string()) } else { None },
        pure,
        binding_name: "T".to_string(),
    })
}

fn item(stmts: &[&str]) -> SourceFunction {
    SourceFunction {
        signature: "fn sum(a: i32, b: i32) -> i32".to_string(),
        body: stmts.iter().map(|s| BodyItem::Statement(s.to_string())).collect(),
    }
}

#[test]
fn environment_handle_takes_no_slot() {
    let d = descriptor(vec![
        Parameter::EnvironmentHandle,
        value("i32", ReferenceMode::Owned),
        value("i32", ReferenceMode::Owned),
    ]);
    let plan = gen_arg_conversions(&d);
    assert_eq!(
        plan.conversions,
        vec![
            Statement::ConvertValue { param: 1, slot: 0, conversion: Conversion::Owned },
            Statement::ConvertValue { param: 2, slot: 1, conversion: Conversion::Owned },
        ]
    );
    assert_eq!(plan.args, vec![CallArg::Environment, CallArg::Local(0), CallArg::Local(1)]);
}

#[test]
fn owner_reference_reuses_the_instance_handle() {
    let mut d = descriptor(vec![
        Parameter::Value {
            ty: ValueType::ManagedReference("Animal".to_string()),
            mode: ReferenceMode::Owned,
        },
        value("String", ReferenceMode::Owned),
    ]);
    d.owner = Some("Animal".to_string());
    d.receiver = Some(ReceiverKind::BorrowedSelf);
    let plan = gen_arg_conversions(&d);
    assert_eq!(
        plan.conversions,
        vec![
            Statement::RecoverReceiver { mutable: false },
            Statement::ConvertValue { param: 1, slot: 0, conversion: Conversion::Owned },
        ]
    );
    assert_eq!(plan.args, vec![CallArg::OwnerReference, CallArg::Local(0)]);
}

#[test]
fn reference_to_another_class_takes_a_slot() {
    let mut d = descriptor(vec![Parameter::Value {
        ty: ValueType::ManagedReference("Other".to_string()),
        mode: ReferenceMode::Owned,
    }]);
    d.owner = Some("Animal".to_string());
    let plan = gen_arg_conversions(&d);
    assert_eq!(plan.args, vec![CallArg::Local(0)]);
    assert_eq!(plan.conversions.len(), 1);
}

#[test]
fn mutable_receiver_is_recovered_exclusively() {
    let mut d = descriptor(vec![]);
    d.owner = Some("Counter".to_string());
    d.receiver = Some(ReceiverKind::MutablyBorrowedSelf);
    let plan = gen_arg_conversions(&d);
    assert_eq!(plan.conversions, vec![Statement::RecoverReceiver { mutable: true }]);
    assert_eq!(gen_fn_receiver(&d), Callee::Method);
}

#[test]
fn reference_modes_choose_the_conversion() {
    let mut d = descriptor(vec![
        value("Buffer", ReferenceMode::MutablyBorrowed),
        value("Buffer", ReferenceMode::Borrowed),
        value("u32", ReferenceMode::Owned),
    ]);
    d.strict = true;
    let plan = gen_arg_conversions(&d);
    assert_eq!(
        plan.conversions,
        vec![
            Statement::ConvertValue { param: 0, slot: 0, conversion: Conversion::MutableRef },
            Statement::ConvertValue { param: 1, slot: 1, conversion: Conversion::SharedRef },
            Statement::ConvertValue { param: 2, slot: 2, conversion: Conversion::Validated },
        ]
    );
}

#[test]
fn owned_values_line_up_with_arguments() {
    let d = descriptor(vec![
        value("u8", ReferenceMode::Owned),
        value("u16", ReferenceMode::Owned),
        value("u32", ReferenceMode::Owned),
    ]);
    let plan = gen_arg_conversions(&d);
    assert_eq!(plan.conversions.len(), plan.args.len());
    for j in 0..3 {
        assert_eq!(
            plan.conversions[j],
            Statement::ConvertValue { param: j, slot: j, conversion: Conversion::Owned }
        );
        assert_eq!(plan.args[j], CallArg::Local(j));
    }
}

#[test]
fn stateful_callbacks_get_numbered_interfaces() {
    let d = descriptor(vec![
        callback(false, 1, true),
        callback(true, 0, false),
        Parameter::EnvironmentHandle,
        callback(false, 2, false),
    ]);
    let plan = gen_arg_conversions(&d);
    assert_eq!(
        plan.conversions,
        vec![
            Statement::BuildCallback { param: 0, slot: 0, wrapped: true, checked_in_debug: true },
            Statement::BuildCallback { param: 1, slot: 1, wrapped: false, checked_in_debug: true },
            Statement::BuildCallback { param: 3, slot: 2, wrapped: true, checked_in_debug: true },
        ]
    );
    assert_eq!(
        plan.interfaces,
        vec![
            Declaration::Interface { param: 0, index: 0 },
            Declaration::Interface { param: 3, index: 1 },
        ]
    );
    assert_eq!(
        plan.implementations,
        vec![
            Declaration::Implementation { param: 0, index: 0 },
            Declaration::Implementation { param: 3, index: 1 },
        ]
    );
}

#[test]
fn declarations_precede_the_written_statements() {
    let d = descriptor(vec![callback(false, 1, true), value("i32", ReferenceMode::Owned)]);
    let unit = generate(&d, item(&["let x = 1;", "x"]));
    assert_eq!(unit.item.body.len(), 4);
    assert!(matches!(
        unit.item.body[0],
        BodyItem::Declaration(Declaration::Interface { param: 0, index: 0 })
    ));
    assert!(matches!(
        unit.item.body[1],
        BodyItem::Declaration(Declaration::Implementation { param: 0, index: 0 })
    ));
    assert!(matches!(&unit.item.body[2], BodyItem::Statement(s) if s == "let x = 1;"));
    assert!(matches!(&unit.item.body[3], BodyItem::Statement(s) if s == "x"));
    assert_eq!(unit.item.signature, "fn sum(a: i32, b: i32) -> i32");
}

#[test]
fn pure_callbacks_leave_the_body_alone() {
    let d = descriptor(vec![callback(true, 1, false)]);
    let unit = generate(&d, item(&["f(1)"]));
    assert_eq!(unit.item.body.len(), 1);
}

#[test]
fn trampoline_converts_inputs_then_calls_once() {
    let steps = trampoline_steps(&CallbackDescriptor {
        input_types: vec!["u32".to_string(), "String".to_string()],
        return_type: Some("bool".to_string()),
        pure: true,
        binding_name: "T".to_string(),
    });
    assert_eq!(
        steps,
        vec![
            TrampolineStep::ConvertInput(0),
            TrampolineStep::ConvertInput(1),
            TrampolineStep::InvokeHost,
            TrampolineStep::ConvertResult,
        ]
    );
    let unit_steps = trampoline_steps(&CallbackDescriptor {
        input_types: vec![],
        return_type: None,
        pure: false,
        binding_name: "T".to_string(),
    });
    assert_eq!(unit_steps, vec![TrampolineStep::InvokeHost, TrampolineStep::UnitResult]);
}

#[test]
fn dispatch_table_rows() {
    let mut d = descriptor(vec![]);
    d.kind = FnKind::Constructor;
    d.is_fallible = true;
    assert_eq!(gen_fn_return(&d), ReturnAssembly::Construct { unwrap: true });
    d.is_fallible = false;
    assert_eq!(gen_fn_return(&d), ReturnAssembly::Construct { unwrap: false });
    d.kind = FnKind::Factory;
    assert_eq!(gen_fn_return(&d), ReturnAssembly::Factory { unwrap: false });
    d.is_fallible = true;
    assert_eq!(gen_fn_return(&d), ReturnAssembly::Factory { unwrap: true });

    d.kind = FnKind::Plain;
    d.is_async = true;
    assert_eq!(gen_fn_return(&d), ReturnAssembly::Convert);
    d.is_async = false;
    assert_eq!(gen_fn_return(&d), ReturnAssembly::ConvertOrThrow);
    d.return_type = Some(ReturnType::SelfReference { mutable: false });
    assert_eq!(gen_fn_return(&d), ReturnAssembly::ThisOnSuccess);
    d.is_fallible = false;
    assert_eq!(gen_fn_return(&d), ReturnAssembly::This);
    d.return_type = Some(ReturnType::Named("u32".to_string()));
    assert_eq!(gen_fn_return(&d), ReturnAssembly::Convert);
    d.return_type = None;
    assert_eq!(gen_fn_return(&d), ReturnAssembly::Unit);
    d.kind = FnKind::Constructor;
    assert_eq!(gen_fn_return(&d), ReturnAssembly::Unit);
}

#[test]
fn constructor_checks_the_factory_guard() {
    let mut d = descriptor(vec![value("u32", ReferenceMode::Owned)]);
    d.kind = FnKind::Constructor;
    d.owner = Some("Point".to_string());
    let unit = generate(&d, item(&[]));
    assert_eq!(unit.entry.prologue, Prologue::GuardedFrame);
    assert_eq!(unit.entry.callee, Callee::Associated);
    assert!(matches!(unit.registration, Registration::Delegated));
    assert_eq!(unit.entry.arity, 1);
}

#[test]
fn zero_argument_free_function_is_called_directly() {
    let d = descriptor(vec![]);
    let unit = generate(&d, item(&[]));
    assert_eq!(unit.entry.prologue, Prologue::Direct);
    assert_eq!(unit.entry.callee, Callee::Free);
    match &unit.registration {
        Registration::Export(rec) => {
            assert_eq!(rec.name, "sum\0");
            assert_eq!(rec.name_len, 4);
            assert_eq!(rec.namespace, None);
        }
        Registration::Delegated => panic!("a free function exports itself"),
    }
    assert!(unit.entry.conversions.is_empty());
}

#[test]
fn factory_with_no_arguments_opens_the_frame() {
    let mut d = descriptor(vec![]);
    d.kind = FnKind::Factory;
    d.owner = Some("Point".to_string());
    let unit = generate(&d, item(&[]));
    assert_eq!(unit.entry.prologue, Prologue::Frame);
    assert!(matches!(gen_fn_register(&d), Registration::Delegated));
}

#[test]
fn async_fallible_call_is_deferred() {
    let mut d = descriptor(vec![value("String", ReferenceMode::Owned)]);
    d.is_async = true;
    d.is_fallible = true;
    d.return_type = Some(ReturnType::Named("String".to_string()));
    let unit = generate(&d, item(&[]));
    assert_eq!(unit.entry.invocation, Invocation::Deferred { fallible: true });
    assert_eq!(unit.entry.ret, ReturnAssembly::Convert);
    assert_eq!(unit.entry.prologue, Prologue::Frame);
}

#[test]
fn sync_call_runs_inline() {
    let d = descriptor(vec![value("String", ReferenceMode::Owned)]);
    let unit = generate(&d, item(&[]));
    assert_eq!(unit.entry.invocation, Invocation::Inline);
}

#[test]
fn well_formedness_check() {
    let mut d = descriptor(vec![]);
    assert!(d.is_well_formed());
    d.receiver = Some(ReceiverKind::BorrowedSelf);
    assert!(!d.is_well_formed());
    d.owner = Some("A".to_string());
    assert!(d.is_well_formed());
    d.receiver = Some(ReceiverKind::ValueSelf);
    assert!(!d.is_well_formed());
}

#[test]
fn last_callback_declarations_come_first() {
    let d = descriptor(vec![
        callback(false, 1, true),
        value("i32", ReferenceMode::Owned),
        callback(false, 0, false),
    ]);
    let unit = generate(&d, item(&["body()"]));
    assert_eq!(unit.item.body.len(), 5);
    assert!(matches!(
        unit.item.body[0],
        BodyItem::Declaration(Declaration::Interface { param: 2, index: 1 })
    ));
    assert!(matches!(
        unit.item.body[1],
        BodyItem::Declaration(Declaration::Implementation { param: 2, index: 1 })
    ));
    assert!(matches!(
        unit.item.body[2],
        BodyItem::Declaration(Declaration::Interface { param: 0, index: 0 })
    ));
    assert!(matches!(
        unit.item.body[3],
        BodyItem::Declaration(Declaration::Implementation { param: 0, index: 0 })
    ));
    assert!(matches!(&unit.item.body[4], BodyItem::Statement(s) if s == "body()"));
}

#[test]
fn export_record_name_is_nul_terminated() {
    assert_eq!(export_record_name("sum"), ("sum\0".to_string(), 4));
    assert_eq!(export_record_name("größe"), ("größe\0".to_string(), 8));
    assert_eq!(export_record_name(""), ("\0".to_string(), 1));
}

#[test]
fn export_record_carries_namespace() {
    let mut d = descriptor(vec![]);
    d.exported_name = "addAll".to_string();
    d.namespace = Some("math".to_string());
    match gen_fn_register(&d) {
        Registration::Export(rec) => {
            assert_eq!(rec.name, "addAll\0");
            assert_eq!(rec.name_len, 7);
            assert_eq!(rec.namespace, Some("math".to_string()));
        }
        Registration::Delegated => panic!("a free function exports itself"),
    }
}

#[test]
fn callbacks_carry_their_trampolines() {
    let d = descriptor(vec![
        value("u32", ReferenceMode::Owned),
        callback(true, 2, true),
        Parameter::EnvironmentHandle,
        callback(false, 0, false),
    ]);
    let unit = generate(&d, item(&[]));
    assert_eq!(unit.entry.trampolines.len(), 4);
    assert_eq!(unit.entry.trampolines[0], None);
    assert_eq!(
        unit.entry.trampolines[1],
        Some(vec![
            TrampolineStep::ConvertInput(0),
            TrampolineStep::ConvertInput(1),
            TrampolineStep::InvokeHost,
            TrampolineStep::ConvertResult,
        ])
    );
    assert_eq!(unit.entry.trampolines[2], None);
    assert_eq!(
        unit.entry.trampolines[3],
        Some(vec![TrampolineStep::InvokeHost, TrampolineStep::UnitResult])
    );
    assert_eq!(
        unit.entry.conversions[1],
        Statement::BuildCallback { param: 1, slot: 1, wrapped: false, checked_in_debug: true }
    );
}

#[test]
fn owner_reference_needs_a_receiver() {
    let mut d = descriptor(vec![Parameter::Value {
        ty: ValueType::ManagedReference("Animal".to_string()),
        mode: ReferenceMode::Owned,
    }]);
    d.owner = Some("Animal".to_string());
    assert!(!d.is_well_formed());
    d.receiver = Some(ReceiverKind::BorrowedSelf);
    assert!(d.is_well_formed());
}
