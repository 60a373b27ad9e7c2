//! Argument marshalling: which conversion each parameter gets, from which
//! call-frame slot, and which declarations its callbacks need.
use vstd::prelude::*;

use crate::descriptor::{
    consumes_slot, interface_count, is_owner_reference, lemma_interface_count_bounded,
    lemma_slot_count_bounded, needs_interface, slot_count, CallbackDescriptor,
    FunctionDescriptor, Parameter, ReceiverKind, ReferenceMode, ValueType,
};
use crate::emit::{CallArg, Conversion, Declaration, Statement, TrampolineStep};

verus! {

/// The conversion a value parameter received in `mode` gets.
pub open spec fn conversion_for(mode: ReferenceMode, strict: bool) -> Conversion {
    match mode {
        ReferenceMode::MutablyBorrowed => Conversion::MutableRef,
        ReferenceMode::Borrowed => Conversion::SharedRef,
        ReferenceMode::Owned => if strict {
            Conversion::Validated
        } else {
            Conversion::Owned
        },
    }
}

/// The statement for slot-consuming parameter `j`, reading the slot given by
/// its position among the slot-consuming parameters.
pub open spec fn statement_for(
    ps: Seq<Parameter>,
    owner: Option<String>,
    strict: bool,
    j: int,
) -> Statement {
    let slot = slot_count(ps, owner, j) as usize;
    match ps[j] {
        Parameter::Value { mode, .. } => Statement::ConvertValue {
            param: j as usize,
            slot,
            conversion: conversion_for(mode, strict),
        },
        Parameter::Callback(cb) => Statement::BuildCallback {
            param: j as usize,
            slot,
            wrapped: !cb.pure,
            checked_in_debug: true,
        },
        // consumes no slot, so it is never asked for
        Parameter::EnvironmentHandle => Statement::RecoverReceiver { mutable: false },
    }
}

/// The statements for the first `j` parameters, in parameter order.
pub open spec fn param_statements(
    ps: Seq<Parameter>,
    owner: Option<String>,
    strict: bool,
    j: int,
) -> Seq<Statement>
    decreases j,
{
    if j <= 0 {
        seq![]
    } else {
        param_statements(ps, owner, strict, j - 1) + if consumes_slot(ps[j - 1], owner) {
            seq![statement_for(ps, owner, strict, j - 1)]
        } else {
            seq![]
        }
    }
}

/// The receiver-recovery statement, if the function has a receiver.
pub open spec fn receiver_statements(
    receiver: Option<ReceiverKind>,
    owner: Option<String>,
) -> Seq<Statement> {
    if owner is Some {
        match receiver {
            Some(ReceiverKind::BorrowedSelf) => seq![Statement::RecoverReceiver { mutable: false }],
            Some(ReceiverKind::MutablyBorrowedSelf) => seq![
                Statement::RecoverReceiver { mutable: true },
            ],
            _ => seq![],
        }
    } else {
        seq![]
    }
}

/// All conversion statements of `d`, in order.
pub open spec fn planned_statements(d: FunctionDescriptor) -> Seq<Statement> {
    receiver_statements(d.receiver, d.owner) + param_statements(
        d.parameters@,
        d.owner,
        d.strict,
        d.parameters@.len() as int,
    )
}

/// The call-site argument for parameter `j`.
pub open spec fn call_arg_for(ps: Seq<Parameter>, owner: Option<String>, j: int) -> CallArg {
    if ps[j] is EnvironmentHandle {
        CallArg::Environment
    } else if is_owner_reference(ps[j], owner) {
        CallArg::OwnerReference
    } else {
        CallArg::Local(slot_count(ps, owner, j) as usize)
    }
}

/// The interfaces for the callbacks among the first `j` parameters that need one.
pub open spec fn interface_decls(ps: Seq<Parameter>, j: int) -> Seq<Declaration>
    decreases j,
{
    if j <= 0 {
        seq![]
    } else {
        interface_decls(ps, j - 1) + if needs_interface(ps[j - 1]) {
            seq![
                Declaration::Interface {
                    param: (j - 1) as usize,
                    index: interface_count(ps, j - 1) as usize,
                },
            ]
        } else {
            seq![]
        }
    }
}

/// The implementations matching `interface_decls`.
pub open spec fn implementation_decls(ps: Seq<Parameter>, j: int) -> Seq<Declaration>
    decreases j,
{
    if j <= 0 {
        seq![]
    } else {
        implementation_decls(ps, j - 1) + if needs_interface(ps[j - 1]) {
            seq![
                Declaration::Implementation {
                    param: (j - 1) as usize,
                    index: interface_count(ps, j - 1) as usize,
                },
            ]
        } else {
            seq![]
        }
    }
}

/// The steps of a trampoline for a callback with `inputs` inputs.
pub open spec fn trampoline_spec(inputs: nat, has_result: bool) -> Seq<TrampolineStep> {
    Seq::new(inputs, |i: int| TrampolineStep::ConvertInput(i as usize)) + seq![
        TrampolineStep::InvokeHost,
        if has_result {
            TrampolineStep::ConvertResult
        } else {
            TrampolineStep::UnitResult
        },
    ]
}

/// Whether `t` is the trampoline parameter `p` needs: the steps of its
/// callback if it is one, nothing otherwise.
pub open spec fn trampoline_for(p: Parameter, t: Option<Vec<TrampolineStep>>) -> bool {
    match p {
        Parameter::Callback(cb) => t matches Some(steps) && steps@ == trampoline_spec(
            cb.input_types@.len(),
            cb.return_type is Some,
        ),
        _ => t is None,
    }
}

/// The marshalling prologue of one function.
pub struct ArgPlan {
    pub conversions: Vec<Statement>,
    /// For each parameter, its trampoline if it is a callback.
    pub trampolines: Vec<Option<Vec<TrampolineStep>>>,
    pub args: Vec<CallArg>,
    pub interfaces: Vec<Declaration>,
    pub implementations: Vec<Declaration>,
}

/// The conversion statement of value parameter `param`, read from `slot`.
pub fn gen_ty_arg_conversion(param: usize, slot: usize, mode: ReferenceMode, strict: bool) -> (r:
    Statement)
    ensures
        r == (Statement::ConvertValue { param, slot, conversion: conversion_for(mode, strict) }),
{
    let conversion = match mode {
        ReferenceMode::MutablyBorrowed => Conversion::MutableRef,
        ReferenceMode::Borrowed => Conversion::SharedRef,
        ReferenceMode::Owned => if strict {
            Conversion::Validated
        } else {
            Conversion::Owned
        },
    };
    Statement::ConvertValue { param, slot, conversion }
}

/// The statement binding callback parameter `param` to a trampoline over
/// `slot`, checked in debug builds, and the trampoline's body.
pub fn gen_cb_arg_conversion(param: usize, slot: usize, cb: &CallbackDescriptor) -> (r: (
    Statement,
    Vec<TrampolineStep>,
))
    ensures
        r.0 == (Statement::BuildCallback { param, slot, wrapped: !cb.pure, checked_in_debug: true }),
        r.1@ == trampoline_spec(cb.input_types@.len(), cb.return_type is Some),
{
    (
        Statement::BuildCallback { param, slot, wrapped: !cb.pure, checked_in_debug: true },
        trampoline_steps(cb),
    )
}

/// The body of the trampoline for `cb`: convert each input in order, call the
/// host function once, then convert its result (or yield unit).
pub fn trampoline_steps(cb: &CallbackDescriptor) -> (r: Vec<TrampolineStep>)
    ensures
        r@ == trampoline_spec(cb.input_types@.len(), cb.return_type is Some),
{
    let n = cb.input_types.len();
    let mut steps: Vec<TrampolineStep> = Vec::new();
    let mut i: usize = 0;
    while i < n
        invariant
            i <= n,
            n == cb.input_types@.len(),
            steps@ == Seq::new(i as nat, |k: int| TrampolineStep::ConvertInput(k as usize)),
        decreases n - i,
    {
        steps.push(TrampolineStep::ConvertInput(i));
        i += 1;
        assert(steps@ =~= Seq::new(i as nat, |k: int| TrampolineStep::ConvertInput(k as usize)));
    }
    steps.push(TrampolineStep::InvokeHost);
    if cb.return_type.is_some() {
        steps.push(TrampolineStep::ConvertResult);
    } else {
        steps.push(TrampolineStep::UnitResult);
    }
    assert(steps@ =~= trampoline_spec(cb.input_types@.len(), cb.return_type is Some));
    steps
}

/// Whether `p` is a managed reference to the owner class.
pub fn is_owner_ref(p: &Parameter, owner: &Option<String>) -> (r: bool)
    ensures
        r == is_owner_reference(*p, *owner),
{
    match p {
        Parameter::Value { ty: ValueType::ManagedReference(class), mode: ReferenceMode::Owned } => {
            match owner {
                Some(o) => o.eq(class),
                None => false,
            }
        },
        _ => false,
    }
}

/// Plans the marshalling of `d`'s arguments: the receiver recovery, then one
/// statement per slot-consuming parameter reading the next slot, the call-site
/// arguments in parameter order, and one interface with its implementation per
/// callback that needs one.
pub fn gen_arg_conversions(d: &FunctionDescriptor) -> (plan: ArgPlan)
    ensures
        plan.conversions@ == planned_statements(*d),
        plan.args@.len() == d.parameters@.len(),
        forall|j: int|
            0 <= j < d.parameters@.len() ==> plan.args@[j] == call_arg_for(
                d.parameters@,
                d.owner,
                j,
            ),
        plan.interfaces@ == interface_decls(d.parameters@, d.parameters@.len() as int),
        plan.implementations@ == implementation_decls(d.parameters@, d.parameters@.len() as int),
        plan.trampolines@.len() == d.parameters@.len(),
        forall|j: int|
            0 <= j < d.parameters@.len() ==> trampoline_for(
                #[trigger] d.parameters@[j],
                plan.trampolines@[j],
            ),
{
    let ghost ps = d.parameters@;
    let ghost owner = d.owner;
    let ghost strict = d.strict;
    let mut conversions: Vec<Statement> = Vec::new();
    let mut args: Vec<CallArg> = Vec::new();
    let mut interfaces: Vec<Declaration> = Vec::new();
    let mut implementations: Vec<Declaration> = Vec::new();
    let mut trampolines: Vec<Option<Vec<TrampolineStep>>> = Vec::new();
    if d.owner.is_some() {
        match d.receiver {
            Some(ReceiverKind::BorrowedSelf) => {
                conversions.push(Statement::RecoverReceiver { mutable: false });
            },
            Some(ReceiverKind::MutablyBorrowedSelf) => {
                conversions.push(Statement::RecoverReceiver { mutable: true });
            },
            _ => {},
        }
    }
    let ghost prefix = conversions@;
    assert(prefix =~= receiver_statements(d.receiver, d.owner));
    assert(conversions@ =~= prefix + param_statements(ps, owner, strict, 0));
    let n = d.parameters.len();
    let mut slot: usize = 0;
    let mut count: usize = 0;
    let mut j: usize = 0;
    while j < n
        invariant
            j <= n,
            n == ps.len(),
            ps == d.parameters@,
            owner == d.owner,
            strict == d.strict,
            slot == slot_count(ps, owner, j as int),
            count == interface_count(ps, j as int),
            conversions@ == prefix + param_statements(ps, owner, strict, j as int),
            args@.len() == j,
            forall|k: int| 0 <= k < j ==> args@[k] == call_arg_for(ps, owner, k),
            interfaces@ == interface_decls(ps, j as int),
            implementations@ == implementation_decls(ps, j as int),
            trampolines@.len() == j,
            forall|k: int| 0 <= k < j ==> trampoline_for(#[trigger] ps[k], trampolines@[k]),
        decreases n - j,
    {
        proof {
            lemma_slot_count_bounded(ps, owner, j as int);
            lemma_interface_count_bounded(ps, j as int);
        }
        let ghost before = conversions@;
        let p = &d.parameters[j];
        match p {
            Parameter::EnvironmentHandle => {
                args.push(CallArg::Environment);
                trampolines.push(None);
            },
            Parameter::Value { mode, .. } => {
                if is_owner_ref(p, &d.owner) {
                    args.push(CallArg::OwnerReference);
                } else {
                    conversions.push(gen_ty_arg_conversion(j, slot, *mode, d.strict));
                    args.push(CallArg::Local(slot));
                    slot = slot + 1;
                }
                trampolines.push(None);
            },
            Parameter::Callback(cb) => {
                let (stmt, steps) = gen_cb_arg_conversion(j, slot, cb);
                conversions.push(stmt);
                trampolines.push(Some(steps));
                args.push(CallArg::Local(slot));
                if !cb.pure {
                    interfaces.push(Declaration::Interface { param: j, index: count });
                    implementations.push(Declaration::Implementation { param: j, index: count });
                    count = count + 1;
                }
                slot = slot + 1;
            },
        }
        assert(conversions@ =~= prefix + param_statements(ps, owner, strict, j + 1));
        assert(interfaces@ =~= interface_decls(ps, j + 1));
        assert(implementations@ =~= implementation_decls(ps, j + 1));
        j += 1;
    }
    ArgPlan { conversions, trampolines, args, interfaces, implementations }
}

} // verus!
