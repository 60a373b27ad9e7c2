//! Properties of the generated code, stated over the generator's contracts.
use vstd::prelude::*;

use crate::descriptor::{
    consumes_slot, interface_count, is_owner_reference, needs_interface, slot_count, FnKind,
    FunctionDescriptor, Parameter, ReferenceMode, ReturnType,
};
use crate::dispatch::{
    declaration_items, invocation_for, prologue_for, return_assembly, spliced_declarations,
};
use crate::emit::{
    BodyItem, CallArg, Declaration, Invocation, Prologue, ReturnAssembly, Statement,
    TrampolineStep,
};
use crate::marshal::{
    call_arg_for, conversion_for, implementation_decls, interface_decls, param_statements,
    planned_statements, receiver_statements, trampoline_spec,
};
use crate::semantics::{
    call_entry, effect_slot, first_failed_input, invoke, run_entry, run_statements, run_trampoline,
    statement_slot, step, CallResult, CallbackOutcome, Effect, HostResult, HostValue,
    NativeResult, Outcome, Settlement,
};

verus! {

/// The slots that statements read strictly increase along the sequence.
pub open spec fn slots_increasing(stmts: Seq<Statement>) -> bool {
    forall|a: int, b: int|
        0 <= a < b < stmts.len() && statement_slot(stmts[a]) is Some && statement_slot(
            stmts[b],
        ) is Some ==> statement_slot(stmts[a])->0 < statement_slot(stmts[b])->0
}

/// The `m`-th parameter statement reads slot `m`: slots are handed out in
/// parameter order, one per slot-consuming parameter, and a parameter that
/// consumes no slot (an environment handle, a reference to the owner) leaves
/// the index where it was.
pub proof fn lemma_param_statement_slots(
    ps: Seq<Parameter>,
    owner: Option<String>,
    strict: bool,
    j: int,
)
    requires
        0 <= j <= ps.len() <= usize::MAX,
    ensures
        param_statements(ps, owner, strict, j).len() == slot_count(ps, owner, j),
        forall|m: int|
            0 <= m < param_statements(ps, owner, strict, j).len() ==> statement_slot(
                #[trigger] param_statements(ps, owner, strict, j)[m],
            ) == Some(m as usize),
    decreases j,
{
    if j > 0 {
        lemma_param_statement_slots(ps, owner, strict, j - 1);
        crate::descriptor::lemma_slot_count_bounded(ps, owner, j - 1);
        let prev = param_statements(ps, owner, strict, j - 1);
        let cur = param_statements(ps, owner, strict, j);
        if consumes_slot(ps[j - 1], owner) {
            assert forall|m: int| 0 <= m < cur.len() implies statement_slot(#[trigger] cur[m])
                == Some(m as usize) by {
                if m < prev.len() {
                    assert(cur[m] == prev[m]);
                }
            }
        } else {
            assert(cur =~= prev);
        }
    }
}

/// A call-frame slot is never read twice, and slot-free parameters never
/// advance the slot index: the conversions of `d` read slots in strictly
/// increasing order, and parameter `j`, if it consumes a slot, reads the
/// number of slot-consuming parameters before it.
pub proof fn lemma_slot_order(d: FunctionDescriptor)
    requires
        d.parameters@.len() <= usize::MAX,
    ensures
        slots_increasing(planned_statements(d)),
        forall|j: int|
            0 <= j < d.parameters@.len() && consumes_slot(d.parameters@[j], d.owner) ==> {
                &&& call_arg_for(d.parameters@, d.owner, j) == CallArg::Local(
                    slot_count(d.parameters@, d.owner, j) as usize,
                )
                &&& #[trigger] slot_count(d.parameters@, d.owner, j + 1) == slot_count(
                    d.parameters@,
                    d.owner,
                    j,
                ) + 1
            },
        forall|j: int|
            0 <= j < d.parameters@.len() && !consumes_slot(d.parameters@[j], d.owner) ==> {
                &&& (call_arg_for(d.parameters@, d.owner, j) is Environment || call_arg_for(
                    d.parameters@,
                    d.owner,
                    j,
                ) is OwnerReference)
                &&& #[trigger] slot_count(d.parameters@, d.owner, j + 1) == slot_count(
                    d.parameters@,
                    d.owner,
                    j,
                )
            },
{
    let ps = d.parameters@;
    let n = ps.len() as int;
    lemma_param_statement_slots(ps, d.owner, d.strict, n);
    crate::descriptor::lemma_slot_count_bounded(ps, d.owner, n);
    let pre = receiver_statements(d.receiver, d.owner);
    let body = param_statements(ps, d.owner, d.strict, n);
    let all = planned_statements(d);
    assert(all == pre + body);
    assert forall|a: int, b: int|
        0 <= a < b < all.len() && statement_slot(all[a]) is Some && statement_slot(
            all[b],
        ) is Some implies statement_slot(all[a])->0 < statement_slot(all[b])->0 by {
        assert(a >= pre.len());
        assert(all[a] == body[a - pre.len()]);
        assert(all[b] == body[b - pre.len()]);
        assert(statement_slot(body[a - pre.len()]) == Some((a - pre.len()) as usize));
        assert(statement_slot(body[b - pre.len()]) == Some((b - pre.len()) as usize));
    }
    assert forall|j: int| 0 <= j < n implies slot_count(ps, d.owner, j) <= j by {
        crate::descriptor::lemma_slot_count_bounded(ps, d.owner, j);
    }
}

/// Runs of statements in increasing slot order: every effect concerns a
/// slot no lower than the statements', a slot is converted at most once, a
/// passed validation is followed at once by the conversion, and a validation
/// mismatch ends the run with its sentinel and no conversion at or past that
/// slot.
pub proof fn lemma_run_statements(
    stmts: Seq<Statement>,
    validates: spec_fn(usize) -> bool,
    converts: spec_fn(usize) -> bool,
    lo: int,
)
    requires
        slots_increasing(stmts),
        forall|m: int|
            0 <= m < stmts.len() && statement_slot(stmts[m]) is Some ==> statement_slot(
                stmts[m],
            )->0 >= lo,
    ensures
        ({
            let (eff, out) = run_statements(stmts, validates, converts);
            &&& forall|k: int|
                0 <= k < eff.len() && effect_slot(eff[k]) is Some ==> effect_slot(eff[k])->0 >= lo
            &&& forall|a: int, b: int|
                0 <= a < b < eff.len() && eff[a] is Convert && eff[b] is Convert ==> eff[a]->Convert_0
                    < eff[b]->Convert_0
            &&& forall|k: int|
                0 <= k < eff.len() && #[trigger] eff[k] is Validate && validates(eff[k]->Validate_0)
                    ==> k + 1 < eff.len() && eff[k + 1] == Effect::Convert(eff[k]->Validate_0)
            &&& forall|i: usize|
                out == Outcome::Sentinel(i) ==> {
                    &&& i >= lo
                    &&& !validates(i)
                    &&& eff.len() > 0
                    &&& eff.last() == Effect::Validate(i)
                    &&& forall|k: int|
                        0 <= k < eff.len() && eff[k] is Convert ==> eff[k]->Convert_0 < i
                }
        }),
    decreases stmts.len(),
{
    if stmts.len() > 0 {
        let s0 = stmts[0];
        let (head, stop) = step(s0, validates, converts);
        let tail = stmts.drop_first();
        let next_lo = match statement_slot(s0) {
            Some(x) => x + 1,
            None => lo,
        };
        assert forall|m: int|
            0 <= m < tail.len() && statement_slot(tail[m]) is Some implies statement_slot(
                tail[m],
            )->0 >= next_lo by {
            assert(tail[m] == stmts[m + 1]);
        }
        assert forall|a: int, b: int|
            0 <= a < b < tail.len() && statement_slot(tail[a]) is Some && statement_slot(
                tail[b],
            ) is Some implies statement_slot(tail[a])->0 < statement_slot(tail[b])->0 by {
            assert(tail[a] == stmts[a + 1]);
            assert(tail[b] == stmts[b + 1]);
        }
        lemma_run_statements(tail, validates, converts, next_lo);
        if stop is None {
            let rest = run_statements(tail, validates, converts);
            let eff = head + rest.0;
            assert(run_statements(stmts, validates, converts) == (eff, rest.1));
            assert forall|k: int|
                0 <= k < eff.len() && effect_slot(eff[k]) is Some implies effect_slot(eff[k])->0
                >= lo by {
                if k >= head.len() {
                    assert(eff[k] == rest.0[k - head.len()]);
                }
            }
            assert forall|a: int, b: int|
                0 <= a < b < eff.len() && eff[a] is Convert && eff[b] is Convert implies eff[a]->Convert_0
                < eff[b]->Convert_0 by {
                if b >= head.len() {
                    assert(eff[b] == rest.0[b - head.len()]);
                    if a >= head.len() {
                        assert(eff[a] == rest.0[a - head.len()]);
                    }
                }
            }
            assert forall|k: int|
                0 <= k < eff.len() && #[trigger] eff[k] is Validate && validates(eff[k]->Validate_0)
                implies k + 1 < eff.len() && eff[k + 1] == Effect::Convert(eff[k]->Validate_0) by {
                if k >= head.len() {
                    assert(eff[k] == rest.0[k - head.len()]);
                    assert(eff[k + 1] == rest.0[k + 1 - head.len()]);
                }
            }
            assert forall|i: usize| rest.1 == Outcome::Sentinel(i) implies {
                &&& eff.last() == Effect::Validate(i)
                &&& forall|k: int|
                    0 <= k < eff.len() && eff[k] is Convert ==> eff[k]->Convert_0 < i
            } by {
                assert(eff.last() == rest.0.last());
                assert forall|k: int| 0 <= k < eff.len() && eff[k] is Convert implies eff[k]->Convert_0
                    < i by {
                    if k >= head.len() {
                        assert(eff[k] == rest.0[k - head.len()]);
                    }
                }
            }
        }
    }
}

/// Strict conversion: when validation of a slot reports a mismatch, the
/// entry point returns that slot's sentinel at once, having converted no slot
/// at or after it; a validation that passes is followed by exactly one
/// conversion of that slot, and no slot is converted twice.
pub proof fn lemma_strict_conversion(
    d: FunctionDescriptor,
    validates: spec_fn(usize) -> bool,
    converts: spec_fn(usize) -> bool,
)
    requires
        d.parameters@.len() <= usize::MAX,
    ensures
        ({
            let (eff, out) = run_statements(planned_statements(d), validates, converts);
            &&& forall|i: usize|
                out == Outcome::Sentinel(i) ==> {
                    &&& !validates(i)
                    &&& eff.last() == Effect::Validate(i)
                    &&& forall|k: int|
                        0 <= k < eff.len() && eff[k] is Convert ==> eff[k]->Convert_0 < i
                }
            &&& forall|k: int|
                0 <= k < eff.len() && #[trigger] eff[k] is Validate && validates(eff[k]->Validate_0)
                    ==> k + 1 < eff.len() && eff[k + 1] == Effect::Convert(eff[k]->Validate_0)
            &&& forall|a: int, b: int|
                0 <= a < b < eff.len() && eff[a] is Convert && eff[b] is Convert ==> eff[a]->Convert_0
                    != eff[b]->Convert_0
        }),
{
    lemma_slot_order(d);
    lemma_run_statements(planned_statements(d), validates, converts, 0);
}

/// The factory guard: with the flag set, a constructor's entry point runs no
/// conversion and returns a null handle; with it clear, it runs exactly as an
/// unguarded entry point.
pub proof fn lemma_factory_guard(
    d: FunctionDescriptor,
    validates: spec_fn(usize) -> bool,
    converts: spec_fn(usize) -> bool,
)
    requires
        d.kind == FnKind::Constructor,
    ensures
        run_entry(prologue_for(d), planned_statements(d), true, validates, converts) == (
        Seq::<Effect>::empty(),
        Outcome::NullHandle,
        ),
        run_entry(prologue_for(d), planned_statements(d), false, validates, converts) == run_entry(
            Prologue::Frame,
            planned_statements(d),
            false,
            validates,
            converts,
        ),
{
}

/// Asynchronous fallible functions returning a value: once its arguments are
/// converted, the entry point returns a deferred value and throws nothing
/// itself; the deferred value fulfills to the converted value when the task
/// succeeds and is rejected with the error when it fails.
pub proof fn lemma_async_settlement(
    d: FunctionDescriptor,
    x: Seq<char>,
    e: Seq<char>,
    validates: spec_fn(usize) -> bool,
    converts: spec_fn(usize) -> bool,
    conversion_error: Seq<char>,
)
    requires
        d.kind == FnKind::Plain,
        d.is_async,
        d.is_fallible,
        d.return_type matches Some(ReturnType::Named(_)),
    ensures
        invoke(invocation_for(d), return_assembly(d), NativeResult::Success(x)) == HostResult::Deferred(
            Settlement::Fulfilled(HostValue::Converted(x)),
        ),
        invoke(invocation_for(d), return_assembly(d), NativeResult::Failure(e)) == HostResult::Deferred(
            Settlement::Rejected(e),
        ),
        run_statements(planned_statements(d), validates, converts).1 == Outcome::Proceeded ==> {
            &&& call_entry(
                prologue_for(d),
                planned_statements(d),
                false,
                validates,
                converts,
                invocation_for(d),
                return_assembly(d),
                NativeResult::Success(x),
                conversion_error,
            ) == CallResult::Deferred(Settlement::Fulfilled(HostValue::Converted(x)))
            &&& call_entry(
                prologue_for(d),
                planned_statements(d),
                false,
                validates,
                converts,
                invocation_for(d),
                return_assembly(d),
                NativeResult::Failure(e),
                conversion_error,
            ) == CallResult::Deferred(Settlement::Rejected(e))
        },
{
}

/// The parameter a synthesized declaration belongs to.
pub open spec fn decl_param(x: Declaration) -> usize {
    match x {
        Declaration::Interface { param, .. } => param,
        Declaration::Implementation { param, .. } => param,
    }
}

/// The number that names a synthesized declaration.
pub open spec fn decl_index(x: Declaration) -> usize {
    match x {
        Declaration::Interface { index, .. } => index,
        Declaration::Implementation { index, .. } => index,
    }
}

pub proof fn lemma_interface_decls(ps: Seq<Parameter>, j: int)
    requires
        0 <= j <= ps.len() <= usize::MAX,
    ensures
        ({
            let ifs = interface_decls(ps, j);
            let ims = implementation_decls(ps, j);
            &&& ifs.len() == interface_count(ps, j)
            &&& ims.len() == ifs.len()
            &&& forall|k: int|
                0 <= k < ifs.len() ==> {
                    &&& #[trigger] ifs[k] is Interface
                    &&& decl_index(ifs[k]) == k
                    &&& decl_param(ifs[k]) < j
                    &&& needs_interface(ps[decl_param(ifs[k]) as int])
                    &&& ims[k] == Declaration::Implementation {
                        param: decl_param(ifs[k]),
                        index: k as usize,
                    }
                }
            &&& forall|a: int, b: int|
                0 <= a < b < ifs.len() ==> decl_param(#[trigger] ifs[a]) < decl_param(
                    #[trigger] ifs[b],
                )
            &&& forall|p: int|
                0 <= p < j && #[trigger] needs_interface(ps[p]) ==> exists|k: int|
                    0 <= k < ifs.len() && decl_param(#[trigger] ifs[k]) == p
        }),
    decreases j,
{
    if j > 0 {
        lemma_interface_decls(ps, j - 1);
        crate::descriptor::lemma_interface_count_bounded(ps, j - 1);
        let prev = interface_decls(ps, j - 1);
        let ifs = interface_decls(ps, j);
        let ims = implementation_decls(ps, j);
        if needs_interface(ps[j - 1]) {
            assert(ifs[prev.len() as int] == Declaration::Interface {
                param: (j - 1) as usize,
                index: interface_count(ps, j - 1) as usize,
            });
            assert forall|k: int| 0 <= k < prev.len() implies ifs[k] == prev[k] && ims[k]
                == implementation_decls(ps, j - 1)[k] by {}
            assert forall|p: int| 0 <= p < j && #[trigger] needs_interface(ps[p]) implies exists|
                k: int,
            | 0 <= k < ifs.len() && decl_param(#[trigger] ifs[k]) == p by {
                if p == j - 1 {
                    assert(decl_param(ifs[prev.len() as int]) == p);
                } else {
                    let k = choose|k: int| 0 <= k < prev.len() && decl_param(#[trigger] prev[k]) == p;
                    assert(ifs[k] == prev[k]);
                }
            }
        } else {
            assert(ifs =~= prev);
            assert(ims =~= implementation_decls(ps, j - 1));
        }
    }
}

pub proof fn lemma_declaration_items(
    ifs: Seq<Declaration>,
    ims: Seq<Declaration>,
    k: int,
)
    requires
        0 <= k <= ifs.len(),
        k <= ims.len(),
    ensures
        declaration_items(ifs, ims, k).len() == 2 * k,
        forall|i: int|
            0 <= i < k ==> declaration_items(ifs, ims, k)[2 * (k - 1 - i)] == BodyItem::Declaration(
                #[trigger] ifs[i],
            ) && declaration_items(ifs, ims, k)[2 * (k - 1 - i) + 1] == BodyItem::Declaration(ims[i]),
    decreases k,
{
    if k > 0 {
        lemma_declaration_items(ifs, ims, k - 1);
        let prev = declaration_items(ifs, ims, k - 1);
        let cur = declaration_items(ifs, ims, k);
        assert forall|i: int| 0 <= i < k implies cur[2 * (k - 1 - i)] == BodyItem::Declaration(
            #[trigger] ifs[i],
        ) && cur[2 * (k - 1 - i) + 1] == BodyItem::Declaration(ims[i]) by {
            if i < k - 1 {
                assert(cur[2 * (k - 1 - i)] == prev[2 * (k - 2 - i)]);
                assert(cur[2 * (k - 1 - i) + 1] == prev[2 * (k - 2 - i) + 1]);
            }
        }
    }
}

/// Callback declarations: each callback parameter that needs an invocation
/// interface gets exactly one interface and one implementation, numbered
/// distinctly in parameter order; both stand, interface first, in the
/// declarations spliced ahead of the function's first statement, where the
/// pair of the last such callback comes first.
pub proof fn lemma_callback_declarations(d: FunctionDescriptor)
    requires
        d.parameters@.len() <= usize::MAX,
    ensures
        ({
            let ps = d.parameters@;
            let ifs = interface_decls(ps, ps.len() as int);
            let ims = implementation_decls(ps, ps.len() as int);
            let items = spliced_declarations(d);
            &&& ifs.len() == interface_count(ps, ps.len() as int)
            &&& items.len() == 2 * ifs.len()
            &&& forall|k: int|
                0 <= k < ifs.len() ==> {
                    &&& #[trigger] ifs[k] == Declaration::Interface {
                        param: decl_param(ifs[k]),
                        index: k as usize,
                    }
                    &&& needs_interface(ps[decl_param(ifs[k]) as int])
                    &&& ims[k] == Declaration::Implementation {
                        param: decl_param(ifs[k]),
                        index: k as usize,
                    }
                    &&& items[2 * (ifs.len() - 1 - k)] == BodyItem::Declaration(ifs[k])
                    &&& items[2 * (ifs.len() - 1 - k) + 1] == BodyItem::Declaration(ims[k])
                }
            &&& forall|a: int, b: int|
                0 <= a < b < ifs.len() ==> decl_param(#[trigger] ifs[a]) != decl_param(
                    #[trigger] ifs[b],
                )
            &&& forall|p: int|
                0 <= p < ps.len() && #[trigger] needs_interface(ps[p]) ==> exists|k: int|
                    0 <= k < ifs.len() && decl_param(#[trigger] ifs[k]) == p
        }),
{
    let ps = d.parameters@;
    let n = ps.len() as int;
    lemma_interface_decls(ps, n);
    let ifs = interface_decls(ps, n);
    let ims = implementation_decls(ps, n);
    lemma_declaration_items(ifs, ims, ifs.len() as int);
    assert forall|k: int| 0 <= k < ifs.len() implies #[trigger] ifs[k] == Declaration::Interface {
        param: decl_param(ifs[k]),
        index: k as usize,
    } by {
        assert(ifs[k] is Interface);
    }
}

/// An owned value parameter that is not a reference to the owner.
pub open spec fn is_plain_owned_value(p: Parameter, owner: Option<String>) -> bool {
    &&& p matches Parameter::Value { mode: ReferenceMode::Owned, .. }
    &&& !is_owner_reference(p, owner)
}

/// The statement converting owned parameter `j` from slot `j`.
pub open spec fn owned_conversion(j: int, strict: bool) -> Statement {
    Statement::ConvertValue {
        param: j as usize,
        slot: j as usize,
        conversion: conversion_for(ReferenceMode::Owned, strict),
    }
}

/// Owned values line up: with no receiver and only owned value parameters,
/// none a reference to the owner, parameter `j` is converted from slot `j`
/// by the `j`-th statement and passed as the `j`-th argument.
pub proof fn lemma_owned_values_round_trip(d: FunctionDescriptor)
    requires
        d.receiver is None,
        d.parameters@.len() <= usize::MAX,
        forall|j: int|
            0 <= j < d.parameters@.len() ==> is_plain_owned_value(#[trigger] d.parameters@[j], d.owner),
    ensures
        planned_statements(d).len() == d.parameters@.len(),
        forall|j: int|
            0 <= j < d.parameters@.len() ==> #[trigger] planned_statements(d)[j] == owned_conversion(j, d.strict)
                && call_arg_for(d.parameters@, d.owner, j) == CallArg::Local(j as usize),
{
    let ps = d.parameters@;
    let n = ps.len() as int;
    lemma_owned_prefix(ps, d.owner, d.strict, n);
    assert(planned_statements(d) =~= param_statements(ps, d.owner, d.strict, n));
    assert forall|j: int| 0 <= j < n implies call_arg_for(ps, d.owner, j) == CallArg::Local(
        j as usize,
    ) by {
        lemma_owned_prefix(ps, d.owner, d.strict, j);
        assert(is_plain_owned_value(ps[j], d.owner));
    }
}

proof fn lemma_owned_prefix(ps: Seq<Parameter>, owner: Option<String>, strict: bool, j: int)
    requires
        0 <= j <= ps.len() <= usize::MAX,
        forall|i: int|
            0 <= i < ps.len() ==> is_plain_owned_value(#[trigger] ps[i], owner),
    ensures
        slot_count(ps, owner, j) == j,
        param_statements(ps, owner, strict, j).len() == j,
        forall|i: int|
            0 <= i < j ==> #[trigger] param_statements(ps, owner, strict, j)[i] == owned_conversion(
                i,
                strict,
            ),
    decreases j,
{
    if j > 0 {
        lemma_owned_prefix(ps, owner, strict, j - 1);
        let prev = param_statements(ps, owner, strict, j - 1);
        let cur = param_statements(ps, owner, strict, j);
        assert(consumes_slot(ps[j - 1], owner));
        assert forall|i: int| 0 <= i < j implies #[trigger] cur[i] == owned_conversion(i, strict) by {
            if i < j - 1 {
                assert(cur[i] == prev[i]);
            }
        }
    }
}

pub proof fn lemma_first_failed_input(input_ok: spec_fn(usize) -> bool, j: int, n: int)
    requires
        j <= n,
    ensures
        j <= first_failed_input(input_ok, j, n) <= n,
        first_failed_input(input_ok, j, n) < n ==> !input_ok(
            first_failed_input(input_ok, j, n) as usize,
        ),
        forall|i: int|
            j <= i < first_failed_input(input_ok, j, n) ==> #[trigger] input_ok(i as usize),
    decreases n - j,
{
    if j < n && input_ok(j as usize) {
        lemma_first_failed_input(input_ok, j + 1, n);
    }
}

/// The input conversions from input `j` on.
pub open spec fn inputs_from(j: int, count: int) -> Seq<TrampolineStep> {
    Seq::new(count as nat, |k: int| TrampolineStep::ConvertInput((j + k) as usize))
}

proof fn lemma_trampoline_from(
    n: nat,
    has_result: bool,
    input_ok: spec_fn(usize) -> bool,
    host_ok: bool,
    result_ok: bool,
    j: int,
)
    requires
        0 <= j <= n <= usize::MAX,
    ensures
        ({
            let s = trampoline_spec(n, has_result);
            let f = first_failed_input(input_ok, j, n as int);
            let run = run_trampoline(s.subrange(j, s.len() as int), input_ok, host_ok, result_ok);
            let tail = run_trampoline(s.subrange(n as int, s.len() as int), input_ok, host_ok, result_ok);
            &&& f < n ==> run == (inputs_from(j, f + 1 - j), CallbackOutcome::Failed)
            &&& f == n ==> run == (inputs_from(j, n - j) + tail.0, tail.1)
        }),
    decreases n - j,
{
    let s = trampoline_spec(n, has_result);
    lemma_first_failed_input(input_ok, j, n as int);
    if j == n {
        assert(inputs_from(j, 0) + run_trampoline(s.subrange(n as int, s.len() as int), input_ok, host_ok, result_ok).0
            =~= run_trampoline(s.subrange(n as int, s.len() as int), input_ok, host_ok, result_ok).0);
    } else {
        let sub = s.subrange(j, s.len() as int);
        assert(sub[0] == TrampolineStep::ConvertInput(j as usize));
        assert(sub.drop_first() =~= s.subrange(j + 1, s.len() as int));
        if !input_ok(j as usize) {
            assert(inputs_from(j, 1) =~= seq![TrampolineStep::ConvertInput(j as usize)]);
        } else {
            lemma_trampoline_from(n, has_result, input_ok, host_ok, result_ok, j + 1);
            let f = first_failed_input(input_ok, j, n as int);
            if f < n {
                assert(seq![TrampolineStep::ConvertInput(j as usize)] + inputs_from(j + 1, f - j)
                    =~= inputs_from(j, f + 1 - j));
            } else {
                assert(seq![TrampolineStep::ConvertInput(j as usize)] + inputs_from(j + 1, n - j - 1)
                    =~= inputs_from(j, n - j));
                let tail = run_trampoline(s.subrange(n as int, s.len() as int), input_ok, host_ok, result_ok).0;
                assert(seq![TrampolineStep::ConvertInput(j as usize)] + (inputs_from(j + 1, n - j - 1)
                    + tail) =~= inputs_from(j, n - j) + tail);
            }
        }
    }
}

/// Trampoline failures: a trampoline converts its inputs in order, and the
/// first that fails to convert ends it with an error before the host
/// function is called; otherwise it calls the host function exactly once,
/// and a failed call ends it with an error; then a failed conversion of the
/// result ends it with an error, and anything else returns a success.
pub proof fn lemma_trampoline_failures(
    n: nat,
    has_result: bool,
    input_ok: spec_fn(usize) -> bool,
    host_ok: bool,
    result_ok: bool,
)
    requires
        n <= usize::MAX,
    ensures
        ({
            let f = first_failed_input(input_ok, 0, n as int);
            let (eff, out) = run_trampoline(trampoline_spec(n, has_result), input_ok, host_ok, result_ok);
            let last = if has_result {
                TrampolineStep::ConvertResult
            } else {
                TrampolineStep::UnitResult
            };
            &&& 0 <= f <= n
            &&& f < n ==> !input_ok(f as usize)
            &&& forall|i: int| 0 <= i < f ==> #[trigger] input_ok(i as usize)
            &&& f < n ==> eff == inputs_from(0, f + 1) && out == CallbackOutcome::Failed
            &&& f == n ==> eff == inputs_from(0, n as int) + (if host_ok {
                seq![TrampolineStep::InvokeHost, last]
            } else {
                seq![TrampolineStep::InvokeHost]
            })
            &&& f == n ==> out == (if host_ok && (has_result ==> result_ok) {
                CallbackOutcome::Returned
            } else {
                CallbackOutcome::Failed
            })
        }),
{
    let s = trampoline_spec(n, has_result);
    lemma_first_failed_input(input_ok, 0, n as int);
    lemma_trampoline_from(n, has_result, input_ok, host_ok, result_ok, 0);
    assert(s.subrange(0, s.len() as int) =~= s);
    let last = if has_result {
        TrampolineStep::ConvertResult
    } else {
        TrampolineStep::UnitResult
    };
    let tail = s.subrange(n as int, s.len() as int);
    assert(tail =~= seq![TrampolineStep::InvokeHost, last]);
    assert(tail.drop_first() =~= seq![last]);
    assert(seq![last].drop_first() =~= Seq::<TrampolineStep>::empty());
    let empty = Seq::<TrampolineStep>::empty();
    assert(run_trampoline(empty, input_ok, host_ok, result_ok) == (empty, CallbackOutcome::Returned));
    assert(seq![last].drop_first() =~= empty);
    let r1 = run_trampoline(seq![last], input_ok, host_ok, result_ok);
    if has_result && !result_ok {
        assert(r1 == (seq![last], CallbackOutcome::Failed));
    } else {
        assert(r1.0 =~= seq![last] + empty);
        assert(r1.0 =~= seq![last]);
        assert(r1.1 == CallbackOutcome::Returned);
    }
    let r0 = run_trampoline(tail, input_ok, host_ok, result_ok);
    assert(tail[0] == TrampolineStep::InvokeHost);
    if host_ok {
        assert(r0 == (seq![TrampolineStep::InvokeHost] + r1.0, r1.1));
        assert(seq![TrampolineStep::InvokeHost] + r1.0 =~= seq![TrampolineStep::InvokeHost, last]);
    } else {
        assert(r0 == (seq![TrampolineStep::InvokeHost], CallbackOutcome::Failed));
    }
}

/// Failures never leave an entry point: a failed argument conversion, and a
/// failed inline native call whatever its return assembly, end in a host
/// exception with a null handle; a failed deferred call returns a deferred
/// value that is rejected, and throws nothing.
pub proof fn lemma_failures_become_exceptions(
    prologue: Prologue,
    stmts: Seq<Statement>,
    factory_guard: bool,
    validates: spec_fn(usize) -> bool,
    converts: spec_fn(usize) -> bool,
    inv: Invocation,
    ret: ReturnAssembly,
    result: NativeResult,
    e: Seq<char>,
    conversion_error: Seq<char>,
)
    ensures
        run_entry(prologue, stmts, factory_guard, validates, converts).1 is ConversionFailed
            ==> call_entry(prologue, stmts, factory_guard, validates, converts, inv, ret, result, conversion_error)
            == CallResult::Thrown(conversion_error),
        run_entry(prologue, stmts, factory_guard, validates, converts).1 == Outcome::Proceeded
            && inv == Invocation::Inline ==> call_entry(
            prologue,
            stmts,
            factory_guard,
            validates,
            converts,
            inv,
            ret,
            NativeResult::Failure(e),
            conversion_error,
        ) == CallResult::Thrown(e),
        run_entry(prologue, stmts, factory_guard, validates, converts).1 == Outcome::Proceeded
            && inv is Deferred ==> call_entry(
            prologue,
            stmts,
            factory_guard,
            validates,
            converts,
            inv,
            ret,
            NativeResult::Failure(e),
            conversion_error,
        ) == CallResult::Deferred(Settlement::Rejected(e)),
{
}

} // verus!
