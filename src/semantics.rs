//! What a generated entry point does when the host calls it, as far as the
//! generated code decides: which slots it validates and converts, in which
//! order, and how the call ends.
use vstd::prelude::*;

use crate::emit::{Conversion, Invocation, Prologue, ReturnAssembly, Statement, TrampolineStep};

verus! {

/// One observable action of the marshalling prologue.
#[derive(Debug, Clone, Copy, PartialEq, Eq, Structural)]
pub enum Effect {
    RecoverReceiver,
    Validate(usize),
    Convert(usize),
    BindCallback(usize),
    CallNative,
}

/// How the synchronous part of an entry-point call ends.
#[derive(Debug, Clone, Copy, PartialEq, Eq, Structural)]
pub enum Outcome {
    /// All statements ran (and, for an entry point, the native call was made).
    Proceeded,
    /// Validation of a slot reported "not applicable"; its sentinel is returned.
    Sentinel(usize),
    /// Converting a slot failed; the failure is returned.
    ConversionFailed(usize),
    /// The factory-guard flag was set; a null handle is returned.
    NullHandle,
}

/// The call-frame slot a statement reads, if any.
pub open spec fn statement_slot(s: Statement) -> Option<usize> {
    match s {
        Statement::RecoverReceiver { .. } => None,
        Statement::ConvertValue { slot, .. } => Some(slot),
        Statement::BuildCallback { slot, .. } => Some(slot),
    }
}

/// The slot an effect concerns, if any.
pub open spec fn effect_slot(e: Effect) -> Option<usize> {
    match e {
        Effect::Validate(s) => Some(s),
        Effect::Convert(s) => Some(s),
        Effect::BindCallback(s) => Some(s),
        _ => None,
    }
}

/// Runs one statement: its effects, and the outcome if it ends the call.
/// `validates(i)` says whether slot `i` passes validation, `converts(i)`
/// whether it converts.
pub open spec fn step(
    s: Statement,
    validates: spec_fn(usize) -> bool,
    converts: spec_fn(usize) -> bool,
) -> (Seq<Effect>, Option<Outcome>) {
    match s {
        Statement::RecoverReceiver { .. } => (seq![Effect::RecoverReceiver], None),
        Statement::ConvertValue { slot, conversion, .. } => {
            if conversion == Conversion::Validated && !validates(slot) {
                (seq![Effect::Validate(slot)], Some(Outcome::Sentinel(slot)))
            } else {
                let checked = if conversion == Conversion::Validated {
                    seq![Effect::Validate(slot)]
                } else {
                    seq![]
                };
                (
                    checked + seq![Effect::Convert(slot)],
                    if converts(slot) {
                        None
                    } else {
                        Some(Outcome::ConversionFailed(slot))
                    },
                )
            }
        },
        Statement::BuildCallback { slot, .. } => (seq![Effect::BindCallback(slot)], None),
    }
}

/// Runs the statements in order until one ends the call.
pub open spec fn run_statements(
    stmts: Seq<Statement>,
    validates: spec_fn(usize) -> bool,
    converts: spec_fn(usize) -> bool,
) -> (Seq<Effect>, Outcome)
    decreases stmts.len(),
{
    if stmts.len() == 0 {
        (seq![], Outcome::Proceeded)
    } else {
        let (head, stop) = step(stmts[0], validates, converts);
        if stop is Some {
            (head, stop->0)
        } else {
            let rest = run_statements(stmts.drop_first(), validates, converts);
            (head + rest.0, rest.1)
        }
    }
}

/// Runs an entry point: the prologue, the conversions, then the native call.
pub open spec fn run_entry(
    prologue: Prologue,
    stmts: Seq<Statement>,
    factory_guard: bool,
    validates: spec_fn(usize) -> bool,
    converts: spec_fn(usize) -> bool,
) -> (Seq<Effect>, Outcome) {
    if prologue == Prologue::GuardedFrame && factory_guard {
        (seq![], Outcome::NullHandle)
    } else {
        let r = run_statements(stmts, validates, converts);
        if r.1 == Outcome::Proceeded {
            (r.0.push(Effect::CallNative), Outcome::Proceeded)
        } else {
            r
        }
    }
}

/// What the native function produced, or its failure.
pub enum NativeResult {
    Success(Seq<char>),
    Failure(Seq<char>),
}

/// A host value handed back by the entry point.
pub enum HostValue {
    /// The native value, converted to a host value.
    Converted(Seq<char>),
    /// The receiver handle, unchanged.
    This,
    /// A host instance bound to or built from the native value.
    Instance(Seq<char>),
    /// The converted unit value.
    Unit,
}

/// How a deferred value settles.
pub enum Settlement {
    Fulfilled(HostValue),
    Rejected(Seq<char>),
}

/// How an entry-point call is seen by the host when it returns.
pub enum HostResult {
    Returned(HostValue),
    /// A host exception is thrown and a null handle returned.
    Thrown(Seq<char>),
    /// A failure result leaves the assembled call.
    Failed(Seq<char>),
    /// A deferred value is returned at once; the completion handler settles it.
    Deferred(Settlement),
}

/// The assembled result, given what the native call produced.
pub open spec fn assemble(ret: ReturnAssembly, result: NativeResult) -> HostResult {
    match result {
        NativeResult::Success(v) => HostResult::Returned(
            match ret {
                ReturnAssembly::Construct { .. } | ReturnAssembly::Factory { .. } => HostValue::Instance(v),
                ReturnAssembly::ThisOnSuccess | ReturnAssembly::This => HostValue::This,
                ReturnAssembly::Unit => HostValue::Unit,
                _ => HostValue::Converted(v),
            },
        ),
        NativeResult::Failure(e) => match ret {
            ReturnAssembly::ConvertOrThrow => HostResult::Thrown(e),
            _ => HostResult::Failed(e),
        },
    }
}

/// The host's view of the call once the native call ends with `result`:
/// inline, the assembled result; deferred, a deferred value that the
/// completion handler settles with the assembled result.
pub open spec fn invoke(inv: Invocation, ret: ReturnAssembly, result: NativeResult) -> HostResult {
    match inv {
        Invocation::Inline => assemble(ret, result),
        Invocation::Deferred { .. } => HostResult::Deferred(
            match assemble(ret, result) {
                HostResult::Returned(v) => Settlement::Fulfilled(v),
                HostResult::Thrown(e) => Settlement::Rejected(e),
                HostResult::Failed(e) => Settlement::Rejected(e),
                HostResult::Deferred(s) => s,
            },
        ),
    }
}

/// What the host sees once the entry point has returned. A failure never
/// leaves the entry point: it becomes a host exception with a null handle.
pub enum CallResult {
    Returned(HostValue),
    /// A host exception is thrown and a null handle returned.
    Thrown(Seq<char>),
    /// A null handle, with no exception (the factory guard was set).
    Null,
    /// The "not applicable" sentinel of the slot that failed validation.
    Sentinel(usize),
    Deferred(Settlement),
}

/// The entry point's last step: what the assembled call produced, with a
/// failure turned into a host exception and a null handle.
pub open spec fn at_boundary(r: HostResult) -> CallResult {
    match r {
        HostResult::Returned(v) => CallResult::Returned(v),
        HostResult::Thrown(e) => CallResult::Thrown(e),
        HostResult::Failed(e) => CallResult::Thrown(e),
        HostResult::Deferred(s) => CallResult::Deferred(s),
    }
}

/// A whole call of an entry point: the prologue and conversions, then (if
/// they proceed) the native call ending with `result`. A conversion failure
/// carries `conversion_error`.
pub open spec fn call_entry(
    prologue: Prologue,
    stmts: Seq<Statement>,
    factory_guard: bool,
    validates: spec_fn(usize) -> bool,
    converts: spec_fn(usize) -> bool,
    inv: Invocation,
    ret: ReturnAssembly,
    result: NativeResult,
    conversion_error: Seq<char>,
) -> CallResult {
    match run_entry(prologue, stmts, factory_guard, validates, converts).1 {
        Outcome::NullHandle => CallResult::Null,
        Outcome::Sentinel(i) => CallResult::Sentinel(i),
        Outcome::ConversionFailed(_) => CallResult::Thrown(conversion_error),
        Outcome::Proceeded => at_boundary(invoke(inv, ret, result)),
    }
}

/// How a callback trampoline ends.
#[derive(Debug, Clone, Copy, PartialEq, Eq, Structural)]
pub enum CallbackOutcome {
    /// It returns a success (the converted result, or unit).
    Returned,
    /// It returns an error.
    Failed,
}

/// Runs a trampoline's steps until one fails: `input_ok(i)` says whether
/// input `i` converts, `host_ok` whether calling the host function succeeds,
/// `result_ok` whether its result converts back. The steps performed come
/// first, the failing one included.
pub open spec fn run_trampoline(
    steps: Seq<TrampolineStep>,
    input_ok: spec_fn(usize) -> bool,
    host_ok: bool,
    result_ok: bool,
) -> (Seq<TrampolineStep>, CallbackOutcome)
    decreases steps.len(),
{
    if steps.len() == 0 {
        (seq![], CallbackOutcome::Returned)
    } else {
        let s = steps[0];
        let fails = match s {
            TrampolineStep::ConvertInput(i) => !input_ok(i),
            TrampolineStep::InvokeHost => !host_ok,
            TrampolineStep::ConvertResult => !result_ok,
            TrampolineStep::UnitResult => false,
        };
        if fails {
            (seq![s], CallbackOutcome::Failed)
        } else {
            let rest = run_trampoline(steps.drop_first(), input_ok, host_ok, result_ok);
            (seq![s] + rest.0, rest.1)
        }
    }
}

/// The first input at or after `j`, below `n`, that does not convert; `n`
/// if all do.
pub open spec fn first_failed_input(input_ok: spec_fn(usize) -> bool, j: int, n: int) -> int
    decreases n - j,
{
    if j >= n {
        n
    } else if !input_ok(j as usize) {
        j
    } else {
        first_failed_input(input_ok, j + 1, n)
    }
}

} // verus!
