//! Receiver resolution, return assembly, registration, and the assembly of
//! the whole generated unit.
use vstd::prelude::*;
use vstd::utf8::encode_utf8;

use crate::descriptor::{FnKind, FunctionDescriptor, ReceiverKind, ReturnType};
use crate::emit::{
    BodyItem, Callee, Declaration, EmittedUnit, EntryPoint, ExportRecord, Invocation, Prologue,
    Registration, ReturnAssembly, SourceFunction,
};
use crate::marshal::{
    call_arg_for, gen_arg_conversions, implementation_decls, interface_decls, planned_statements,
    trampoline_for,
};

verus! {

/// How the underlying function is referred to.
pub open spec fn callee_for(d: FunctionDescriptor) -> Callee {
    if d.receiver is Some {
        Callee::Method
    } else if d.owner is Some {
        Callee::Associated
    } else {
        Callee::Free
    }
}

/// Whether the declared return type is `&Self` or `&mut Self`.
pub open spec fn returns_self(d: FunctionDescriptor) -> bool {
    d.return_type matches Some(ReturnType::SelfReference { .. })
}

/// The return-assembly table, by kind, fallibility, synchronicity and whether
/// the function returns its own receiver.
pub open spec fn return_assembly(d: FunctionDescriptor) -> ReturnAssembly {
    if d.return_type is None {
        ReturnAssembly::Unit
    } else if d.kind == FnKind::Constructor {
        ReturnAssembly::Construct { unwrap: d.is_fallible }
    } else if d.kind == FnKind::Factory {
        ReturnAssembly::Factory { unwrap: d.is_fallible }
    } else if d.is_fallible {
        if d.is_async {
            ReturnAssembly::Convert
        } else if returns_self(d) {
            ReturnAssembly::ThisOnSuccess
        } else {
            ReturnAssembly::ConvertOrThrow
        }
    } else if returns_self(d) {
        ReturnAssembly::This
    } else {
        ReturnAssembly::Convert
    }
}

/// Whether the call runs inline or as a deferred task.
pub open spec fn invocation_for(d: FunctionDescriptor) -> Invocation {
    if d.is_async {
        Invocation::Deferred { fallible: d.is_fallible }
    } else {
        Invocation::Inline
    }
}

/// Zero-argument free functions of no special kind are called directly;
/// constructors check the factory-guard flag first.
pub open spec fn prologue_for(d: FunctionDescriptor) -> Prologue {
    if d.parameters@.len() == 0 && d.receiver is None && d.kind == FnKind::Plain {
        Prologue::Direct
    } else if d.kind == FnKind::Constructor {
        Prologue::GuardedFrame
    } else {
        Prologue::Frame
    }
}

/// Methods are registered by their class; a free function exports itself
/// under its NUL-terminated exported name, with that name's length in bytes,
/// in its namespace.
pub open spec fn registration_for(d: FunctionDescriptor, r: Registration) -> bool {
    match r {
        Registration::Delegated => d.owner is Some,
        Registration::Export(rec) => {
            &&& d.owner is None
            &&& rec.name@ == d.exported_name@.push('\0')
            &&& rec.name_len == encode_utf8(rec.name@).len() as usize
            &&& rec.namespace == d.namespace
        },
    }
}

/// The interface and implementation of the first `k` callbacks, pairwise,
/// each pair put ahead of those before it: the last callback's pair comes
/// first.
pub open spec fn declaration_items(
    interfaces: Seq<Declaration>,
    implementations: Seq<Declaration>,
    k: int,
) -> Seq<BodyItem>
    decreases k,
{
    if k <= 0 {
        seq![]
    } else {
        seq![
            BodyItem::Declaration(interfaces[k - 1]),
            BodyItem::Declaration(implementations[k - 1]),
        ] + declaration_items(interfaces, implementations, k - 1)
    }
}

/// The declarations spliced at the head of the body of `d`'s function.
pub open spec fn spliced_declarations(d: FunctionDescriptor) -> Seq<BodyItem> {
    let n = d.parameters@.len() as int;
    declaration_items(
        interface_decls(d.parameters@, n),
        implementation_decls(d.parameters@, n),
        interface_decls(d.parameters@, n).len() as int,
    )
}

pub fn gen_fn_receiver(d: &FunctionDescriptor) -> (r: Callee)
    requires
        d.receiver != Some(ReceiverKind::ValueSelf),
    ensures
        r == callee_for(*d),
{
    match d.receiver {
        Some(_) => Callee::Method,
        None => if d.owner.is_some() {
            Callee::Associated
        } else {
            Callee::Free
        },
    }
}

pub fn gen_fn_return(d: &FunctionDescriptor) -> (r: ReturnAssembly)
    ensures
        r == return_assembly(*d),
{
    match &d.return_type {
        None => ReturnAssembly::Unit,
        Some(ty) => {
            let is_return_self = match ty {
                ReturnType::SelfReference { .. } => true,
                ReturnType::Named(_) => false,
            };
            match d.kind {
                FnKind::Constructor => ReturnAssembly::Construct { unwrap: d.is_fallible },
                FnKind::Factory => ReturnAssembly::Factory { unwrap: d.is_fallible },
                FnKind::Plain => if d.is_fallible {
                    if d.is_async {
                        ReturnAssembly::Convert
                    } else if is_return_self {
                        ReturnAssembly::ThisOnSuccess
                    } else {
                        ReturnAssembly::ConvertOrThrow
                    }
                } else if is_return_self {
                    ReturnAssembly::This
                } else {
                    ReturnAssembly::Convert
                },
            }
        },
    }
}

pub fn gen_fn_register(d: &FunctionDescriptor) -> (r: Registration)
    ensures
        registration_for(*d, r),
{
    if d.owner.is_some() {
        Registration::Delegated
    } else {
        let (name, name_len) = export_record_name(d.exported_name.as_str());
        let namespace = match &d.namespace {
            Some(ns) => Some(ns.clone()),
            None => None,
        };
        Registration::Export(ExportRecord { name, name_len, namespace })
    }
}

/// Inserts each interface and its implementation, in turn, at the head of
/// `body`, so that the last pair ends up first and all of them precede the
/// existing statements.
pub fn splice_declarations(
    interfaces: &Vec<Declaration>,
    implementations: &Vec<Declaration>,
    body: Vec<BodyItem>,
) -> (r: Vec<BodyItem>)
    requires
        interfaces@.len() == implementations@.len(),
    ensures
        r@ == declaration_items(interfaces@, implementations@, interfaces@.len() as int) + body@,
{
    let mut out: Vec<BodyItem> = Vec::new();
    let n = interfaces.len();
    let mut k: usize = 0;
    while k < n
        invariant
            k <= n,
            n == interfaces@.len(),
            n == implementations@.len(),
            out@ == declaration_items(interfaces@, implementations@, k as int),
        decreases n - k,
    {
        out.insert(0, BodyItem::Declaration(implementations[k]));
        out.insert(0, BodyItem::Declaration(interfaces[k]));
        k += 1;
        assert(out@ =~= declaration_items(interfaces@, implementations@, k as int));
    }
    let mut rest = body;
    out.append(&mut rest);
    out
}

/// Generates everything for `d`: the function `item` with the callbacks'
/// declarations spliced at the head of its body, the entry point, and its
/// registration.
pub fn generate(d: &FunctionDescriptor, item: SourceFunction) -> (u: EmittedUnit)
    requires
        d.wf(),
    ensures
        u.item.signature == item.signature,
        u.item.body@ == spliced_declarations(*d) + item.body@,
        u.entry.prologue == prologue_for(*d),
        u.entry.arity == d.parameters@.len(),
        u.entry.conversions@ == planned_statements(*d),
        u.entry.args@.len() == d.parameters@.len(),
        forall|j: int|
            0 <= j < d.parameters@.len() ==> u.entry.args@[j] == call_arg_for(
                d.parameters@,
                d.owner,
                j,
            ),
        u.entry.callee == callee_for(*d),
        u.entry.invocation == invocation_for(*d),
        u.entry.ret == return_assembly(*d),
        u.entry.trampolines@.len() == d.parameters@.len(),
        forall|j: int|
            0 <= j < d.parameters@.len() ==> trampoline_for(
                #[trigger] d.parameters@[j],
                u.entry.trampolines@[j],
            ),
        registration_for(*d, u.registration),
{
    let plan = gen_arg_conversions(d);
    let callee = gen_fn_receiver(d);
    let ret = gen_fn_return(d);
    let registration = gen_fn_register(d);
    let invocation = if d.is_async {
        Invocation::Deferred { fallible: d.is_fallible }
    } else {
        Invocation::Inline
    };
    let prologue = if d.parameters.len() == 0 && d.receiver.is_none() && d.kind == FnKind::Plain {
        Prologue::Direct
    } else if d.kind == FnKind::Constructor {
        Prologue::GuardedFrame
    } else {
        Prologue::Frame
    };
    proof {
        lemma_decls_same_length(d.parameters@, d.parameters@.len() as int);
    }
    let body = splice_declarations(&plan.interfaces, &plan.implementations, item.body);
    let entry = EntryPoint {
        prologue,
        arity: d.parameters.len(),
        conversions: plan.conversions,
        trampolines: plan.trampolines,
        args: plan.args,
        callee,
        invocation,
        ret,
    };
    EmittedUnit {
        item: SourceFunction { signature: item.signature, body },
        entry,
        registration,
    }
}

pub proof fn lemma_decls_same_length(ps: Seq<crate::descriptor::Parameter>, j: int)
    ensures
        interface_decls(ps, j).len() == implementation_decls(ps, j).len(),
    decreases j,
{
    if j > 0 {
        lemma_decls_same_length(ps, j - 1);
    }
}

/// The name recorded in the export table for `exported_name`: the name with
/// a NUL terminator, and the length of that in bytes.
pub fn export_record_name(exported_name: &str) -> (r: (String, usize))
    ensures
        r.0@ == exported_name@.push('\0'),
        r.1 == encode_utf8(r.0@).len() as usize,
{
    proof {
        reveal_strlit("\0");
    }
    let mut name = exported_name.to_string();
    name.append("\0");
    assert(name@ =~= exported_name@.push('\0'));
    let len = name.as_str().len();
    (name, len)
}

} // verus!
