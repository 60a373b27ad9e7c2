//! The description of one native function to bind, as handed over by the
//! annotation parser.
use vstd::prelude::*;

verus! {

/// What role the bound function plays for its owning class.
#[derive(Debug, Clone, Copy, PartialEq, Eq, Structural)]
pub enum FnKind {
    Plain,
    Constructor,
    Factory,
}

/// How a method receives `self`.
#[derive(Debug, Clone, Copy, PartialEq, Eq, Structural)]
pub enum ReceiverKind {
    BorrowedSelf,
    MutablyBorrowedSelf,
    /// `self` by value: never produced by a valid descriptor.
    ValueSelf,
}

/// How a value parameter is received by the native function.
#[derive(Debug, Clone, Copy, PartialEq, Eq, Structural)]
pub enum ReferenceMode {
    Owned,
    Borrowed,
    MutablyBorrowed,
}

/// The native type of a value parameter, as source text.
#[derive(Debug, Clone)]
pub enum ValueType {
    /// `Reference<C>`: a managed reference to an instance of class `C`.
    ManagedReference(String),
    /// Any other type.
    Named(String),
}

/// The declared return type of the bound function.
#[derive(Debug, Clone)]
pub enum ReturnType {
    /// `&Self` or `&mut Self`.
    SelfReference { mutable: bool },
    /// Any other type, as source text.
    Named(String),
}

/// A higher-order parameter: a host function called back from native code.
#[derive(Debug, Clone)]
pub struct CallbackDescriptor {
    pub input_types: Vec<String>,
    pub return_type: Option<String>,
    /// A one-shot closure used as is; otherwise it is wrapped in a generic
    /// holder that needs a synthesized invocation interface.
    pub pure: bool,
    /// Name of the type variable of the holder when `pure` is false.
    pub binding_name: String,
}

/// One parameter of the bound function.
#[derive(Debug, Clone)]
pub enum Parameter {
    Value { ty: ValueType, mode: ReferenceMode },
    Callback(CallbackDescriptor),
    /// Handle to the running environment; not read from the call frame.
    EnvironmentHandle,
}

/// One native function to bind.
#[derive(Debug, Clone)]
pub struct FunctionDescriptor {
    pub name: String,
    pub exported_name: String,
    pub kind: FnKind,
    pub receiver: Option<ReceiverKind>,
    pub owner: Option<String>,
    pub parameters: Vec<Parameter>,
    pub return_type: Option<ReturnType>,
    pub is_fallible: bool,
    pub is_async: bool,
    pub strict: bool,
    pub namespace: Option<String>,
}

impl FunctionDescriptor {
    /// A descriptor the generator accepts: no by-value receiver, a receiver
    /// only on a function that has an owner, and a reference to the owner
    /// only where there is a receiver whose instance handle it can reuse.
    pub open spec fn wf(&self) -> bool {
        &&& !(self.receiver == Some(ReceiverKind::ValueSelf))
        &&& (self.receiver is Some ==> self.owner is Some)
        &&& (self.receiver is None ==> forall|j: int|
            0 <= j < self.parameters@.len() ==> !is_owner_reference(
                #[trigger] self.parameters@[j],
                self.owner,
            ))
    }

    /// Checks `wf` at run time.
    pub fn is_well_formed(&self) -> (r: bool)
        ensures
            r == self.wf(),
    {
        match self.receiver {
            Some(ReceiverKind::ValueSelf) => false,
            Some(_) => self.owner.is_some(),
            None => {
                let mut j: usize = 0;
                while j < self.parameters.len()
                    invariant
                        j <= self.parameters@.len(),
                        self.receiver is None,
                        forall|k: int|
                            0 <= k < j ==> !is_owner_reference(
                                #[trigger] self.parameters@[k],
                                self.owner,
                            ),
                    decreases self.parameters@.len() - j,
                {
                    if crate::marshal::is_owner_ref(&self.parameters[j], &self.owner) {
                        return false;
                    }
                    j += 1;
                }
                true
            },
        }
    }
}

/// Whether `p` is a managed reference to the owning class itself, which reuses
/// the receiver's instance handle.
pub open spec fn is_owner_reference(p: Parameter, owner: Option<String>) -> bool {
    match p {
        Parameter::Value { ty: ValueType::ManagedReference(class), mode: ReferenceMode::Owned } => {
            owner is Some && owner->0@ == class@
        },
        _ => false,
    }
}

/// Whether `p` reads an argument slot of the call frame.
pub open spec fn consumes_slot(p: Parameter, owner: Option<String>) -> bool {
    !(p is EnvironmentHandle) && !is_owner_reference(p, owner)
}

/// Number of slot-consuming parameters among the first `j`.
pub open spec fn slot_count(ps: Seq<Parameter>, owner: Option<String>, j: int) -> nat
    decreases j,
{
    if j <= 0 {
        0
    } else {
        slot_count(ps, owner, j - 1) + if consumes_slot(ps[j - 1], owner) {
            1nat
        } else {
            0nat
        }
    }
}

/// Whether `p` is a callback that needs a synthesized invocation interface.
pub open spec fn needs_interface(p: Parameter) -> bool {
    match p {
        Parameter::Callback(cb) => !cb.pure,
        _ => false,
    }
}

/// Number of callbacks needing an interface among the first `j` parameters.
pub open spec fn interface_count(ps: Seq<Parameter>, j: int) -> nat
    decreases j,
{
    if j <= 0 {
        0
    } else {
        interface_count(ps, j - 1) + if needs_interface(ps[j - 1]) {
            1nat
        } else {
            0nat
        }
    }
}

pub proof fn lemma_slot_count_bounded(ps: Seq<Parameter>, owner: Option<String>, j: int)
    requires
        0 <= j,
    ensures
        slot_count(ps, owner, j) <= j,
    decreases j,
{
    if j > 0 {
        lemma_slot_count_bounded(ps, owner, j - 1);
    }
}

pub proof fn lemma_interface_count_bounded(ps: Seq<Parameter>, j: int)
    requires
        0 <= j,
    ensures
        interface_count(ps, j) <= j,
    decreases j,
{
    if j > 0 {
        lemma_interface_count_bounded(ps, j - 1);
    }
}

} // verus!
