//! The generated code in structured form. Parameters are referred to by their
//! position in the descriptor, call-frame slots by their index; the locals that
//! hold converted arguments are named after their slot.
use vstd::prelude::*;

verus! {

/// How a value argument is converted from its call-frame slot.
#[derive(Debug, Clone, Copy, PartialEq, Eq, Structural)]
pub enum Conversion {
    /// Into an exclusive reference to storage the conversion does not own.
    MutableRef,
    /// Into a shared reference to storage the conversion does not own.
    SharedRef,
    /// Into an owned value.
    Owned,
    /// Validate first and return the "not applicable" sentinel on mismatch;
    /// convert into an owned value only when validation passes.
    Validated,
}

/// One statement of the argument-marshalling prologue.
#[derive(Debug, Clone, Copy, PartialEq, Eq, Structural)]
pub enum Statement {
    /// Recover the receiver from the opaque instance handle of the frame.
    RecoverReceiver { mutable: bool },
    /// Bind local `arg{slot}` to the converted value of slot `slot`.
    ConvertValue { param: usize, slot: usize, conversion: Conversion },
    /// Bind local `arg{slot}` to a trampoline calling the host function in slot
    /// `slot`; `wrapped` puts it in the generic holder type. With
    /// `checked_in_debug`, the binding is preceded by an assertion that the
    /// slot holds a function, compiled in debug and strict builds only.
    BuildCallback { param: usize, slot: usize, wrapped: bool, checked_in_debug: bool },
}

/// One argument of the underlying native call.
#[derive(Debug, Clone, Copy, PartialEq, Eq, Structural)]
pub enum CallArg {
    /// The local bound from slot `n`.
    Local(usize),
    /// A handle to the running environment.
    Environment,
    /// A managed reference built from the already recovered instance handle.
    OwnerReference,
}

/// A declaration synthesized for a callback parameter that needs an
/// invocation interface; `index` numbers these callbacks within the function.
#[derive(Debug, Clone, Copy, PartialEq, Eq, Structural)]
pub enum Declaration {
    /// The interface `FunctionCall{index}` with one `call` operation.
    Interface { param: usize, index: usize },
    /// Its implementation for the generic holder type.
    Implementation { param: usize, index: usize },
}

/// One step of a callback trampoline's body.
#[derive(Debug, Clone, Copy, PartialEq, Eq, Structural)]
pub enum TrampolineStep {
    /// Convert native input `n` into a host value.
    ConvertInput(usize),
    /// Call the host function with the converted inputs.
    InvokeHost,
    /// Convert the host result back to the callback's return type.
    ConvertResult,
    /// Succeed with the unit value.
    UnitResult,
}

/// How the underlying function is referred to.
#[derive(Debug, Clone, Copy, PartialEq, Eq, Structural)]
pub enum Callee {
    /// `this.name`: a method of the recovered receiver.
    Method,
    /// `Owner::name`: a function in the owner's namespace.
    Associated,
    /// `name`: a free function.
    Free,
}

/// How the produced value becomes the entry point's result.
#[derive(Debug, Clone, Copy, PartialEq, Eq, Structural)]
pub enum ReturnAssembly {
    /// Bind the value to the instance handle; `unwrap` propagates a failure first.
    Construct { unwrap: bool },
    /// Build a new host instance from the value; `unwrap` as above.
    Factory { unwrap: bool },
    /// On success the receiver handle unchanged; a failure propagates.
    ThisOnSuccess,
    /// On success the converted value; on failure a host exception and a null handle.
    ConvertOrThrow,
    /// The receiver handle.
    This,
    /// The converted value.
    Convert,
    /// The converted unit value.
    Unit,
}

/// Whether the underlying call runs inline or as a deferred task.
#[derive(Debug, Clone, Copy, PartialEq, Eq, Structural)]
pub enum Invocation {
    Inline,
    /// Run on the task executor; `fallible` says whether the task's own result
    /// already carries failure (else it is wrapped as a success).
    Deferred { fallible: bool },
}

/// What runs before the argument conversions.
#[derive(Debug, Clone, Copy, PartialEq, Eq, Structural)]
pub enum Prologue {
    /// No frame is opened: the function is called directly.
    Direct,
    /// Open the call frame.
    Frame,
    /// Return a null handle while the factory-guard flag is set, else open the
    /// call frame.
    GuardedFrame,
}

/// The ABI entry point of one bound function.
pub struct EntryPoint {
    pub prologue: Prologue,
    /// Number of arguments the call frame is opened with.
    pub arity: usize,
    pub conversions: Vec<Statement>,
    /// For each parameter, the body of its trampoline if it is a callback.
    pub trampolines: Vec<Option<Vec<TrampolineStep>>>,
    pub args: Vec<CallArg>,
    pub callee: Callee,
    pub invocation: Invocation,
    pub ret: ReturnAssembly,
}

/// What a free function records in the export table when the module loads.
#[derive(Debug)]
pub struct ExportRecord {
    /// The exported name, terminated by NUL.
    pub name: String,
    /// The length of `name` in bytes, terminator included.
    pub name_len: usize,
    /// The module namespace the function is exported under.
    pub namespace: Option<String>,
}

/// How the function becomes reachable from the host.
#[derive(Debug)]
pub enum Registration {
    /// The owning class registers it.
    Delegated,
    /// A function creating the host function value from the entry point, and
    /// one load-time thunk recording `(name, that function)` in the export
    /// table under the namespace.
    Export(ExportRecord),
}

/// One item of a function body.
#[derive(Debug, Clone)]
pub enum BodyItem {
    Declaration(Declaration),
    /// A statement the function was written with, as source text.
    Statement(String),
}

/// The annotated function itself.
pub struct SourceFunction {
    /// Attributes and signature, as source text.
    pub signature: String,
    pub body: Vec<BodyItem>,
}

/// Everything generated for one bound function.
pub struct EmittedUnit {
    pub item: SourceFunction,
    pub entry: EntryPoint,
    pub registration: Registration,
}

} // verus!
