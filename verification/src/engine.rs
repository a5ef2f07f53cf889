//! The engine/value boundary: one script execution context per [`Engine`],
//! and [`Value`] handles that outlive the call that produced them.
//!
//! Every `Value` belongs to the engine that produced it. That ownership is
//! part of each constructor's contract, and every operation that feeds
//! values back into an engine requires them to belong to it, so a verified
//! caller can never hand a value to a foreign engine.

use vstd::prelude::*;

use crate::errors::Error;
use crate::errors::ExecDiagnostic;
use crate::errors::conversion_outcome;
use crate::external::Handle;
use crate::external::call_raw;
use crate::external::clone_context;
use crate::external::eval_raw;
use crate::external::new_context_raw;
use crate::external::persistent_debug;
use crate::external::restore_coerce_string;
use crate::external::save_bool;
use crate::external::save_int;
use crate::external::save_object;
use crate::external::save_string;

verus! {

/// A script engine owning exactly one execution context, created at
/// construction and torn down when the engine is dropped. All script
/// evaluation and all construction of script-native values go through it.
pub struct Engine {
    context: rquickjs::Context,
    token: Ghost<int>,
}

/// A handle to one script-native value that outlives the call that produced
/// it. It pairs a persisted handle with an owner of the producing engine's
/// context, so the context stays alive as long as the value does.
pub struct Value {
    value: Handle,
    context: rquickjs::Context,
    token: Ghost<int>,
}

impl Value {
    /// The identity of the engine this value belongs to.
    pub closed spec fn owner(self) -> int {
        self.token@
    }

    /// The persisted handle this value carries.
    pub closed spec fn handle(self) -> Handle {
        self.value
    }

    /// Resolves the persisted handle back into a live script-native value
    /// within the owning context, coerces it to a string exactly as the
    /// script language itself would, and returns the result. Fails with
    /// `ConversionError` when the value is not string-convertible (its
    /// coercion throws) or when resolving the handle itself fails.
    pub fn into_string(self) -> (r: Result<String, Error>)
        ensures
            r matches Err(e) ==> e is ConversionError,
    {
        let Value { value: handle, context, token: _ } = self;
        conversion_outcome(restore_coerce_string(&context, handle))
    }

    /// A diagnostic rendering of this value. It never resolves the handle
    /// in its context, so it cannot fail.
    pub fn debug_string(&self) -> (r: String)
        ensures
            exists|detail: Seq<char>| r@ == "Value { value: "@ + detail + " }"@,
    {
        let detail = persistent_debug(&self.value);
        let mut r = String::from_str("Value { value: ");
        r.append(detail.as_str());
        r.append(" }");
        r
    }
}

/// Marshals argument values into their persisted handles: the result holds
/// exactly the arguments' handles, in order, and consuming the values spends
/// them.
fn handles_of(args: Vec<Value>) -> (r: Vec<Handle>)
    ensures
        r@.len() == args@.len(),
        forall|i: int| 0 <= i < args@.len() ==> r@[i] == (#[trigger] args@[i]).handle(),
{
    let ghost all: Seq<Value> = args@;
    let mut rest = args;
    let mut handles: Vec<Handle> = Vec::new();
    while rest.len() > 0
        invariant
            handles@.len() + rest@.len() == all.len(),
            forall|i: int| 0 <= i < handles@.len() ==> handles@[i] == (#[trigger] all[i]).handle(),
            forall|i: int| 0 <= i < rest@.len() ==> #[trigger] rest@[i] == all[handles@.len() + i],
        decreases rest@.len(),
    {
        let v = rest.remove(0);
        let Value { value: handle, context: _, token: _ } = v;
        handles.push(handle);
    }
    handles
}

/// Marshals object fields into key and persisted-handle pairs: the result
/// holds exactly the input's keys and the input values' handles, in order,
/// and consuming the values spends them.
fn field_handles_of(input: Vec<(String, Value)>) -> (r: Vec<(String, Handle)>)
    ensures
        r@.len() == input@.len(),
        forall|i: int| 0 <= i < input@.len() ==> (#[trigger] r@[i]).0 == input@[i].0
            && r@[i].1 == input@[i].1.handle(),
{
    let ghost all: Seq<(String, Value)> = input@;
    let mut rest = input;
    let mut fields: Vec<(String, Handle)> = Vec::new();
    while rest.len() > 0
        invariant
            fields@.len() + rest@.len() == all.len(),
            forall|i: int| 0 <= i < fields@.len() ==> (#[trigger] fields@[i]).0 == all[i].0
                && fields@[i].1 == all[i].1.handle(),
            forall|i: int| 0 <= i < rest@.len() ==> #[trigger] rest@[i] == all[fields@.len() + i],
        decreases rest@.len(),
    {
        let (key, v) = rest.remove(0);
        let Value { value: handle, context: _, token: _ } = v;
        fields.push((key, handle));
    }
    fields
}

impl Engine {
    /// The identity of this engine.
    pub closed spec fn id(self) -> int {
        self.token@
    }

    /// Allocates a fresh script runtime and one execution context with all
    /// standard built-ins enabled. Fails with `InitError` when runtime or
    /// context allocation fails; otherwise the engine is fully usable, with
    /// no partial-success state.
    pub fn new() -> (r: Result<Engine, Error>)
        ensures
            r matches Err(e) ==> e is InitError,
    {
        match new_context_raw() {
            Ok(context) => Ok(Engine { context, token: Ghost(0int) }),
            Err(description) => Err(Error::InitError(description)),
        }
    }

    /// Wraps a persisted handle produced by this engine's context into a
    /// value owned by this engine.
    fn value_of(&self, handle: Handle) -> (v: Value)
        ensures
            v.owner() == self.id(),
            v.handle() == handle,
    {
        Value { value: handle, context: clone_context(&self.context), token: Ghost(self.id()) }
    }

    /// Turns the outcome of one engine operation into the outcome of the
    /// corresponding library operation: a saved handle becomes a value owned
    /// by this engine, and a fault becomes exactly `ExecError` carrying its
    /// diagnostic.
    fn wrap_outcome(
        &self,
        raw: Result<Handle, ExecDiagnostic>,
    ) -> (r: Result<Value, Error>)
        ensures
            raw matches Ok(handle) ==> (r matches Ok(v) && v.owner() == self.id()
                && v.handle() == handle),
            raw matches Err(d) ==> r == Err::<Value, Error>(Error::ExecError(d)),
    {
        match raw {
            Ok(handle) => Ok(self.value_of(handle)),
            Err(d) => Err(Error::ExecError(d)),
        }
    }

    /// Parses and executes `code` as a top-level script within the owned
    /// context, synchronously to completion, and returns the value of the
    /// last expression evaluated as a value owned by this engine. Fails with
    /// `ExecError` when parsing fails, a script exception goes uncaught, or
    /// any other engine-level execution fault occurs; an uncaught exception's
    /// diagnostic carries the caught exception payload. A failure leaves the
    /// engine usable.
    pub fn eval(&self, code: &str) -> (r: Result<Value, Error>)
        ensures
            r matches Ok(v) ==> v.owner() == self.id(),
            r matches Err(e) ==> e is ExecError,
    {
        self.wrap_outcome(eval_raw(&self.context, code))
    }

    /// Looks up the global binding named `func_name` and invokes it
    /// synchronously with `args` in order, returning its return value as a
    /// value owned by this engine. Fails with `ExecError` when the binding
    /// is absent or not callable, or when the call itself faults; a failure
    /// leaves the engine usable. Every argument must belong to this engine;
    /// should an unchecked caller hand in a value saved under another
    /// runtime, the engine refuses to restore it and the call returns a
    /// checked `ExecError`, never undefined behavior.
    pub fn call_function(&self, func_name: &str, args: Vec<Value>) -> (r: Result<Value, Error>)
        requires
            forall|i: int| 0 <= i < args@.len() ==> (#[trigger] args@[i]).owner() == self.id(),
        ensures
            r matches Ok(v) ==> v.owner() == self.id(),
            r matches Err(e) ==> e is ExecError,
    {
        self.wrap_outcome(call_raw(&self.context, func_name, handles_of(args)))
    }

    /// Converts one host boolean into one script boolean owned by this
    /// engine. Building a boolean cannot fault, so this always succeeds.
    pub fn create_bool_value(&self, input: bool) -> (r: Result<Value, Error>)
        ensures
            r matches Ok(v) && v.owner() == self.id(),
    {
        Ok(self.value_of(save_bool(&self.context, input)))
    }

    /// Converts one host 32-bit signed integer into one script number owned
    /// by this engine. Building a number cannot fault, so this always
    /// succeeds.
    pub fn create_int_value(&self, input: i32) -> (r: Result<Value, Error>)
        ensures
            r matches Ok(v) && v.owner() == self.id(),
    {
        Ok(self.value_of(save_int(&self.context, input)))
    }

    /// Converts one host string into one script string owned by this engine.
    /// Fails with `ExecError` only when allocating the script string faults.
    pub fn create_string_value(&self, input: String) -> (r: Result<Value, Error>)
        ensures
            r matches Ok(v) ==> v.owner() == self.id(),
            r matches Err(e) ==> e is ExecError,
    {
        self.wrap_outcome(save_string(&self.context, input))
    }

    /// Builds one script object with one property per pair, owned by this
    /// engine, taking ownership of the field values: once consumed here, the
    /// input handles are spent. Property insertion order is not preserved
    /// (the object is backed by an unordered key-to-value mapping), and of
    /// two pairs with equal keys only one survives. Fails with `ExecError`
    /// when an underlying conversion step faults. Every field value must
    /// belong to this engine; should an unchecked caller hand in a value
    /// saved under another runtime, the engine refuses to restore it and the
    /// call returns a checked `ExecError`, never undefined behavior.
    pub fn create_object_value(&self, input: Vec<(String, Value)>) -> (r: Result<Value, Error>)
        requires
            forall|i: int| 0 <= i < input@.len() ==> (#[trigger] input@[i]).1.owner() == self.id(),
        ensures
            r matches Ok(v) ==> v.owner() == self.id(),
            r matches Err(e) ==> e is ExecError,
    {
        self.wrap_outcome(save_object(&self.context, field_handles_of(input)))
    }
}

} // verus!
