//! The boundary to the rquickjs script engine.
//!
//! Everything the library needs from the engine runs through the trusted
//! declarations and wrappers in this module: context construction, script
//! evaluation, global-function invocation, primitive-to-native conversion,
//! persisted-handle save and restore, and exception introspection. Each
//! wrapper opens one "bind to context" scope, performs one operation to
//! completion, and hands plain values back to the verified code around it.

use vstd::prelude::*;

use crate::errors::ExecDiagnostic;

verus! {

#[verifier::external_type_specification]
#[verifier::external_body]
pub struct ExContext(rquickjs::Context);

/// A persisted handle to one script-native value, saved under some engine
/// runtime. It is opaque to everything but the wrappers in this module,
/// which alone can save and resolve it.
#[verifier::external_body]
pub struct Handle {
    inner: rquickjs::Persistent<rquickjs::Value<'static>>,
}

/// Relies on rquickjs::Runtime::new and rquickjs::Context::full: allocates a
/// fresh runtime and one execution context with all standard built-ins
/// enabled; on allocation failure returns the engine's description of the
/// fault. The context keeps its runtime alive.
#[verifier::external_body]
pub(crate) fn new_context_raw() -> (r: Result<rquickjs::Context, String>) {
    rquickjs::Runtime::new()
        .and_then(|runtime| rquickjs::Context::full(&runtime))
        .map_err(|e| format!("{e}"))
}

/// Relies on the Clone impl of rquickjs::Context: returns another owner of
/// the same execution context.
#[verifier::external_body]
pub(crate) fn clone_context(context: &rquickjs::Context) -> (r: rquickjs::Context) {
    context.clone()
}

/// Relies on rquickjs::Context::with, rquickjs::Ctx::eval and
/// rquickjs::Ctx::catch: parses and executes `code` as a top-level script,
/// synchronously to completion, and saves the value of the last expression
/// as a persisted handle. On failure it returns the engine's description of
/// the fault, together with the caught pending exception when the fault was
/// an uncaught script exception.
#[verifier::external_body]
pub(crate) fn eval_raw(
    context: &rquickjs::Context,
    code: &str,
) -> (r: Result<Handle, ExecDiagnostic>) {
    context.with(|ctx| {
        match ctx.eval(code) {
            Ok(inner) => Ok(Handle { inner }),
            Err(e) => Err(ExecDiagnostic {
                exception: if matches!(e, rquickjs::Error::Exception) { Some(format!("{:?}", ctx.catch())) } else { None },
                description: format!("{e}"),
            }),
        }
    })
}

/// Relies on rquickjs::Ctx::globals, rquickjs::Object::get,
/// rquickjs::Function::call_arg and rquickjs::Ctx::catch: looks up the
/// global binding named `func_name`, fails when it is absent or not
/// callable, and otherwise invokes it synchronously with `args` in order,
/// saving its return value as a persisted handle. Restoring an argument
/// saved under another runtime fails. Failures are reported as in `eval_raw`.
#[verifier::external_body]
pub(crate) fn call_raw(
    context: &rquickjs::Context,
    func_name: &str,
    args: Vec<Handle>,
) -> (r: Result<Handle, ExecDiagnostic>) {
    context.with(|ctx| {
        let called = ctx.globals().get::<_, rquickjs::Function>(func_name).and_then(|function| {
            let mut js_args = rquickjs::function::Args::new_unsized(ctx.clone());
            js_args.push_args(args.into_iter().map(|h| h.inner))?;
            function.call_arg(js_args)
        });
        match called {
            Ok(inner) => Ok(Handle { inner }),
            Err(e) => Err(ExecDiagnostic {
                exception: if matches!(e, rquickjs::Error::Exception) { Some(format!("{:?}", ctx.catch())) } else { None },
                description: format!("{e}"),
            }),
        }
    })
}

/// Relies on rquickjs::Value::new_bool, which is what the engine's IntoJs
/// conversion for bool returns, and rquickjs::Persistent::save: builds a
/// script boolean; neither step can fail.
#[verifier::external_body]
pub(crate) fn save_bool(context: &rquickjs::Context, input: bool) -> (r: Handle) {
    context.with(|ctx| {
        let value = rquickjs::Value::new_bool(ctx.clone(), input);
        Handle { inner: rquickjs::Persistent::save(&ctx, value) }
    })
}

/// Relies on rquickjs::Value::new_int, which is what the engine's IntoJs
/// conversion for i32 returns, and rquickjs::Persistent::save: builds a
/// script number; neither step can fail.
#[verifier::external_body]
pub(crate) fn save_int(context: &rquickjs::Context, input: i32) -> (r: Handle) {
    context.with(|ctx| {
        let value = rquickjs::Value::new_int(ctx.clone(), input);
        Handle { inner: rquickjs::Persistent::save(&ctx, value) }
    })
}

/// Relies on the engine's IntoJs conversion for String, which copies the
/// characters into a fresh script string, and rquickjs::Persistent::save.
/// Allocation of the script string can fail; failures are reported as in
/// `eval_raw`.
#[verifier::external_body]
pub(crate) fn save_string(
    context: &rquickjs::Context,
    input: String,
) -> (r: Result<Handle, ExecDiagnostic>) {
    context.with(|ctx| {
        match rquickjs::IntoJs::into_js(input, &ctx) {
            Ok(value) => Ok(Handle { inner: rquickjs::Persistent::save(&ctx, value) }),
            Err(e) => Err(ExecDiagnostic {
                exception: if matches!(e, rquickjs::Error::Exception) { Some(format!("{:?}", ctx.catch())) } else { None },
                description: format!("{e}"),
            }),
        }
    })
}

/// Relies on the engine's IntoJs conversion for a hash map, which builds one
/// script object with one property per key, and rquickjs::Persistent::save.
/// The map is unordered, so property insertion order is not preserved, and
/// of two fields with equal keys only one survives. Restoring a field value
/// saved under another runtime fails. Failures are reported as in `eval_raw`.
#[verifier::external_body]
pub(crate) fn save_object(
    context: &rquickjs::Context,
    fields: Vec<(String, Handle)>,
) -> (r: Result<Handle, ExecDiagnostic>) {
    context.with(|ctx| {
        let map: std::collections::HashMap<_, _> =
            fields.into_iter().map(|(k, h)| (k, h.inner)).collect();
        match rquickjs::IntoJs::into_js(map, &ctx) {
            Ok(value) => Ok(Handle { inner: rquickjs::Persistent::save(&ctx, value) }),
            Err(e) => Err(ExecDiagnostic {
                exception: if matches!(e, rquickjs::Error::Exception) { Some(format!("{:?}", ctx.catch())) } else { None },
                description: format!("{e}"),
            }),
        }
    })
}

/// Relies on rquickjs::Persistent::restore and the engine's Coerced string
/// conversion, which coerces a value to a string exactly as the script
/// language itself would. Fails when the handle was saved under another
/// runtime or when the coercion itself throws; failures are reported as in
/// `eval_raw`.
#[verifier::external_body]
pub(crate) fn restore_coerce_string(
    context: &rquickjs::Context,
    value: Handle,
) -> (r: Result<String, ExecDiagnostic>) {
    context.with(|ctx| {
        let coerced: Result<rquickjs::Coerced<String>, _> =
            value.inner.restore(&ctx).and_then(|v| rquickjs::FromJs::from_js(&ctx, v));
        match coerced {
            Ok(s) => Ok(s.0),
            Err(e) => Err(ExecDiagnostic {
                exception: if matches!(e, rquickjs::Error::Exception) { Some(format!("{:?}", ctx.catch())) } else { None },
                description: format!("{e}"),
            }),
        }
    })
}

/// Relies on the Debug impl of rquickjs::Persistent: renders the persisted
/// handle for diagnostics without resolving it in its context, so it cannot
/// fail.
#[verifier::external_body]
pub(crate) fn persistent_debug(value: &Handle) -> (r: String) {
    format!("{:?}", value.inner)
}

} // verus!
