use js_engine::{Engine, Error, ExecDiagnostic};

#[test]
fn eval_expression_coerces_to_string() {
    let engine = Engine::new().unwrap();
    let value = engine.eval("1+2").unwrap();
    assert_eq!(value.into_string().unwrap(), "3");
}

#[test]
fn eval_string_result() {
    let engine = Engine::new().unwrap();
    let value = engine.eval("'a' + 'b'").unwrap();
    assert_eq!(value.into_string().unwrap(), "ab");
}

#[test]
fn eval_invalid_source_fails_engine_stays_usable() {
    let engine = Engine::new().unwrap();
    let err = engine.eval("not valid js (").err().unwrap();
    assert!(matches!(err, Error::ExecError(_)));
    let value = engine.eval("1").unwrap();
    assert_eq!(value.into_string().unwrap(), "1");
}

#[test]
fn eval_uncaught_exception_carries_payload() {
    let engine = Engine::new().unwrap();
    let err = engine.eval("throw new Error('kaput')").err().unwrap();
    match err {
        Error::ExecError(d) => {
            let payload = d.exception.clone().expect("exception payload expected");
            assert!(payload.contains("kaput"));
            assert!(!d.description.is_empty());
        }
        other => panic!("expected ExecError, got {}", other.message()),
    }
    let value = engine.eval("2").unwrap();
    assert_eq!(value.into_string().unwrap(), "2");
}

#[test]
fn call_missing_function_fails() {
    let engine = Engine::new().unwrap();
    let err = engine.call_function("missing_fn", vec![]).err().unwrap();
    match err {
        Error::ExecError(d) => assert!(!d.description.is_empty()),
        other => panic!("expected ExecError, got {}", other.message()),
    }
}

#[test]
fn call_non_callable_global_fails() {
    let engine = Engine::new().unwrap();
    engine.eval("var seven = 7;").unwrap();
    let err = engine.call_function("seven", vec![]).err().unwrap();
    assert!(matches!(err, Error::ExecError(_)));
}

#[test]
fn call_identity_function_round_trips_int() {
    let engine = Engine::new().unwrap();
    engine.eval("function id(x){return x;}").unwrap();
    let arg = engine.create_int_value(42).unwrap();
    let result = engine.call_function("id", vec![arg]).unwrap();
    assert_eq!(result.into_string().unwrap(), "42");
}

#[test]
fn call_function_with_several_args_in_order() {
    let engine = Engine::new().unwrap();
    engine.eval("function cat(a, b){return '' + a + '|' + b;}").unwrap();
    let a = engine.create_int_value(1).unwrap();
    let b = engine.create_string_value("x".to_string()).unwrap();
    let result = engine.call_function("cat", vec![a, b]).unwrap();
    assert_eq!(result.into_string().unwrap(), "1|x");
}

#[test]
fn create_bool_value_converts() {
    let engine = Engine::new().unwrap();
    let t = engine.create_bool_value(true).unwrap();
    assert_eq!(t.into_string().unwrap(), "true");
    let f = engine.create_bool_value(false).unwrap();
    assert_eq!(f.into_string().unwrap(), "false");
}

#[test]
fn create_int_value_converts() {
    let engine = Engine::new().unwrap();
    let value = engine.create_int_value(-7).unwrap();
    assert_eq!(value.into_string().unwrap(), "-7");
}

#[test]
fn create_string_value_converts() {
    let engine = Engine::new().unwrap();
    let value = engine.create_string_value("hello".to_string()).unwrap();
    assert_eq!(value.into_string().unwrap(), "hello");
}

#[test]
fn created_values_are_script_typed() {
    let engine = Engine::new().unwrap();
    engine.eval("function kind(x){return typeof x;}").unwrap();
    let b = engine.create_bool_value(true).unwrap();
    assert_eq!(engine.call_function("kind", vec![b]).unwrap().into_string().unwrap(), "boolean");
    let i = engine.create_int_value(3).unwrap();
    assert_eq!(engine.call_function("kind", vec![i]).unwrap().into_string().unwrap(), "number");
    let s = engine.create_string_value("s".to_string()).unwrap();
    assert_eq!(engine.call_function("kind", vec![s]).unwrap().into_string().unwrap(), "string");
}

#[test]
fn create_object_value_has_exactly_the_given_properties() {
    let engine = Engine::new().unwrap();
    engine
        .eval("function show(o){return Object.keys(o).sort().map(k => k + '=' + o[k]).join(',');}")
        .unwrap();
    let a = engine.create_int_value(1).unwrap();
    let b = engine.create_string_value("x".to_string()).unwrap();
    let object = engine
        .create_object_value(vec![("a".to_string(), a), ("b".to_string(), b)])
        .unwrap();
    let result = engine.call_function("show", vec![object]).unwrap();
    assert_eq!(result.into_string().unwrap(), "a=1,b=x");
}

#[test]
fn create_empty_object_value() {
    let engine = Engine::new().unwrap();
    engine.eval("function count(o){return Object.keys(o).length;}").unwrap();
    let object = engine.create_object_value(vec![]).unwrap();
    let result = engine.call_function("count", vec![object]).unwrap();
    assert_eq!(result.into_string().unwrap(), "0");
}

#[test]
fn into_string_coerces_through_to_string_method() {
    let engine = Engine::new().unwrap();
    let value = engine.eval("({toString: function(){return 'T';}})").unwrap();
    assert_eq!(value.into_string().unwrap(), "T");
}

#[test]
fn into_string_of_symbol_fails_with_conversion_error() {
    let engine = Engine::new().unwrap();
    let value = engine.eval("Symbol('s')").unwrap();
    let err = value.into_string().err().unwrap();
    assert!(matches!(err, Error::ConversionError(_)));
}

#[test]
fn debug_string_never_fails_and_names_the_value() {
    let engine = Engine::new().unwrap();
    let value = engine.eval("1").unwrap();
    let rendered = value.debug_string();
    assert!(rendered.starts_with("Value { value: "));
    assert!(rendered.ends_with(" }"));
}

#[test]
fn engines_do_not_share_global_state() {
    let first = Engine::new().unwrap();
    first.eval("function planted(){return 1;}").unwrap();
    let second = Engine::new().unwrap();
    let err = second.call_function("planted", vec![]).err().unwrap();
    assert!(matches!(err, Error::ExecError(_)));
    assert_eq!(first.call_function("planted", vec![]).unwrap().into_string().unwrap(), "1");
}

#[test]
fn foreign_value_is_rejected_as_checked_exec_error() {
    let first = Engine::new().unwrap();
    let second = Engine::new().unwrap();
    second.eval("function id(x){return x;}").unwrap();
    let foreign = first.create_int_value(5).unwrap();
    let err = second.call_function("id", vec![foreign]).err().unwrap();
    match err {
        Error::ExecError(d) => assert!(!d.description.is_empty()),
        other => panic!("expected ExecError, got {}", other.message()),
    }
}

#[test]
fn many_engines_in_sequence() {
    for i in 0..64 {
        let engine = Engine::new().unwrap();
        engine.eval("globalThis.n = 1;").unwrap();
        let value = engine.eval(&format!("n + {i}")).unwrap();
        assert_eq!(value.into_string().unwrap(), format!("{}", 1 + i));
    }
}

#[test]
fn value_outlives_the_call_that_produced_it() {
    let engine = Engine::new().unwrap();
    let kept = engine.eval("({toString: () => 'kept'})").unwrap();
    engine.eval("function noise(){return 0;}").unwrap();
    engine.call_function("noise", vec![]).unwrap();
    assert_eq!(kept.into_string().unwrap(), "kept");
}

#[test]
fn error_to_string_without_exception_is_description_alone() {
    let d = ExecDiagnostic { description: "boom".to_string(), exception: None };
    assert_eq!(js_engine::error_to_string(&d), "boom");
}

#[test]
fn error_to_string_with_exception_appends_payload() {
    let d = ExecDiagnostic {
        description: "Exception generated by QuickJS".to_string(),
        exception: Some("Error: kaput".to_string()),
    };
    assert_eq!(
        js_engine::error_to_string(&d),
        "Exception generated by QuickJS: Error: kaput"
    );
}

#[test]
fn conversion_outcome_keeps_a_coerced_string() {
    let r = js_engine::conversion_outcome(Ok("3".to_string()));
    assert_eq!(r.unwrap(), "3");
}

#[test]
fn conversion_outcome_flattens_a_fault() {
    let d = ExecDiagnostic { description: "stale".to_string(), exception: None };
    match js_engine::conversion_outcome(Err(d)) {
        Err(Error::ConversionError(m)) => assert_eq!(m, "stale"),
        _ => panic!("expected ConversionError"),
    }
}

#[test]
fn message_of_each_error_kind() {
    let init = Error::InitError("no memory".to_string());
    assert_eq!(init.message(), "no memory");
    let exec = Error::ExecError(ExecDiagnostic {
        description: "d".to_string(),
        exception: Some("e".to_string()),
    });
    assert_eq!(exec.message(), "d: e");
    let conv = Error::ConversionError("bad".to_string());
    assert_eq!(conv.message(), "bad");
}
