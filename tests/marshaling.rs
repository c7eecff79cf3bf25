use pacm_v8::marshal::NULL_BYTE_MESSAGE;
use pacm_v8::{
    finish_initialize, prepare_initialize, take_error, take_string, text_from_native,
    to_native_text, Context, Isolate, NativeOutcome,
};

fn live_context() -> Context {
    let isolate = Isolate::from_raw(0x1000).unwrap();
    isolate.finish_create_context(0x2000).unwrap()
}

#[test]
fn text_round_trips_through_native_buffer() {
    for text in ["", "plain", "héllo wörld ✓", "emoji 🎉 and \"quotes\""] {
        let buf = to_native_text(text).unwrap();
        assert_eq!(buf.last(), Some(&0u8));
        assert_eq!(buf.len(), text.len() + 1);
        let body = &buf[..buf.len() - 1];
        assert!(!body.contains(&0u8));
        assert_eq!(text_from_native(body), text);
    }
}

#[test]
fn text_with_terminator_is_refused() {
    let err = to_native_text("a\0b").unwrap_err();
    assert_eq!(err.message(), NULL_BYTE_MESSAGE);
    assert_eq!(err.message(), "input contained an interior null byte");
}

#[test]
fn invalid_utf8_is_replaced() {
    let text = text_from_native(&[b'o', b'k', 0xFF, b'!']);
    assert_eq!(text, "ok\u{FFFD}!");
}

#[test]
fn take_string_copies_or_reports_absence() {
    assert_eq!(take_string(None), None);
    assert_eq!(take_string(Some(b"abc".to_vec())), Some("abc".to_string()));
}

#[test]
fn take_error_uses_buffer_or_fallback() {
    let e = take_error(Some(b"boom".to_vec()), "fallback");
    assert_eq!(e.message(), "boom");
    let e = take_error(None, "fallback");
    assert_eq!(e.message(), "fallback");
}

#[test]
fn eval_one_plus_one_yields_two() {
    let context = live_context();
    let source = context.prepare_eval("1+1").unwrap();
    assert_eq!(source, b"1+1\0".to_vec());
    let outcome = NativeOutcome { status: 1, result: Some(b"2".to_vec()), error: None };
    let value = Context::finish_eval(outcome).unwrap();
    assert_eq!(value.as_str(), "2");
}

#[test]
fn eval_string_literal_returns_same_text() {
    let context = live_context();
    let text = "héllo ✓";
    let source = context.prepare_eval(text).unwrap();
    let body = source[..source.len() - 1].to_vec();
    let outcome = NativeOutcome { status: 1, result: Some(body), error: None };
    let value = Context::finish_eval(outcome).unwrap();
    assert_eq!(value.into_string(), text);
}

#[test]
fn eval_failure_reports_message_and_no_value() {
    let context = live_context();
    context.prepare_eval("nonexistent.call()").unwrap();
    let outcome = NativeOutcome {
        status: 0,
        result: None,
        error: Some(b"ReferenceError: nonexistent is not defined".to_vec()),
    };
    let err = Context::finish_eval(outcome).unwrap_err();
    assert_eq!(err.message(), "ReferenceError: nonexistent is not defined");
    assert!(!err.message().is_empty());
}

#[test]
fn eval_failure_without_message_uses_fallback() {
    let outcome = NativeOutcome { status: 0, result: None, error: None };
    let err = Context::finish_eval(outcome).unwrap_err();
    assert_eq!(err.message(), "V8 evaluation failed");
}

#[test]
fn eval_success_without_result_is_empty_value() {
    let outcome = NativeOutcome { status: 1, result: None, error: None };
    let value = Context::finish_eval(outcome).unwrap();
    assert_eq!(value.as_str(), "");
}

#[test]
fn eval_source_with_terminator_is_refused() {
    let context = live_context();
    let err = context.prepare_eval("1\0+1").unwrap_err();
    assert_eq!(err.message(), "input contained an interior null byte");
}

#[test]
fn set_global_str_checks_both_texts() {
    let context = live_context();
    let (n, v) = context.prepare_set_global_str("greeting", "Hello from Rust!").unwrap();
    assert_eq!(n, b"greeting\0".to_vec());
    assert_eq!(v, b"Hello from Rust!\0".to_vec());
    let err = context.prepare_set_global_str("gree\0ting", "x").unwrap_err();
    assert_eq!(err.message(), "input contained an interior null byte");
    let err = context.prepare_set_global_str("greeting", "x\0").unwrap_err();
    assert_eq!(err.message(), "input contained an interior null byte");
}

#[test]
fn set_global_outcomes() {
    assert!(Context::finish_set_global_str(1, None).is_ok());
    let err = Context::finish_set_global_str(0, None).unwrap_err();
    assert_eq!(err.message(), "failed to set global string");
    let err = Context::finish_set_global_number(0, None).unwrap_err();
    assert_eq!(err.message(), "failed to set global number");
    let err = Context::finish_set_global_number(0, Some(b"bad name".to_vec())).unwrap_err();
    assert_eq!(err.message(), "bad name");
    let context = live_context();
    assert_eq!(
        context.prepare_set_global_number("host.info.version").unwrap(),
        b"host.info.version\0".to_vec()
    );
}

#[test]
fn call_function_buffers_name_and_arguments() {
    let context = live_context();
    let (name, args) = context
        .prepare_call_function("describeHost", &["Rust entry point", "x"])
        .unwrap();
    assert_eq!(name, b"describeHost\0".to_vec());
    assert_eq!(args, vec![b"Rust entry point\0".to_vec(), b"x\0".to_vec()]);
    let (_, none) = context.prepare_call_function("f", &[]).unwrap();
    assert!(none.is_empty());
    let err = context.prepare_call_function("f", &["ok", "b\0ad"]).unwrap_err();
    assert_eq!(err.message(), "input contained an interior null byte");
    let outcome = NativeOutcome { status: 0, result: None, error: None };
    let err = Context::finish_call_function(outcome).unwrap_err();
    assert_eq!(err.message(), "failed to call function");
}

#[test]
fn initialize_steps() {
    assert!(prepare_initialize(None).unwrap().is_none());
    assert_eq!(
        prepare_initialize(Some("/data/icudtl.dat")).unwrap(),
        Some(b"/data/icudtl.dat\0".to_vec())
    );
    let err = prepare_initialize(Some("bad\0path")).unwrap_err();
    assert_eq!(err.message(), "input contained an interior null byte");
    assert!(finish_initialize(1).is_ok());
    assert_eq!(finish_initialize(0).unwrap_err().message(), "failed to initialise V8");
}
