use pacm_v8::callback::{HOST_FAILED_MESSAGE, RESULT_NULL_BYTE_MESSAGE};
use pacm_v8::registry::NOT_FOUND_MESSAGE;
use pacm_v8::{
    arguments_to_values, reply_for, Context, Isolate, JsValue, NativeOutcome, Registry, V8Error,
};
use std::sync::{Arc, Mutex};

type Callback = Arc<dyn Fn(&[JsValue]) -> Result<Option<JsValue>, V8Error> + Send + Sync>;

fn live_context() -> Context {
    let isolate = Isolate::from_raw(0x1000).unwrap();
    isolate.finish_create_context(0x2000).unwrap()
}

fn noop() -> Callback {
    Arc::new(|_args: &[JsValue]| Ok(None))
}

fn call(registry: &Registry<Callback>, id: u64, args: &[JsValue]) -> Result<Option<JsValue>, V8Error> {
    let callback = Arc::clone(registry.lookup(id)?);
    callback(args)
}

#[test]
fn registers_native_function() {
    let mut registry: Registry<Callback> = Registry::new();
    let mut context = live_context();

    let calls: Arc<Mutex<Vec<Vec<String>>>> = Arc::new(Mutex::new(Vec::new()));
    let captured = Arc::clone(&calls);
    let cb: Callback = Arc::new(move |args: &[JsValue]| {
        let mut guard = captured.lock().expect("failed to lock log storage");
        guard.push(args.iter().map(|value| value.as_str().to_owned()).collect());
        Ok(None)
    });
    let (name, id) = context
        .prepare_add_function(&mut registry, "console.log", cb)
        .expect("failed to register native function");
    assert_eq!(name, b"console.log\0".to_vec());
    context
        .finish_add_function(&mut registry, id, 1, None)
        .expect("failed to register native function");

    // The engine, running `console.log('hello', 'world');`, calls back with
    // the two argument buffers.
    let args = arguments_to_values(&[Some(b"hello".to_vec()), Some(b"world".to_vec())]);
    let reply = reply_for(call(&registry, id, &args));
    assert_eq!(reply.status, 1);
    assert!(reply.result.is_none());
    assert!(reply.error.is_none());

    let guard = calls.lock().expect("failed to lock log storage");
    assert_eq!(guard.len(), 1);
    assert_eq!(guard[0], vec!["hello".to_string(), "world".to_string()]);
}

#[test]
fn echo_function_returns_first_argument() {
    let mut registry: Registry<Callback> = Registry::new();
    let mut context = live_context();
    let echo: Callback = Arc::new(|args: &[JsValue]| Ok(args.first().cloned()));
    let (_, id) = context.prepare_add_function(&mut registry, "host.echo", echo).unwrap();
    context.finish_add_function(&mut registry, id, 1, None).unwrap();

    let (name, bufs) = context.prepare_call_function("host.echo", &["ping"]).unwrap();
    assert_eq!(name, b"host.echo\0".to_vec());
    assert_eq!(bufs, vec![b"ping\0".to_vec()]);

    // The engine hands the argument to the callback and the reply back.
    let args = arguments_to_values(&[Some(b"ping".to_vec())]);
    let reply = reply_for(call(&registry, id, &args));
    assert_eq!(reply.status, 1);
    assert_eq!(reply.result, Some(b"ping\0".to_vec()));
    assert!(reply.error.is_none());

    let outcome = NativeOutcome { status: 1, result: Some(b"ping".to_vec()), error: None };
    let value = Context::finish_call_function(outcome).unwrap();
    assert_eq!(value.as_str(), "ping");
}

#[test]
fn functions_not_found_after_context_disposed() {
    let mut registry: Registry<Callback> = Registry::new();
    let mut context = live_context();
    let (_, id) = context.prepare_add_function(&mut registry, "f", noop()).unwrap();
    context.finish_add_function(&mut registry, id, 1, None).unwrap();
    assert!(call(&registry, id, &[]).is_ok());
    context.dispose(&mut registry);
    let err = call(&registry, id, &[]).unwrap_err();
    assert_eq!(err.message(), NOT_FOUND_MESSAGE);
    assert_eq!(err.message(), "native function not found");
    let reply = reply_for(Err(err));
    assert_eq!(reply.status, 0);
    assert_eq!(reply.error, Some(b"native function not found\0".to_vec()));
}

#[test]
fn dispose_returns_registry_to_baseline() {
    let mut registry: Registry<Callback> = Registry::new();
    let mut other = live_context();
    let (_, kept) = other.prepare_add_function(&mut registry, "kept", noop()).unwrap();
    other.finish_add_function(&mut registry, kept, 1, None).unwrap();
    let baseline = registry.len();

    let mut context = live_context();
    for name in ["a", "b", "c"] {
        let (_, id) = context.prepare_add_function(&mut registry, name, noop()).unwrap();
        context.finish_add_function(&mut registry, id, 1, None).unwrap();
    }
    assert_eq!(registry.len(), baseline + 3);
    assert_eq!(context.host_functions().len(), 3);
    context.dispose(&mut registry);
    assert_eq!(registry.len(), baseline);
    assert!(registry.lookup(kept).is_ok());
}

#[test]
fn identifiers_are_fresh_and_increasing() {
    let mut registry: Registry<Callback> = Registry::new();
    assert!(registry.can_register());
    let a = registry.register(noop());
    let b = registry.register(noop());
    assert_eq!(a, 1);
    assert_eq!(b, 2);
    registry.drop_function(a);
    let c = registry.register(noop());
    assert_eq!(c, 3);
    assert_eq!(registry.len(), 2);
}

#[test]
fn unregistering_absent_ids_is_noop() {
    let mut registry: Registry<Callback> = Registry::new();
    let a = registry.register(noop());
    registry.drop_function(99);
    registry.drop_many(&[98, 97]);
    assert_eq!(registry.len(), 1);
    registry.drop_many(&[a, a]);
    assert_eq!(registry.len(), 0);
    registry.drop_function(a);
    assert_eq!(registry.len(), 0);
}

#[test]
fn failed_native_registration_releases_callback() {
    let mut registry: Registry<Callback> = Registry::new();
    let mut context = live_context();
    let (_, id) = context.prepare_add_function(&mut registry, "f", noop()).unwrap();
    assert_eq!(registry.len(), 1);
    let err = context
        .finish_add_function(&mut registry, id, 0, Some(b"name taken".to_vec()))
        .unwrap_err();
    assert_eq!(err.message(), "name taken");
    assert_eq!(registry.len(), 0);
    assert!(context.host_functions().is_empty());

    let (_, id) = context.prepare_add_function(&mut registry, "g", noop()).unwrap();
    let err = context.finish_add_function(&mut registry, id, 0, None).unwrap_err();
    assert_eq!(err.message(), "failed to register host function");

    let err = context.prepare_add_function(&mut registry, "b\0ad", noop()).unwrap_err();
    assert_eq!(err.message(), "input contained an interior null byte");
    assert_eq!(registry.len(), 0);
}

#[test]
fn replies_for_each_callback_result() {
    let reply = reply_for(Ok(None));
    assert_eq!((reply.status, reply.result, reply.error), (1, None, None));

    let reply = reply_for(Ok(Some(JsValue::new("a\0b".to_string()))));
    assert_eq!(reply.status, 0);
    assert!(reply.result.is_none());
    let mut expected = RESULT_NULL_BYTE_MESSAGE.as_bytes().to_vec();
    expected.push(0);
    assert_eq!(reply.error, Some(expected));

    let reply = reply_for(Err(V8Error::new("closure failed")));
    assert_eq!(reply.status, 0);
    assert_eq!(reply.error, Some(b"closure failed\0".to_vec()));

    let reply = reply_for(Err(V8Error::new("bad\0message")));
    assert_eq!(reply.status, 0);
    let mut expected = HOST_FAILED_MESSAGE.as_bytes().to_vec();
    expected.push(0);
    assert_eq!(reply.error, Some(expected));
    assert_eq!(HOST_FAILED_MESSAGE, "host function failed");
}

#[test]
fn arguments_decode_with_null_as_empty() {
    let values = arguments_to_values(&[None, Some(b"x".to_vec()), Some(vec![0xC3, 0xA9])]);
    let texts: Vec<&str> = values.iter().map(|v| v.as_str()).collect();
    assert_eq!(texts, vec!["", "x", "é"]);
    assert!(arguments_to_values(&[]).is_empty());
}
