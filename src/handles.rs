use vstd::prelude::*;

use crate::error::V8Error;
use crate::marshal::{
    buffer_view, error_message, holds_terminator, native_text, status_outcome, take_error,
    to_native_text, value_outcome, value_result, value_view, NativeOutcome, NULL_BYTE_MESSAGE,
};
use crate::registry::Registry;
use crate::value::JsValue;

verus! {

/// A native handle: the address of a native resource, with 0 for none.
pub type Handle = usize;

/// The null handle, held by every entity once it is disposed.
pub const NULL_HANDLE: Handle = 0;

/// Messages of the errors that the lifecycle steps report: initialization
/// failures, usage errors, and the fallbacks for native failures that came
/// without a message.
pub const INITIALISE_FAILED_MESSAGE: &'static str = "failed to initialise V8";

pub const ISOLATE_FAILED_MESSAGE: &'static str = "failed to create V8 isolate";

pub const CONTEXT_FAILED_MESSAGE: &'static str = "failed to create V8 context";

pub const ISOLATE_DISPOSED_MESSAGE: &'static str = "isolate was disposed";

pub const CONTEXT_DISPOSED_MESSAGE: &'static str = "context was disposed";

pub const SCRIPT_DISPOSED_MESSAGE: &'static str = "script was disposed";

pub const ISOLATE_MISMATCH_MESSAGE: &'static str =
    "script and context belong to different isolates";

pub const EVAL_FAILED_MESSAGE: &'static str = "V8 evaluation failed";

pub const SET_STRING_FAILED_MESSAGE: &'static str = "failed to set global string";

pub const SET_NUMBER_FAILED_MESSAGE: &'static str = "failed to set global number";

pub const REGISTER_FAILED_MESSAGE: &'static str = "failed to register host function";

pub const CALL_FAILED_MESSAGE: &'static str = "failed to call function";

pub const COMPILE_FAILED_MESSAGE: &'static str = "failed to compile script";

pub const RUN_FAILED_MESSAGE: &'static str = "failed to run script";

/// What disposal asks of the native side: the handle to release, or nothing
/// when the entity was already disposed.
pub open spec fn release_of(handle: Handle) -> Option<Handle> {
    if handle == NULL_HANDLE {
        None
    } else {
        Some(handle)
    }
}

/// The buffer to hand to one-time engine bootstrap for the optional path of
/// the locale data.
pub fn prepare_initialize(locale_data_path: Option<&str>) -> (r: Result<Option<Vec<u8>>, V8Error>)
    ensures
        match locale_data_path {
            None => r matches Ok(None),
            Some(p) => match r {
                Ok(Some(b)) => !holds_terminator(p@) && b@ == native_text(p@),
                Ok(None) => false,
                Err(e) => holds_terminator(p@) && e@ == NULL_BYTE_MESSAGE@,
            },
        },
{
    match locale_data_path {
        None => Ok(None),
        Some(p) => match to_native_text(p) {
            Ok(b) => Ok(Some(b)),
            Err(e) => Err(e),
        },
    }
}

/// Interprets the status flag of engine bootstrap.
pub fn finish_initialize(status: i32) -> (r: Result<(), V8Error>)
    ensures
        match r {
            Ok(_) => status != 0,
            Err(e) => status == 0 && e@ == INITIALISE_FAILED_MESSAGE@,
        },
{
    if status == 0 {
        Err(V8Error::new(INITIALISE_FAILED_MESSAGE))
    } else {
        Ok(())
    }
}

/// One instance of the embedded runtime.
#[derive(Debug)]
pub struct Isolate {
    handle: Handle,
}

impl View for Isolate {
    type V = Handle;

    closed spec fn view(&self) -> Handle {
        self.handle
    }
}

impl Isolate {
    /// Takes ownership of the handle returned by native isolate creation.
    pub fn from_raw(handle: Handle) -> (r: Result<Isolate, V8Error>)
        ensures
            match r {
                Ok(i) => handle != NULL_HANDLE && i@ == handle,
                Err(e) => handle == NULL_HANDLE && e@ == ISOLATE_FAILED_MESSAGE@,
            },
    {
        if handle == NULL_HANDLE {
            Err(V8Error::new(ISOLATE_FAILED_MESSAGE))
        } else {
            Ok(Isolate { handle })
        }
    }

    pub fn raw_handle(&self) -> (r: Handle)
        ensures
            r == self@,
    {
        self.handle
    }

    pub fn is_disposed(&self) -> (r: bool)
        ensures
            r == (self@ == NULL_HANDLE),
    {
        self.handle == NULL_HANDLE
    }

    /// The handle to create a context in, or a usage error once disposed.
    pub fn prepare_create_context(&self) -> (r: Result<Handle, V8Error>)
        ensures
            match r {
                Ok(h) => self@ != NULL_HANDLE && h == self@,
                Err(e) => self@ == NULL_HANDLE && e@ == ISOLATE_DISPOSED_MESSAGE@,
            },
    {
        if self.handle == NULL_HANDLE {
            Err(V8Error::new(ISOLATE_DISPOSED_MESSAGE))
        } else {
            Ok(self.handle)
        }
    }

    /// Takes ownership of the handle returned by native context creation in
    /// this isolate.
    pub fn finish_create_context(&self, handle: Handle) -> (r: Result<Context, V8Error>)
        ensures
            match r {
                Ok(c) => handle != NULL_HANDLE && c@ == (ContextView {
                    handle,
                    isolate: self@,
                    functions: Seq::empty(),
                }),
                Err(e) => handle == NULL_HANDLE && e@ == CONTEXT_FAILED_MESSAGE@,
            },
    {
        if handle == NULL_HANDLE {
            Err(V8Error::new(CONTEXT_FAILED_MESSAGE))
        } else {
            Ok(Context { handle, isolate: self.handle, host_functions: Vec::new() })
        }
    }

    /// Marks the isolate disposed and returns the handle that the native
    /// side must release, if it was still live.
    pub fn dispose(&mut self) -> (r: Option<Handle>)
        ensures
            r == release_of(old(self)@),
            final(self)@ == NULL_HANDLE,
    {
        if self.handle == NULL_HANDLE {
            return None;
        }
        let handle = self.handle;
        self.handle = NULL_HANDLE;
        Some(handle)
    }
}

/// The state of a context: its handle, its isolate's handle, and the
/// identifiers of the host functions registered through it.
pub struct ContextView {
    pub handle: Handle,
    pub isolate: Handle,
    pub functions: Seq<u64>,
}

/// The state of a context after disposal.
pub open spec fn disposed_context(c: ContextView) -> ContextView {
    ContextView { handle: NULL_HANDLE, isolate: c.isolate, functions: Seq::empty() }
}

/// The registry after the functions of a disposed context are removed.
pub open spec fn registry_after_dispose<F>(registry: Map<u64, F>, functions: Seq<u64>) -> Map<
    u64,
    F,
> {
    registry.remove_keys(functions.to_set())
}

/// One global scope in an isolate.
#[derive(Debug)]
pub struct Context {
    handle: Handle,
    isolate: Handle,
    host_functions: Vec<u64>,
}

impl View for Context {
    type V = ContextView;

    closed spec fn view(&self) -> ContextView {
        ContextView { handle: self.handle, isolate: self.isolate, functions: self.host_functions@ }
    }
}

/// The usage error owed before a call into a context, if any: a disposed
/// context first, then a text that holds a terminator.
pub open spec fn context_text_error(handle: Handle, texts: Seq<Seq<char>>) -> Option<Seq<char>> {
    if handle == NULL_HANDLE {
        Some(CONTEXT_DISPOSED_MESSAGE@)
    } else if exists|i: int| 0 <= i < texts.len() && holds_terminator(#[trigger] texts[i]) {
        Some(NULL_BYTE_MESSAGE@)
    } else {
        None
    }
}

/// The texts of a list of arguments.
pub open spec fn texts_of(args: Seq<&str>) -> Seq<Seq<char>> {
    Seq::new(args.len(), |i: int| args[i]@)
}

/// What a native call that yields a value owes its caller, given the
/// fallback for a failure without message.
pub open spec fn outcome_value(outcome: NativeOutcome, fallback: Seq<char>) -> Result<
    Seq<char>,
    Seq<char>,
> {
    value_result(outcome.status, buffer_view(outcome.result), buffer_view(outcome.error), fallback)
}

/// The result of a native call that yields nothing, as text.
pub open spec fn status_view(r: Result<(), V8Error>) -> Result<(), Seq<char>> {
    match r {
        Ok(_) => Ok(()),
        Err(e) => Err(e@),
    }
}

/// What a native call that yields nothing owes its caller.
pub open spec fn status_value(status: i32, error: Option<Vec<u8>>, fallback: Seq<char>) -> Result<
    (),
    Seq<char>,
> {
    if status == 0 {
        Err(error_message(buffer_view(error), fallback))
    } else {
        Ok(())
    }
}

impl Context {
    pub fn raw_handle(&self) -> (r: Handle)
        ensures
            r == self@.handle,
    {
        self.handle
    }

    pub fn isolate_handle(&self) -> (r: Handle)
        ensures
            r == self@.isolate,
    {
        self.isolate
    }

    pub fn is_disposed(&self) -> (r: bool)
        ensures
            r == (self@.handle == NULL_HANDLE),
    {
        self.handle == NULL_HANDLE
    }

    /// The identifiers of the host functions registered through this
    /// context and not yet released.
    pub fn host_functions(&self) -> (r: &[u64])
        ensures
            r@ == self@.functions,
    {
        self.host_functions.as_slice()
    }

    /// A usage error for a disposed context.
    fn check_live(&self) -> (r: Result<(), V8Error>)
        ensures
            match r {
                Ok(_) => self@.handle != NULL_HANDLE,
                Err(e) => self@.handle == NULL_HANDLE && e@ == CONTEXT_DISPOSED_MESSAGE@,
            },
    {
        if self.handle == NULL_HANDLE {
            Err(V8Error::new(CONTEXT_DISPOSED_MESSAGE))
        } else {
            Ok(())
        }
    }

    /// The terminated buffer of one text handed to this context.
    fn prepare_text(&self, text: &str) -> (r: Result<Vec<u8>, V8Error>)
        ensures
            match r {
                Ok(b) => context_text_error(self@.handle, seq![text@]) is None && b@ == native_text(
                    text@,
                ),
                Err(e) => context_text_error(self@.handle, seq![text@]) == Some(e@),
            },
    {
        match self.check_live() {
            Err(e) => return Err(e),
            Ok(_) => {},
        }
        let r = to_native_text(text);
        assert(seq![text@][0] == text@);
        r
    }

    /// The terminated source to evaluate in this context.
    pub fn prepare_eval(&self, source: &str) -> (r: Result<Vec<u8>, V8Error>)
        ensures
            match r {
                Ok(b) => context_text_error(self@.handle, seq![source@]) is None && b@
                    == native_text(source@),
                Err(e) => context_text_error(self@.handle, seq![source@]) == Some(e@),
            },
    {
        self.prepare_text(source)
    }

    /// Interprets the outcome of a native evaluation.
    pub fn finish_eval(outcome: NativeOutcome) -> (r: Result<JsValue, V8Error>)
        ensures
            value_view(r) == outcome_value(outcome, EVAL_FAILED_MESSAGE@),
    {
        value_outcome(outcome, EVAL_FAILED_MESSAGE)
    }

    /// The terminated name and value of a global string to set.
    pub fn prepare_set_global_str(&self, name: &str, value: &str) -> (r: Result<
        (Vec<u8>, Vec<u8>),
        V8Error,
    >)
        ensures
            match r {
                Ok((n, v)) => context_text_error(self@.handle, seq![name@, value@]) is None && n@
                    == native_text(name@) && v@ == native_text(value@),
                Err(e) => context_text_error(self@.handle, seq![name@, value@]) == Some(e@),
            },
    {
        let ghost texts = seq![name@, value@];
        assert(texts[0] == name@ && texts[1] == value@);
        match self.check_live() {
            Err(e) => return Err(e),
            Ok(_) => {},
        }
        let n = match to_native_text(name) {
            Ok(n) => n,
            Err(e) => return Err(e),
        };
        let v = match to_native_text(value) {
            Ok(v) => v,
            Err(e) => return Err(e),
        };
        Ok((n, v))
    }

    /// Interprets the outcome of setting a global string.
    pub fn finish_set_global_str(status: i32, error: Option<Vec<u8>>) -> (r: Result<(), V8Error>)
        ensures
            status_view(r) == status_value(status, error, SET_STRING_FAILED_MESSAGE@),
    {
        status_outcome(status, error, SET_STRING_FAILED_MESSAGE)
    }

    /// The terminated name of a global number to set; the number itself
    /// goes to the native side as it is.
    pub fn prepare_set_global_number(&self, name: &str) -> (r: Result<Vec<u8>, V8Error>)
        ensures
            match r {
                Ok(b) => context_text_error(self@.handle, seq![name@]) is None && b@ == native_text(
                    name@,
                ),
                Err(e) => context_text_error(self@.handle, seq![name@]) == Some(e@),
            },
    {
        self.prepare_text(name)
    }

    /// Interprets the outcome of setting a global number.
    pub fn finish_set_global_number(status: i32, error: Option<Vec<u8>>) -> (r: Result<
        (),
        V8Error,
    >)
        ensures
            status_view(r) == status_value(status, error, SET_NUMBER_FAILED_MESSAGE@),
    {
        status_outcome(status, error, SET_NUMBER_FAILED_MESSAGE)
    }

    /// The terminated name and argument buffers of a function call.
    pub fn prepare_call_function(&self, name: &str, args: &[&str]) -> (r: Result<
        (Vec<u8>, Vec<Vec<u8>>),
        V8Error,
    >)
        ensures
            match r {
                Ok((n, bufs)) => {
                    &&& context_text_error(self@.handle, seq![name@] + texts_of(args@)) is None
                    &&& n@ == native_text(name@)
                    &&& bufs@.len() == args@.len()
                    &&& forall|i: int|
                        0 <= i < args@.len() ==> #[trigger] bufs@[i]@ == native_text(args@[i]@)
                },
                Err(e) => context_text_error(self@.handle, seq![name@] + texts_of(args@)) == Some(
                    e@,
                ),
            },
    {
        let ghost texts = seq![name@] + texts_of(args@);
        assert(texts[0] == name@);
        assert(forall|i: int| 0 <= i < args@.len() ==> texts[i + 1] == args@[i]@);
        match self.check_live() {
            Err(e) => return Err(e),
            Ok(_) => {},
        }
        let n = match to_native_text(name) {
            Ok(n) => n,
            Err(e) => return Err(e),
        };
        let mut bufs: Vec<Vec<u8>> = Vec::new();
        let mut i: usize = 0;
        while i < args.len()
            invariant
                0 <= i <= args@.len(),
                texts == seq![name@] + texts_of(args@),
                texts.len() == args@.len() + 1,
                self@.handle != NULL_HANDLE,
                forall|j: int| 0 <= j < args@.len() ==> texts[j + 1] == args@[j]@,
                !holds_terminator(texts[0]),
                bufs@.len() == i,
                forall|j: int| 0 <= j < i ==> #[trigger] bufs@[j]@ == native_text(args@[j]@),
                forall|j: int| 0 <= j < i ==> !holds_terminator(#[trigger] args@[j]@),
            decreases args@.len() - i,
        {
            match to_native_text(args[i]) {
                Ok(b) => bufs.push(b),
                Err(e) => {
                    assert(holds_terminator(texts[i + 1]));
                    return Err(e);
                },
            }
            i = i + 1;
        }
        assert forall|j: int| 0 <= j < texts.len() implies !holds_terminator(#[trigger] texts[j]) by {
            if j > 0 {
                assert(texts[j] == args@[j - 1]@);
            }
        }
        Ok((n, bufs))
    }

    /// Interprets the outcome of a native function call.
    pub fn finish_call_function(outcome: NativeOutcome) -> (r: Result<JsValue, V8Error>)
        ensures
            value_view(r) == outcome_value(outcome, CALL_FAILED_MESSAGE@),
    {
        value_outcome(outcome, CALL_FAILED_MESSAGE)
    }

    /// Checks a host function's name and, when the context is live and the
    /// name can cross the boundary, stores the callback in the registry
    /// under a fresh identifier. Returns the terminated name and that
    /// identifier, to be handed to native registration.
    pub fn prepare_add_function<F>(&self, registry: &mut Registry<F>, name: &str, callback: F) -> (r:
        Result<(Vec<u8>, u64), V8Error>)
        requires
            old(registry).wf(),
            old(registry).next_spec() < u64::MAX,
        ensures
            final(registry).wf(),
            match r {
                Ok((n, id)) => {
                    &&& context_text_error(self@.handle, seq![name@]) is None
                    &&& n@ == native_text(name@)
                    &&& id == old(registry).next_spec()
                    &&& !old(registry)@.contains_key(id)
                    &&& final(registry)@ == old(registry)@.insert(id, callback)
                    &&& final(registry).next_spec() == id + 1
                },
                Err(e) => {
                    &&& context_text_error(self@.handle, seq![name@]) == Some(e@)
                    &&& final(registry)@ == old(registry)@
                    &&& final(registry).next_spec() == old(registry).next_spec()
                },
            },
    {
        let n = match self.prepare_text(name) {
            Ok(n) => n,
            Err(e) => return Err(e),
        };
        let id = registry.register(callback);
        Ok((n, id))
    }

    /// Interprets the outcome of native registration of the function stored
    /// under `id`: on success the context takes ownership of the
    /// identifier, on failure the registry lets go of the callback.
    pub fn finish_add_function<F>(
        &mut self,
        registry: &mut Registry<F>,
        id: u64,
        status: i32,
        error: Option<Vec<u8>>,
    ) -> (r: Result<(), V8Error>)
        requires
            old(registry).wf(),
        ensures
            final(registry).wf(),
            final(registry).next_spec() == old(registry).next_spec(),
            status_view(r) == status_value(status, error, REGISTER_FAILED_MESSAGE@),
            final(self)@.handle == old(self)@.handle,
            final(self)@.isolate == old(self)@.isolate,
            status != 0 ==> final(self)@.functions == old(self)@.functions.push(id),
            status != 0 ==> final(registry)@ == old(registry)@,
            status == 0 ==> final(self)@.functions == old(self)@.functions,
            status == 0 ==> final(registry)@ == old(registry)@.remove(id),
    {
        if status == 0 {
            registry.drop_function(id);
            return Err(take_error(error, REGISTER_FAILED_MESSAGE));
        }
        self.host_functions.push(id);
        Ok(())
    }

    /// Disposes the context: first removes from the registry every host
    /// function registered through it, then marks it disposed and returns
    /// the handle that the native side must release, if it was still live.
    pub fn dispose<F>(&mut self, registry: &mut Registry<F>) -> (r: Option<Handle>)
        requires
            old(registry).wf(),
        ensures
            final(registry).wf(),
            final(registry).next_spec() == old(registry).next_spec(),
            final(registry)@ == registry_after_dispose(old(registry)@, old(self)@.functions),
            final(self)@ == disposed_context(old(self)@),
            r == release_of(old(self)@.handle),
    {
        registry.drop_many(self.host_functions.as_slice());
        self.host_functions = Vec::new();
        if self.handle == NULL_HANDLE {
            return None;
        }
        let handle = self.handle;
        self.handle = NULL_HANDLE;
        Some(handle)
    }
}

/// The state of a script: its handle and its isolate's handle.
pub struct ScriptView {
    pub handle: Handle,
    pub isolate: Handle,
}

/// What running a script against a context asks of the native side: the
/// script and context handles, or the usage error owed instead (a disposed
/// script, then a disposed context, then contexts of another isolate).
pub open spec fn run_check(script: ScriptView, context: ContextView) -> Result<
    (Handle, Handle),
    Seq<char>,
> {
    if script.handle == NULL_HANDLE {
        Err(SCRIPT_DISPOSED_MESSAGE@)
    } else if context.handle == NULL_HANDLE {
        Err(CONTEXT_DISPOSED_MESSAGE@)
    } else if context.isolate != script.isolate {
        Err(ISOLATE_MISMATCH_MESSAGE@)
    } else {
        Ok((script.handle, context.handle))
    }
}

/// The state of a script after disposal.
pub open spec fn disposed_script(s: ScriptView) -> ScriptView {
    ScriptView { handle: NULL_HANDLE, isolate: s.isolate }
}

/// A compiled program, runnable against any context of its isolate.
#[derive(Debug)]
pub struct Script {
    handle: Handle,
    isolate: Handle,
}

impl View for Script {
    type V = ScriptView;

    closed spec fn view(&self) -> ScriptView {
        ScriptView { handle: self.handle, isolate: self.isolate }
    }
}

impl Script {
    /// The terminated source to compile in the isolate.
    pub fn prepare_compile(isolate: &Isolate, source: &str) -> (r: Result<Vec<u8>, V8Error>)
        ensures
            match r {
                Ok(b) => isolate@ != NULL_HANDLE && !holds_terminator(source@) && b@ == native_text(
                    source@,
                ),
                Err(e) => if isolate@ == NULL_HANDLE {
                    e@ == ISOLATE_DISPOSED_MESSAGE@
                } else {
                    holds_terminator(source@) && e@ == NULL_BYTE_MESSAGE@
                },
            },
    {
        if isolate.handle == NULL_HANDLE {
            return Err(V8Error::new(ISOLATE_DISPOSED_MESSAGE));
        }
        to_native_text(source)
    }

    /// Takes ownership of the handle returned by native compilation in the
    /// isolate; a null handle is a failure, reported with the error buffer.
    pub fn finish_compile(isolate: &Isolate, handle: Handle, error: Option<Vec<u8>>) -> (r: Result<
        Script,
        V8Error,
    >)
        ensures
            match r {
                Ok(s) => handle != NULL_HANDLE && s@ == (ScriptView { handle, isolate: isolate@ }),
                Err(e) => handle == NULL_HANDLE && e@ == error_message(
                    buffer_view(error),
                    COMPILE_FAILED_MESSAGE@,
                ),
            },
    {
        if handle == NULL_HANDLE {
            return Err(take_error(error, COMPILE_FAILED_MESSAGE));
        }
        Ok(Script { handle, isolate: isolate.handle })
    }

    pub fn raw_handle(&self) -> (r: Handle)
        ensures
            r == self@.handle,
    {
        self.handle
    }

    pub fn isolate_handle(&self) -> (r: Handle)
        ensures
            r == self@.isolate,
    {
        self.isolate
    }

    pub fn is_disposed(&self) -> (r: bool)
        ensures
            r == (self@.handle == NULL_HANDLE),
    {
        self.handle == NULL_HANDLE
    }

    /// The script and context handles to run with, checked locally so that
    /// no misuse reaches the native side.
    pub fn prepare_run(&self, context: &Context) -> (r: Result<(Handle, Handle), V8Error>)
        ensures
            match r {
                Ok(hs) => run_check(self@, context@) == Ok::<(Handle, Handle), Seq<char>>(hs),
                Err(e) => run_check(self@, context@) == Err::<(Handle, Handle), Seq<char>>(e@),
            },
    {
        if self.handle == NULL_HANDLE {
            return Err(V8Error::new(SCRIPT_DISPOSED_MESSAGE));
        }
        if context.handle == NULL_HANDLE {
            return Err(V8Error::new(CONTEXT_DISPOSED_MESSAGE));
        }
        if context.isolate != self.isolate {
            return Err(V8Error::new(ISOLATE_MISMATCH_MESSAGE));
        }
        Ok((self.handle, context.handle))
    }

    /// Interprets the outcome of a native run.
    pub fn finish_run(outcome: NativeOutcome) -> (r: Result<JsValue, V8Error>)
        ensures
            value_view(r) == outcome_value(outcome, RUN_FAILED_MESSAGE@),
    {
        value_outcome(outcome, RUN_FAILED_MESSAGE)
    }

    /// Marks the script disposed and returns the handle that the native
    /// side must release, if it was still live.
    pub fn dispose(&mut self) -> (r: Option<Handle>)
        ensures
            r == release_of(old(self)@.handle),
            final(self)@ == disposed_script(old(self)@),
    {
        if self.handle == NULL_HANDLE {
            return None;
        }
        let handle = self.handle;
        self.handle = NULL_HANDLE;
        Some(handle)
    }
}

/// The registry after callbacks were stored under each of the identifiers,
/// in order.
pub open spec fn registered_all<F>(registry: Map<u64, F>, ids: Seq<u64>, callbacks: Seq<F>) -> Map<
    u64,
    F,
>
    decreases ids.len(),
{
    if ids.len() == 0 || callbacks.len() == 0 {
        registry
    } else {
        registered_all(registry, ids.drop_last(), callbacks.drop_last()).insert(
            ids.last(),
            callbacks.last(),
        )
    }
}

/// Disposing twice is a no-op: the second disposal of an isolate, a context
/// or a script asks the native side to release nothing, leaves the entity as
/// the first disposal left it, and removes nothing more from the registry.
pub proof fn lemma_dispose_twice<F>(context: ContextView, script: ScriptView, registry: Map<u64, F>)
    ensures
        release_of(NULL_HANDLE) is None,
        release_of(disposed_context(context).handle) is None,
        disposed_context(disposed_context(context)) == disposed_context(context),
        registry_after_dispose(
            registry_after_dispose(registry, context.functions),
            disposed_context(context).functions,
        ) == registry_after_dispose(registry, context.functions),
        release_of(disposed_script(script).handle) is None,
        disposed_script(disposed_script(script)) == disposed_script(script),
{
    let once = registry_after_dispose(registry, context.functions);
    assert(registry_after_dispose(once, Seq::<u64>::empty()) =~= once);
}

/// A host function registered through a context is found in the registry
/// from its registration on, and is not found once the context has been
/// disposed, whatever happened to the registry in between.
pub proof fn lemma_found_until_disposed<F>(
    before: Map<u64, F>,
    id: u64,
    callback: F,
    at_disposal: Map<u64, F>,
    functions: Seq<u64>,
)
    requires
        functions.contains(id),
    ensures
        before.insert(id, callback).contains_key(id),
        before.insert(id, callback)[id] == callback,
        !registry_after_dispose(at_disposal, functions).contains_key(id),
{
}

/// Running a script against a live context of another isolate is refused
/// locally, with the mismatch error, and hands the native side nothing.
pub proof fn lemma_cross_isolate_run_refused(script: ScriptView, context: ContextView)
    requires
        script.handle != NULL_HANDLE,
        context.handle != NULL_HANDLE,
        script.isolate != context.isolate,
    ensures
        run_check(script, context) == Err::<(Handle, Handle), Seq<char>>(
            ISOLATE_MISMATCH_MESSAGE@,
        ),
{
}

/// Registering host functions through a fresh context, under identifiers
/// that the registry did not hold, and then disposing the context leaves
/// the registry exactly as it was before, of the same size.
pub proof fn lemma_dispose_restores_registry<F>(
    before: Map<u64, F>,
    ids: Seq<u64>,
    callbacks: Seq<F>,
)
    requires
        ids.len() == callbacks.len(),
        forall|i: int| 0 <= i < ids.len() ==> !before.contains_key(#[trigger] ids[i]),
    ensures
        registry_after_dispose(registered_all(before, ids, callbacks), ids) == before,
        registry_after_dispose(registered_all(before, ids, callbacks), ids).len() == before.len(),
    decreases ids.len(),
{
    if ids.len() == 0 {
        assert(registry_after_dispose(before, ids) =~= before);
    } else {
        let prefix = ids.drop_last();
        let x = ids.last();
        let inner = registered_all(before, prefix, callbacks.drop_last());
        assert forall|i: int| 0 <= i < prefix.len() implies !before.contains_key(
            #[trigger] prefix[i],
        ) by {
            assert(prefix[i] == ids[i]);
        }
        lemma_dispose_restores_registry(before, prefix, callbacks.drop_last());
        assert(ids == prefix + seq![x]);
        Seq::<u64>::lemma_to_set_insert_commutes(prefix, x);
        assert(!before.contains_key(ids[ids.len() - 1]));
        assert(registry_after_dispose(inner.insert(x, callbacks.last()), ids) =~= before);
    }
}

} // verus!
