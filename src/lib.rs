//! Embedding layer for a scripting-engine runtime reached through a C shim:
//! handle lifecycles for isolates, contexts and scripts, a registry of host
//! callbacks addressed by numeric identifiers, and the marshaling of text and
//! errors across the native boundary.
//!
//! Every step that touches the native side is split in two: a `prepare_*`
//! step checks the request locally and yields the plain values to hand over
//! (or the usage error owed instead), and a `finish_*` step turns what the
//! native side left behind into the caller's result.
pub mod callback;
pub mod error;
pub mod handles;
pub mod marshal;
pub mod registry;
pub mod value;

pub use crate::callback::{arguments_to_values, reply_for, HostReply};
pub use crate::error::V8Error;
pub use crate::handles::{
    finish_initialize, prepare_initialize, Context, Handle, Isolate, Script, NULL_HANDLE,
};
pub use crate::marshal::{take_error, take_string, text_from_native, to_native_text, NativeOutcome};
pub use crate::registry::Registry;
pub use crate::value::JsValue;
