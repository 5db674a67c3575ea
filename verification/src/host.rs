//! The host calls that a session asks for, and the answers it takes.
//!
//! The library decides which call comes next; a driver performs it and hands
//! back the answer. Handles and variant buffers stay with the driver: a call
//! names no handle, and works on the one store, the one binding context and
//! the one buffer that belong to the session or exchange that asked.

use crate::key::PropertyKey;
use crate::variant::{PropVariant, VariantView};
use vstd::prelude::*;

verus! {

/// The flags under which a property store is opened, as the host's bits.
#[derive(Debug, Clone, Copy, PartialEq, Eq, Structural)]
pub struct StoreFlags {
    pub bits: i32,
}

/// The read-write flag of the windows crate, `GPS_READWRITE`, as its bits.
/// The crate defines it as 2.
#[verifier::external_body]
fn read_write_bits() -> (bits: i32)
    ensures
        bits == 2,
{
    windows::Win32::UI::Shell::PropertiesSystem::GPS_READWRITE.0
}

/// The apartment-threaded mode of the windows crate,
/// `COINIT_APARTMENTTHREADED`, as its bits. The crate defines it as 2.
#[verifier::external_body]
fn apartment_threaded_bits() -> (bits: i32)
    ensures
        bits == 2,
{
    windows::Win32::System::Com::COINIT_APARTMENTTHREADED.0
}

impl StoreFlags {
    /// The flags of a store that is opened for reading and writing.
    pub open spec fn spec_read_write() -> StoreFlags {
        StoreFlags { bits: 2 }
    }

    /// The flags of a store that is opened for reading and writing: the
    /// default of a session.
    #[verifier::when_used_as_spec(spec_read_write)]
    pub fn read_write() -> (flags: StoreFlags)
        ensures
            flags == Self::spec_read_write(),
    {
        StoreFlags { bits: read_write_bits() }
    }
}

/// The threading mode that a session enters: one apartment for this thread.
pub open spec fn spec_apartment_threaded() -> i32 {
    2
}

/// The threading mode that a session enters: one apartment for this thread.
#[verifier::when_used_as_spec(spec_apartment_threaded)]
pub fn apartment_threaded() -> (mode: i32)
    ensures
        mode == spec_apartment_threaded(),
{
    apartment_threaded_bits()
}

/// One call into the host. Strings are UTF-16 units without a terminator.
#[derive(Debug, Clone, PartialEq, Eq)]
pub enum HostCall {
    /// Enter the threading environment on this thread, in `mode`.
    EnterEnvironment { mode: i32 },
    /// Create the binding context.
    CreateContext,
    /// Ask for the property store of the file at `path`, bound to the context.
    OpenStore { path: Vec<u16>, flags: StoreFlags },
    /// Release what is bound to the context, the store among it, and the
    /// context.
    ReleaseBoundObjects,
    /// Leave the threading environment.
    ExitEnvironment,
    /// Resolve a property name to its key.
    ResolveKey { name: Vec<u16> },
    /// Read the value under `key` from the store into the buffer.
    ReadValue { key: PropertyKey },
    /// Copy the buffer's string out, or `default_text` where it holds none.
    ConvertText { default_text: Vec<u16> },
    /// Convert the buffer to a number, or `default_number` where it holds none.
    ConvertNumber { default_number: u32 },
    /// Copy the buffer's strings out, freeing what the host allocated for the
    /// copy.
    ConvertTextVector,
    /// Clear the buffer, freeing what the host allocated for it.
    ClearBuffer,
    /// Build the buffer from `value`: one string through the host's
    /// constructor that reads a string as a vector, a vector of strings
    /// through its constructor for string vectors.
    BuildValue { value: PropVariant },
    /// Bring the buffer into the canonical form of `key`.
    CoerceValue { key: PropertyKey },
    /// Hand the buffer to the store as the value under `key`. The buffer is
    /// the store's from then on.
    WriteValue { key: PropertyKey },
}

/// The mathematical content of a `HostCall`.
pub ghost enum CallView {
    EnterEnvironment { mode: i32 },
    CreateContext,
    OpenStore { path: Seq<u16>, flags: StoreFlags },
    ReleaseBoundObjects,
    ExitEnvironment,
    ResolveKey { name: Seq<u16> },
    ReadValue { key: PropertyKey },
    ConvertText { default_text: Seq<u16> },
    ConvertNumber { default_number: u32 },
    ConvertTextVector,
    ClearBuffer,
    BuildValue { value: VariantView },
    CoerceValue { key: PropertyKey },
    WriteValue { key: PropertyKey },
}

impl View for HostCall {
    type V = CallView;

    open spec fn view(&self) -> CallView {
        match *self {
            HostCall::EnterEnvironment { mode } => CallView::EnterEnvironment { mode },
            HostCall::CreateContext => CallView::CreateContext,
            HostCall::OpenStore { path, flags } => CallView::OpenStore { path: path@, flags },
            HostCall::ReleaseBoundObjects => CallView::ReleaseBoundObjects,
            HostCall::ExitEnvironment => CallView::ExitEnvironment,
            HostCall::ResolveKey { name } => CallView::ResolveKey { name: name@ },
            HostCall::ReadValue { key } => CallView::ReadValue { key },
            HostCall::ConvertText { default_text } => CallView::ConvertText {
                default_text: default_text@,
            },
            HostCall::ConvertNumber { default_number } => CallView::ConvertNumber { default_number },
            HostCall::ConvertTextVector => CallView::ConvertTextVector,
            HostCall::ClearBuffer => CallView::ClearBuffer,
            HostCall::BuildValue { value } => CallView::BuildValue { value: value@ },
            HostCall::CoerceValue { key } => CallView::CoerceValue { key },
            HostCall::WriteValue { key } => CallView::WriteValue { key },
        }
    }
}

/// The host's answer to one call.
#[derive(Debug, Clone, PartialEq, Eq)]
pub enum HostReply {
    /// The call succeeded and hands nothing back.
    Done,
    /// The call failed, with the host's error code.
    Failed(i32),
    /// The key that a name resolved to.
    Key(PropertyKey),
    /// What a conversion read from the buffer.
    Value(PropVariant),
}

/// The mathematical content of a `HostReply`.
pub ghost enum ReplyView {
    Done,
    Failed(i32),
    Key(PropertyKey),
    Value(VariantView),
}

impl View for HostReply {
    type V = ReplyView;

    open spec fn view(&self) -> ReplyView {
        match *self {
            HostReply::Done => ReplyView::Done,
            HostReply::Failed(code) => ReplyView::Failed(code),
            HostReply::Key(key) => ReplyView::Key(key),
            HostReply::Value(value) => ReplyView::Value(value@),
        }
    }
}

/// Whether `reply` is an answer that `call` can have. A resolution answers
/// with a key, a conversion with a value, every other call with `Done`; each
/// can fail.
pub open spec fn answers(call: CallView, reply: ReplyView) -> bool {
    match call {
        CallView::ResolveKey { .. } => reply is Key || reply is Failed,
        CallView::ConvertText { .. } | CallView::ConvertNumber { .. } | CallView::ConvertTextVector => {
            reply is Value || reply is Failed
        },
        _ => reply is Done || reply is Failed,
    }
}

/// What of the host's is held at one moment.
pub ghost struct Holdings {
    /// The thread has entered the threading environment.
    pub environment: bool,
    /// The binding context exists.
    pub context: bool,
    /// The property store is open.
    pub store: bool,
    /// The variant buffer holds a value that the host allocated.
    pub buffer: bool,
}

/// Nothing is held.
pub open spec fn nothing() -> Holdings {
    Holdings { environment: false, context: false, store: false, buffer: false }
}

/// What a call acquires where it succeeds.
pub open spec fn acquires(call: CallView) -> Holdings {
    Holdings {
        environment: call is EnterEnvironment,
        context: call is CreateContext,
        store: call is OpenStore,
        buffer: call is ReadValue || call is BuildValue,
    }
}

/// What a call gives up, whether it succeeds or fails.
pub open spec fn releases(call: CallView) -> Holdings {
    Holdings {
        environment: call is ExitEnvironment,
        context: call is ReleaseBoundObjects,
        store: call is ReleaseBoundObjects,
        buffer: call is ClearBuffer || call is WriteValue,
    }
}

/// What is held after `call` was answered by `reply`, where `held` was held
/// before. An answer that is none of the call's changes nothing.
pub open spec fn settle(held: Holdings, call: CallView, reply: ReplyView) -> Holdings {
    if !answers(call, reply) {
        held
    } else {
        let got = if reply is Failed {
            nothing()
        } else {
            acquires(call)
        };
        let lost = releases(call);
        Holdings {
            environment: (held.environment || got.environment) && !lost.environment,
            context: (held.context || got.context) && !lost.context,
            store: (held.store || got.store) && !lost.store,
            buffer: (held.buffer || got.buffer) && !lost.buffer,
        }
    }
}

} // verus!
