//! Property keys, and the resolution of a property name to its key.

use crate::error::LookupError;
use crate::host::{CallView, HostCall, HostReply, ReplyView};
use crate::wide::{encode_utf16, to_wide};
use vstd::prelude::*;

verus! {

/// The host's identifier of a property: a format identifier and a number
/// within it. The library passes keys on and never looks into them.
#[derive(Debug, Clone, Copy, PartialEq, Eq, Structural)]
pub struct PropertyKey {
    pub fmtid: u128,
    pub pid: u32,
}

/// What an answer to a resolution means: the key, the failure, or nothing
/// where the answer is none that a resolution can have.
pub open spec fn resolution(reply: ReplyView) -> Option<Result<PropertyKey, LookupError>> {
    match reply {
        ReplyView::Key(key) => Some(Ok(key)),
        ReplyView::Failed(code) => Some(Err(LookupError::UnknownName(code))),
        _ => None,
    }
}

/// The call that resolves `name`: the name goes to the host as UTF-16.
pub fn lookup(name: &str) -> (call: HostCall)
    ensures
        call@ == (CallView::ResolveKey { name: encode_utf16(name@) }),
{
    HostCall::ResolveKey { name: to_wide(name) }
}

/// Reads the host's answer to a resolution. Nothing is cached: the same name
/// may be resolved again and again.
pub fn resolve(reply: &HostReply) -> (resolved: Option<Result<PropertyKey, LookupError>>)
    ensures
        resolved == resolution(reply@),
{
    match reply {
        HostReply::Key(key) => Some(Ok(*key)),
        HostReply::Failed(code) => Some(Err(LookupError::UnknownName(*code))),
        _ => None,
    }
}

} // verus!
