//! What can go wrong, by operation. Each failure that the host reports keeps
//! the host's error code; the library does not read the code further.

use vstd::prelude::*;

verus! {

/// Why a session could not be opened.
#[derive(Debug, Clone, Copy, PartialEq, Eq, Structural)]
pub enum OpenError {
    /// The path names no file. Nothing was asked of the host.
    NotFound,
    /// The host could not hand out the property store.
    StoreUnavailable(i32),
}

/// Why a property name could not be resolved to a key.
#[derive(Debug, Clone, Copy, PartialEq, Eq, Structural)]
pub enum LookupError {
    /// The host knows no property of that name.
    UnknownName(i32),
}

/// Why a property could not be read or written.
#[derive(Debug, Clone, Copy, PartialEq, Eq, Structural)]
pub enum PropError {
    /// The property name resolved to no key.
    UnknownProperty(i32),
    /// The store did not hand out the property's value.
    ReadFailed(i32),
    /// The host could not build a variant buffer from the value.
    EncodeFailed(i32),
    /// The host could not bring the buffer into the form that the key asks for.
    CoercionFailed(i32),
    /// The store did not take the value.
    WriteFailed(i32),
}

/// Why staged writes could not be flushed to the file.
#[derive(Debug, Clone, Copy, PartialEq, Eq, Structural)]
pub enum CommitError {
    Failed(i32),
}

impl PropError {
    /// The error of a read or a write whose property name did not resolve.
    pub open spec fn of_lookup(error: LookupError) -> PropError {
        match error {
            LookupError::UnknownName(code) => PropError::UnknownProperty(code),
        }
    }

    /// The error of a read or a write whose property name did not resolve.
    pub fn from_lookup(error: LookupError) -> (mapped: PropError)
        ensures
            mapped == Self::of_lookup(error),
    {
        match error {
            LookupError::UnknownName(code) => PropError::UnknownProperty(code),
        }
    }
}

} // verus!
