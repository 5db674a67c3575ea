//! Typed access to a file's metadata properties: the conversions between the
//! host's wide-string property values and Rust values, and the order of host
//! calls that opens, reads, writes and closes a property store.
//!
//! The library performs no host call itself. It says which call comes next and
//! what each answer means; a driver outside performs the calls.

pub mod error;
pub mod exchange;
pub mod host;
pub mod key;
pub mod session;
pub mod variant;
pub mod wide;

pub use error::{CommitError, LookupError, OpenError, PropError};
pub use exchange::{ReadStep, Reading, WriteStep, Writing};
pub use host::{HostCall, HostReply, StoreFlags};
pub use key::PropertyKey;
pub use session::{CloseStep, Closing, FileProperties, OpenStep, Opening};
pub use variant::{FromPropVariant, PropVariant, PropVector, Shape, ToPropVariant};
