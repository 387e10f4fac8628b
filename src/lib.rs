//! Copy-on-write file cloning ("reflink"): a new file that shares its
//! blocks on disk with its source until one of them is written.
//!
//! The library holds the decisions around the clone primitives of the
//! operating system, each with a proved contract:
//! - [`session`]: a whole-file clone that never leaves a partial or empty
//!   destination behind;
//! - [`fallback`]: a clone that falls back to a plain copy where that can
//!   help, and only there;
//! - [`block`]: requests to clone a region, split into calls that the
//!   system accepts;
//! - [`support`]: whether two volumes can share blocks;
//! - [`error`]: the errors reported, and how a failed clone is described.
//!
//! The caller performs the file-system work that each step names.

use vstd::prelude::*;

pub mod block;
pub mod error;
pub mod fallback;
pub mod session;
pub mod support;

pub use block::{BlockRange, ReflinkBlockBuilder};
pub use error::{Error, ErrorKind, OsError, Platform};
pub use support::{check_reflink_support, ReflinkSupport};

verus! {

/// The whole-file clone of a platform that has none: it always fails with
/// an error of kind `Unsupported`.
pub fn reflink_not_supported(from: &str, to: &str) -> (r: Result<(), Error>)
    ensures
        r == Err::<(), Error>(Error::Os(OsError { kind: ErrorKind::Unsupported, code: None })),
{
    Err(Error::Os(OsError::of_kind(ErrorKind::Unsupported)))
}

/// Clones `block_size` bytes of `from`, from `from_offset`, onto `to` at
/// `to_offset`. Block cloning is not implemented on this platform, so the
/// call fails; use a whole-file clone instead.
pub fn reflink_block<H>(from: &H, from_offset: u64, to: &H, to_offset: u64, block_size: u64) -> (r:
    Result<(), Error>)
    ensures
        r == Err::<(), Error>(Error::NotImplemented),
{
    Err(Error::NotImplemented)
}

} // verus!
