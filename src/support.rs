use vstd::prelude::*;

use crate::error::Error;

verus! {

/// Whether reflink works between the volumes of two paths.
#[derive(Debug, Clone, Copy, PartialEq, Eq, Structural)]
pub enum ReflinkSupport {
    /// Reflink is supported.
    Supported,
    /// Reflink is not supported.
    NotSupported,
    /// Reflink support is unconfirmed.
    Unknown,
}

/// What is known of the volume that holds a path.
#[derive(Debug, Clone, Copy, PartialEq, Eq, Structural)]
pub struct VolumeInfo {
    /// The volume's serial number, which tells volumes apart.
    pub serial_number: u64,
    /// Whether the file system on the volume can share blocks between files.
    pub supports_block_cloning: bool,
}

/// Reflink works between two paths exactly when both lie on one volume
/// and that volume can share blocks between files.
pub open spec fn spec_volume_support(from: VolumeInfo, to: VolumeInfo) -> ReflinkSupport {
    if from.serial_number == to.serial_number && from.supports_block_cloning
        && to.supports_block_cloning {
        ReflinkSupport::Supported
    } else {
        ReflinkSupport::NotSupported
    }
}

/// Judges reflink support from what is known of the two paths' volumes.
pub fn volume_support(from: VolumeInfo, to: VolumeInfo) -> (r: ReflinkSupport)
    ensures
        r == spec_volume_support(from, to),
{
    if from.serial_number != to.serial_number {
        ReflinkSupport::NotSupported
    } else if from.supports_block_cloning && to.supports_block_cloning {
        ReflinkSupport::Supported
    } else {
        ReflinkSupport::NotSupported
    }
}

/// Checks whether reflink is supported between the file systems of the
/// two paths.
///
/// Only Windows lets a program ask a volume whether it can share blocks;
/// this library does not guess, so the answer is always `Unknown`.
pub fn check_reflink_support(from: &str, to: &str) -> (r: Result<ReflinkSupport, Error>)
    ensures
        r == Ok::<ReflinkSupport, Error>(ReflinkSupport::Unknown),
{
    Ok(ReflinkSupport::Unknown)
}

} // verus!
