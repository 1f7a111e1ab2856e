//! What the manufacturer-specific clusters have in common: identifiers, and the errors an
//! attribute access ends in.

use vstd::prelude::*;

verus! {

/// The vendor whose namespace the semantic tags and the manufacturer-specific clusters
/// belong to: the CSA test vendor, which is the one the device's attestation is issued
/// for.
pub const VENDOR_ID: u16 = 0xFFF1;

/// The cluster that carries the exact element rating: [`VENDOR_ID`] in the top sixteen
/// bits, and a suffix from the range reserved for a vendor's own clusters.
pub const ELEMENT_WATTS_CLUSTER_ID: u32 = 0xFFF1_FC01;

/// The element's rating in watts, writable.
pub const ATTR_ELEMENT_WATTS: u32 = 0x0000;

/// The cluster that carries why the board last reset.
pub const BOOT_DIAG_CLUSTER_ID: u32 = 0xFFF1_FC02;

/// The boot reason.
pub const ATTR_BOOT_REASON: u32 = 0x0000;

/// The raw reset-reason code.
pub const ATTR_RESET_CAUSE: u32 = 0x0001;

/// Why an attribute access is refused.
#[derive(Clone, Copy, Debug, PartialEq, Eq, Structural)]
pub enum AttrError {
    /// The cluster has no such attribute.
    AttributeNotFound,
    /// The value is outside what the attribute takes.
    ConstraintError,
    /// The attribute cannot be written.
    InvalidAction,
    /// The payload of a write is not a value of the attribute's type.
    InvalidDataType,
}

/// Where a change is reported: an attribute of a cluster on an endpoint.
#[derive(Clone, Copy, Debug, PartialEq, Eq, Structural)]
pub struct AttrPath {
    /// The endpoint.
    pub endpoint: u16,
    /// The cluster.
    pub cluster: u32,
    /// The attribute.
    pub attr: u32,
}

/// Whether an operation on `cluster`, or on every cluster if there is none, concerns the
/// cluster `own`.
pub fn concerns(cluster: Option<u32>, own: u32) -> (concerned: bool)
    ensures
        concerned == (cluster is None || cluster == Some(own)),
{
    match cluster {
        Some(id) => id == own,
        None => true,
    }
}

/// The manufacturer-specific cluster identifiers are the vendor's own and distinct.
pub proof fn law_cluster_ids_are_the_vendors()
    ensures
        ELEMENT_WATTS_CLUSTER_ID / 0x1_0000 == VENDOR_ID,
        BOOT_DIAG_CLUSTER_ID / 0x1_0000 == VENDOR_ID,
        0xFC00 <= ELEMENT_WATTS_CLUSTER_ID % 0x1_0000 <= 0xFFFE,
        0xFC00 <= BOOT_DIAG_CLUSTER_ID % 0x1_0000 <= 0xFFFE,
        ELEMENT_WATTS_CLUSTER_ID != BOOT_DIAG_CLUSTER_ID,
{
}

} // verus!
