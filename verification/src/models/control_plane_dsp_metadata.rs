//! The protocol versions a connector's control plane announces.

use vstd::prelude::*;

verus! {

/// The dataspace protocol metadata of a control plane.
#[derive(Debug)]
pub struct ControlPlaneDspMetadata {
    pub protocol_versions: Vec<ProtocolVersion>,
}

/// A version of the dataspace protocol and where it is served.
#[derive(Debug)]
pub struct ProtocolVersion {
    pub version: String,
    pub path: String,
    pub binding: String,
}

} // verus!
