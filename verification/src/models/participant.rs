//! Participants of the dataspace, known by their DID.

use vstd::prelude::*;

verus! {

/// A participant: its DID, its display name and an optional logo URL.
#[derive(Clone, Debug, PartialEq)]
pub struct Participant {
    pub did: String,
    pub name: String,
    pub logo: Option<String>,
}

} // verus!
