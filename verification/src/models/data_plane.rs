//! Data planes registered at the connector.

use vstd::prelude::*;
use crate::text::views;

verus! {

/// The state of a data plane instance.
#[derive(Debug, Clone, PartialEq)]
pub enum DataPlaneState {
    Available,
    Registered,
    Unavailable,
    Unregistered,
    Other(String),
}

/// The text shown for a data plane state.
pub open spec fn state_label(state: DataPlaneState) -> Seq<char> {
    match state {
        DataPlaneState::Available => "Available"@,
        DataPlaneState::Registered => "Registered"@,
        DataPlaneState::Unavailable => "Unavailable"@,
        DataPlaneState::Unregistered => "Unregistered"@,
        DataPlaneState::Other(s) => s@,
    }
}

impl DataPlaneState {
    /// The text shown for the state.
    pub fn label(&self) -> (res: String)
        ensures
            res@ == state_label(*self),
    {
        match self {
            DataPlaneState::Available => "Available".to_string(),
            DataPlaneState::Registered => "Registered".to_string(),
            DataPlaneState::Unavailable => "Unavailable".to_string(),
            DataPlaneState::Unregistered => "Unregistered".to_string(),
            DataPlaneState::Other(s) => s.clone(),
        }
    }
}

/// A data plane: where it is, which transfers it serves, and its state.
#[derive(Debug, Clone, PartialEq)]
pub struct DataPlane {
    pub id: String,
    pub url: String,
    pub allowed_source_types: Vec<String>,
    pub allowed_dest_types: Vec<String>,
    pub allowed_transfer_types: Vec<String>,
    pub state: DataPlaneState,
}

/// The source types of all data planes, plane after plane.
pub open spec fn all_source_types(planes: Seq<DataPlane>) -> Seq<Seq<char>>
    decreases planes.len(),
{
    if planes.len() == 0 {
        Seq::empty()
    } else {
        all_source_types(planes.drop_last()) + views(planes.last().allowed_source_types@)
    }
}

/// The source types of all data planes, plane after plane, as the data source selector
/// offers them.
pub fn source_types(planes: &Vec<DataPlane>) -> (res: Vec<String>)
    ensures
        views(res@) == all_source_types(planes@),
{
    let mut out: Vec<String> = Vec::new();
    let mut i: usize = 0;
    while i < planes.len()
        invariant
            i <= planes.len(),
            views(out@) == all_source_types(planes@.take(i as int)),
        decreases planes.len() - i,
    {
        let types = &planes[i].allowed_source_types;
        let ghost before = out@;
        let mut j: usize = 0;
        while j < types.len()
            invariant
                j <= types.len(),
                types == &planes@[i as int].allowed_source_types,
                views(out@) == views(before) + views(types@).take(j as int),
            decreases types.len() - j,
        {
            let ghost mid = out@;
            out.push(types[j].clone());
            assert(views(out@) =~= views(mid).push(types@[j as int]@));
            assert(views(types@).take(j + 1) =~= views(types@).take(j as int).push(types@[j as int]@));
            j += 1;
        }
        assert(views(types@).take(types.len() as int) =~= views(types@));
        assert(planes@.take(i + 1).drop_last() =~= planes@.take(i as int));
        i += 1;
    }
    assert(planes@.take(planes.len() as int) =~= planes@);
    out
}

} // verus!
