//! The kinds of data source an asset can read from.

use vstd::prelude::*;

verus! {

/// A kind of data source.
#[derive(Debug, Clone, Copy, PartialEq, Eq)]
pub enum DataSourceTypes {
    HttpData,
}

impl DataSourceTypes {
    /// Every kind, in declaration order.
    pub fn all() -> (res: Vec<DataSourceTypes>)
        ensures
            res@ == seq![DataSourceTypes::HttpData],
    {
        let mut v = Vec::new();
        v.push(DataSourceTypes::HttpData);
        v
    }

    /// The name of the kind.
    pub fn name(&self) -> (res: String)
        ensures
            res@ == "HttpData"@,
    {
        match self {
            DataSourceTypes::HttpData => "HttpData".to_string(),
        }
    }

    /// The label shown for the kind.
    pub fn label(&self) -> (res: String)
        ensures
            res@ == "HttpData"@,
    {
        match self {
            DataSourceTypes::HttpData => "HttpData".to_string(),
        }
    }
}

/// Each kind of data source as its name and its label, in declaration order.
pub fn datasource_default() -> (res: Vec<(String, String)>)
    ensures
        res@.len() == 1,
        res@[0].0@ == "HttpData"@,
        res@[0].1@ == "HttpData"@,
{
    let kinds = DataSourceTypes::all();
    let mut out: Vec<(String, String)> = Vec::new();
    let mut i: usize = 0;
    while i < kinds.len()
        invariant
            kinds@ == seq![DataSourceTypes::HttpData],
            i <= kinds.len(),
            out@.len() == i,
            forall|k: int| 0 <= k < i ==> (#[trigger] out@[k]).0@ == "HttpData"@ && out@[k].1@ == "HttpData"@,
        decreases kinds.len() - i,
    {
        out.push((kinds[i].name(), kinds[i].label()));
        i += 1;
    }
    out
}

} // verus!
