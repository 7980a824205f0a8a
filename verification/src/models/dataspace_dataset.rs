//! Datasets as the catalog cards show them.

use vstd::prelude::*;
use crate::models::version::Version;
use edc_connector_client_next::types::policy::Policy;
use crate::text::opt_view;

verus! {

/// The party that offers a dataset.
#[derive(Clone, Debug, Default, PartialEq)]
pub struct Creator {
    pub name: Option<String>,
    pub thumbnail: Option<Thumbnail>,
}

/// An image reference.
#[derive(Clone, Debug, Default, PartialEq)]
pub struct Thumbnail {
    pub resource: Option<String>,
}

/// The plain content of a creator.
pub struct CreatorView {
    pub name: Option<Seq<char>>,
    pub thumbnail: Option<Option<Seq<char>>>,
}

impl View for Thumbnail {
    type V = Option<Seq<char>>;

    open spec fn view(&self) -> Option<Seq<char>> {
        opt_view(self.resource)
    }
}

/// The plain content of an optional thumbnail.
pub open spec fn thumbnail_view(t: Option<Thumbnail>) -> Option<Option<Seq<char>>> {
    match t {
        Some(t) => Some(t@),
        None => None,
    }
}

impl View for Creator {
    type V = CreatorView;

    open spec fn view(&self) -> CreatorView {
        CreatorView { name: opt_view(self.name), thumbnail: thumbnail_view(self.thumbnail) }
    }
}

/// The plain content of an optional creator.
pub open spec fn creator_view(c: Option<Creator>) -> Option<CreatorView> {
    match c {
        Some(c) => Some(c@),
        None => None,
    }
}

/// A dataset of the dataspace, with the policies under which it is offered.
#[derive(Clone, Debug, PartialEq)]
pub struct DataspaceDataset {
    pub id: String,
    pub title: String,
    pub version: Option<Version>,
    pub comment: Option<String>,
    pub thumbnail: Option<Thumbnail>,
    pub creator: Option<Creator>,
    pub keywords: Vec<String>,
    pub policies: Vec<Policy>,
    pub dcterm_types: Vec<String>,
}

} // verus!
