//! The descriptive fields of a dataset in a connector's catalog.

use vstd::prelude::*;
use crate::catalog::{catalog_asset, CatalogCreator, CatalogDataset, CatalogDatasetView, CatalogThumbnail};
use crate::models::asset_item::AssetItem;
use crate::text::{clone_opt_string, clone_strings, opt_view, views};

verus! {

/// The descriptive fields of a catalog dataset.
#[derive(Debug, Clone)]
pub struct DatasetExtraFields {
    pub name: String,
    pub content_type: String,
    pub title: Option<String>,
    pub description: Option<String>,
    pub version: Option<String>,
    pub creator: Option<CatalogCreator>,
    pub thumbnail: Option<CatalogThumbnail>,
    pub keywords: Vec<String>,
    pub dcterm_types: Vec<String>,
}

/// The catalog dataset with id `id` that the fields describe.
pub open spec fn described_dataset(id: Seq<char>, extra: DatasetExtraFields) -> CatalogDatasetView {
    CatalogDatasetView {
        id,
        name: extra.name@,
        version: opt_view(extra.version),
        description: opt_view(extra.description),
        creator: match extra.creator {
            Some(c) => Some((c.name@, c.thumbnail.resource@)),
            None => None,
        },
        thumbnail: match extra.thumbnail {
            Some(t) => Some(t.resource@),
            None => None,
        },
        keywords: views(extra.keywords@),
        dcterm_types: views(extra.dcterm_types@),
    }
}

impl AssetItem {
    /// The asset that the catalog dataset with id `id` and fields `extra` describes.
    pub fn from_dataset_fields(id: &str, extra: &DatasetExtraFields) -> (res: AssetItem)
        ensures
            res@ == catalog_asset(described_dataset(id@, *extra)),
    {
        let creator = match &extra.creator {
            Some(c) => Some(CatalogCreator {
                name: c.name.clone(),
                thumbnail: CatalogThumbnail { resource: c.thumbnail.resource.clone() },
            }),
            None => None,
        };
        let thumbnail = match &extra.thumbnail {
            Some(t) => Some(CatalogThumbnail { resource: t.resource.clone() }),
            None => None,
        };
        let dataset = CatalogDataset {
            id: id.to_string(),
            name: extra.name.clone(),
            version: clone_opt_string(&extra.version),
            description: clone_opt_string(&extra.description),
            creator,
            thumbnail,
            keywords: clone_strings(&extra.keywords),
            dcterm_types: clone_strings(&extra.dcterm_types),
        };
        assert(dataset@ == described_dataset(id@, *extra));
        AssetItem::from_catalog_dataset(&dataset)
    }
}

} // verus!
