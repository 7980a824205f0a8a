//! The federated catalog: its offers, the assets they hold, and which of them a search keeps.

use vstd::prelude::*;
use crate::models::asset_item::{spec_is_filtered, version_from, AssetItem, AssetItemView};
use crate::models::dataspace_dataset::{Creator, CreatorView, Thumbnail};
use crate::models::version::parse_version;
use crate::text::{clone_opt_string, clone_strings, opt_view, views};

verus! {

/// An image of a catalog entry.
#[derive(Clone, Debug, PartialEq)]
pub struct CatalogThumbnail {
    pub resource: String,
}

/// The creator of a catalog entry.
#[derive(Clone, Debug, PartialEq)]
pub struct CatalogCreator {
    pub name: String,
    pub thumbnail: CatalogThumbnail,
}

/// A dataset of a catalog offer.
#[derive(Clone, Debug, PartialEq)]
pub struct CatalogDataset {
    pub id: String,
    pub name: String,
    pub version: Option<String>,
    pub description: Option<String>,
    pub creator: Option<CatalogCreator>,
    pub thumbnail: Option<CatalogThumbnail>,
    pub keywords: Vec<String>,
    pub dcterm_types: Vec<String>,
}

/// An offer of the federated catalog: who offers, through which connector, and what.
#[derive(Clone, Debug, PartialEq)]
pub struct CatalogOffer {
    pub originator: String,
    pub participant_id: String,
    pub datasets: Vec<CatalogDataset>,
}

/// The dataset of an offer that a user picked to negotiate.
#[derive(Clone, Debug, PartialEq)]
pub struct SelectedFederatedCatalogOffer {
    pub originator: String,
    pub provider_id: String,
    pub dataset_id: String,
}

/// The plain content of a catalog dataset; the creator as its name and its image.
pub struct CatalogDatasetView {
    pub id: Seq<char>,
    pub name: Seq<char>,
    pub version: Option<Seq<char>>,
    pub description: Option<Seq<char>>,
    pub creator: Option<(Seq<char>, Seq<char>)>,
    pub thumbnail: Option<Seq<char>>,
    pub keywords: Seq<Seq<char>>,
    pub dcterm_types: Seq<Seq<char>>,
}

impl View for CatalogDataset {
    type V = CatalogDatasetView;

    open spec fn view(&self) -> CatalogDatasetView {
        CatalogDatasetView {
            id: self.id@,
            name: self.name@,
            version: opt_view(self.version),
            description: opt_view(self.description),
            creator: match self.creator {
                Some(c) => Some((c.name@, c.thumbnail.resource@)),
                None => None,
            },
            thumbnail: match self.thumbnail {
                Some(t) => Some(t.resource@),
                None => None,
            },
            keywords: views(self.keywords@),
            dcterm_types: views(self.dcterm_types@),
        }
    }
}

/// The plain content of a picked offer: originator, provider and dataset.
pub type SelectedOfferView = (Seq<char>, Seq<char>, Seq<char>);

impl View for SelectedFederatedCatalogOffer {
    type V = SelectedOfferView;

    open spec fn view(&self) -> SelectedOfferView {
        (self.originator@, self.provider_id@, self.dataset_id@)
    }
}

/// The asset that a catalog dataset describes: its descriptive fields, and no endpoint.
pub open spec fn catalog_asset(d: CatalogDatasetView) -> AssetItemView {
    AssetItemView {
        id: d.id,
        name: d.name,
        version: version_from(d.version),
        description: d.description,
        creator: match d.creator {
            Some((name, image)) => Some(CreatorView { name: Some(name), thumbnail: Some(Some(image)) }),
            None => None,
        },
        thumbnail: match d.thumbnail {
            Some(image) => Some(Some(image)),
            None => None,
        },
        keywords: d.keywords,
        dcterm_types: d.dcterm_types,
        base_url: Seq::empty(),
        proxy_path: false,
        proxy_query_params: false,
        proxy_method: false,
        proxy_body: false,
        oauth2_client_id: Seq::empty(),
        oauth2_client_secret_key: Seq::empty(),
        oauth2_token_url: Seq::empty(),
        oauth2_scope: Seq::empty(),
    }
}

fn thumbnail_of(t: &CatalogThumbnail) -> (res: Thumbnail)
    ensures
        res@ == Some(t.resource@),
{
    Thumbnail { resource: Some(t.resource.clone()) }
}

impl AssetItem {
    /// The asset that a catalog dataset describes.
    pub fn from_catalog_dataset(dataset: &CatalogDataset) -> (res: AssetItem)
        ensures
            res@ == catalog_asset(dataset@),
    {
        let version = match &dataset.version {
            Some(v) => parse_version(v.as_str()),
            None => None,
        };
        let creator = match &dataset.creator {
            Some(c) => Some(Creator { name: Some(c.name.clone()), thumbnail: Some(thumbnail_of(&c.thumbnail)) }),
            None => None,
        };
        let thumbnail = match &dataset.thumbnail {
            Some(t) => Some(thumbnail_of(t)),
            None => None,
        };
        let res = AssetItem {
            id: dataset.id.clone(),
            name: dataset.name.clone(),
            version,
            description: clone_opt_string(&dataset.description),
            creator,
            thumbnail,
            keywords: clone_strings(&dataset.keywords),
            dcterm_types: clone_strings(&dataset.dcterm_types),
            base_url: String::new(),
            proxy_path: false,
            proxy_query_params: false,
            proxy_method: false,
            proxy_body: false,
            oauth2_client_id: String::new(),
            oauth2_client_secret_key: String::new(),
            oauth2_token_url: String::new(),
            oauth2_scope: String::new(),
        };
        assert(res@.creator == catalog_asset(dataset@).creator);
        assert(res@.version == catalog_asset(dataset@).version);
        res
    }
}


/// The plain content of a catalog offer: originator, participant and datasets.
pub struct CatalogOfferView {
    pub originator: Seq<char>,
    pub participant_id: Seq<char>,
    pub datasets: Seq<CatalogDatasetView>,
}

impl View for CatalogOffer {
    type V = CatalogOfferView;

    open spec fn view(&self) -> CatalogOfferView {
        CatalogOfferView {
            originator: self.originator@,
            participant_id: self.participant_id@,
            datasets: self.datasets@.map_values(|d: CatalogDataset| d@),
        }
    }
}

/// An asset of the catalog together with the offer it comes from.
pub type CatalogEntryView = (AssetItemView, SelectedOfferView);

/// The entries of one offer: one per dataset, in order.
pub open spec fn offer_entries(o: CatalogOfferView) -> Seq<CatalogEntryView> {
    o.datasets.map_values(|d: CatalogDatasetView| (catalog_asset(d), (o.originator, o.participant_id, d.id)))
}

/// The entries of all offers, offer after offer.
pub open spec fn catalog_entries(offers: Seq<CatalogOfferView>) -> Seq<CatalogEntryView>
    decreases offers.len(),
{
    if offers.len() == 0 {
        Seq::empty()
    } else {
        catalog_entries(offers.drop_last()) + offer_entries(offers.last())
    }
}

/// The plain content of a list of entries.
pub open spec fn entry_views(v: Seq<(AssetItem, SelectedFederatedCatalogOffer)>) -> Seq<CatalogEntryView> {
    v.map_values(|e: (AssetItem, SelectedFederatedCatalogOffer)| (e.0@, e.1@))
}

/// The plain content of a list of offers.
pub open spec fn offer_views(v: Seq<CatalogOffer>) -> Seq<CatalogOfferView> {
    v.map_values(|o: CatalogOffer| o@)
}

/// Every dataset of every offer, as an asset paired with the offer it comes from.
pub fn catalog_assets(offers: &Vec<CatalogOffer>) -> (res: Vec<(AssetItem, SelectedFederatedCatalogOffer)>)
    ensures
        entry_views(res@) == catalog_entries(offer_views(offers@)),
{
    let mut out: Vec<(AssetItem, SelectedFederatedCatalogOffer)> = Vec::new();
    let mut i: usize = 0;
    while i < offers.len()
        invariant
            i <= offers.len(),
            entry_views(out@) == catalog_entries(offer_views(offers@).take(i as int)),
        decreases offers.len() - i,
    {
        let offer = &offers[i];
        let ghost before = out@;
        let ghost ov = offer@;
        let mut j: usize = 0;
        while j < offer.datasets.len()
            invariant
                j <= offer.datasets.len(),
                ov == offer@,
                entry_views(out@) == entry_views(before) + offer_entries(ov).take(j as int),
            decreases offer.datasets.len() - j,
        {
            let dataset = &offer.datasets[j];
            let asset = AssetItem::from_catalog_dataset(dataset);
            let selected = SelectedFederatedCatalogOffer {
                originator: offer.originator.clone(),
                provider_id: offer.participant_id.clone(),
                dataset_id: dataset.id.clone(),
            };
            let ghost mid = out@;
            out.push((asset, selected));
            assert(offer_entries(ov).take(j + 1) =~= offer_entries(ov).take(j as int).push(offer_entries(ov)[j as int]));
            assert(entry_views(out@) =~= entry_views(mid).push((asset@, selected@)));
            j += 1;
        }
        assert(offer_entries(ov).take(offer.datasets.len() as int) =~= offer_entries(ov));
        assert(offer_views(offers@).take(i + 1).drop_last() =~= offer_views(offers@).take(i as int));
        i += 1;
    }
    assert(offer_views(offers@).take(offers.len() as int) =~= offer_views(offers@));
    out
}

/// The entries, among `entries`, whose asset the search and type selection keep.
pub open spec fn kept_entries(entries: Seq<CatalogEntryView>, search: Option<Seq<char>>, types: Seq<Seq<char>>) -> Seq<CatalogEntryView> {
    entries.filter(|e: CatalogEntryView| spec_is_filtered(e.0, search, types))
}

/// The entries whose asset the search text `search` and the type selection `dcterm_types`
/// keep, in their order.
pub fn keep_filtered(
    entries: Vec<(AssetItem, SelectedFederatedCatalogOffer)>,
    search: &Option<String>,
    dcterm_types: &[String],
) -> (res: Vec<(AssetItem, SelectedFederatedCatalogOffer)>)
    ensures
        entry_views(res@) == kept_entries(entry_views(entries@), opt_view(*search), views(dcterm_types@)),
{
    let ghost all = entry_views(entries@);
    let n = entries.len();
    assert(all.len() == n);
    let mut out: Vec<(AssetItem, SelectedFederatedCatalogOffer)> = Vec::new();
    let mut rest = entries;
    let mut taken: usize = 0;
    // Turn the list around, so that popping yields the entries from the front.
    let mut reversed: Vec<(AssetItem, SelectedFederatedCatalogOffer)> = Vec::new();
    assert(entry_views(reversed@.reverse()) =~= Seq::<CatalogEntryView>::empty());
    assert(entry_views(rest@) + Seq::<CatalogEntryView>::empty() =~= all);
    while rest.len() > 0
        invariant
            entry_views(rest@) + entry_views(reversed@.reverse()) == all,
            all.len() <= usize::MAX,
        decreases rest.len(),
    {
        let ghost r0 = reversed@;
        let ghost s0 = rest@;
        let e = rest.pop().unwrap();
        reversed.push(e);
        assert(reversed@.reverse() =~= seq![e].add(r0.reverse()));
        assert(s0 =~= rest@.push(e));
        assert(entry_views(s0) =~= entry_views(rest@).push((e.0@, e.1@)));
        assert(entry_views(reversed@.reverse()) =~= seq![(e.0@, e.1@)] + entry_views(r0.reverse()));
        assert(entry_views(rest@) + entry_views(reversed@.reverse()) =~= entry_views(s0) + entry_views(r0.reverse()));
    }
    assert(entry_views(rest@) =~= Seq::<CatalogEntryView>::empty());
    assert(entry_views(reversed@.reverse()) =~= all);
    assert(all.skip(0) =~= all);
    assert(all.take(0) =~= Seq::<CatalogEntryView>::empty());
    proof {
        reveal(Seq::filter);
    }
    while reversed.len() > 0
        invariant
            entry_views(out@) == kept_entries(all.take(taken as int), opt_view(*search), views(dcterm_types@)),
            taken as int + reversed@.len() == all.len(),
            all.len() <= usize::MAX,
            entry_views(reversed@.reverse()) == all.skip(taken as int),
        decreases reversed.len(),
    {
        let ghost r0 = reversed@;
        let e = reversed.pop().unwrap();
        assert(r0 =~= reversed@.push(e));
        assert(r0.reverse() =~= seq![e] + reversed@.reverse());
        assert(entry_views(r0.reverse()) =~= seq![(e.0@, e.1@)] + entry_views(reversed@.reverse()));
        assert(all.skip(taken as int)[0] == all[taken as int]);
        assert(all[taken as int] == (e.0@, e.1@));
        assert(all.skip(taken + 1) =~= all.skip(taken as int).skip(1));
        assert(all.take(taken + 1).drop_last() =~= all.take(taken as int));
        assert(all.take(taken + 1).last() == (e.0@, e.1@));
        reveal(Seq::filter);
        let keep = e.0.is_filtered(search, dcterm_types);
        let ghost o0 = out@;
        let ghost t1 = all.take(taken + 1);
        assert(t1.len() > 0);
        assert(kept_entries(t1, opt_view(*search), views(dcterm_types@)) == if keep {
            kept_entries(t1.drop_last(), opt_view(*search), views(dcterm_types@)).push(t1.last())
        } else {
            kept_entries(t1.drop_last(), opt_view(*search), views(dcterm_types@))
        });
        if keep {
            out.push(e);
            assert(entry_views(out@) =~= entry_views(o0).push((e.0@, e.1@)));
        }
        taken += 1;
    }
    assert(all.take(all.len() as int) =~= all);
    out
}


/// The assets of all offers, each with the offer it comes from, that the search text
/// `search` and the type selection `dcterm_types` keep, in catalog order.
pub fn filtered_catalog_assets(
    offers: &Vec<CatalogOffer>,
    search: &Option<String>,
    dcterm_types: &[String],
) -> (res: Vec<(AssetItem, SelectedFederatedCatalogOffer)>)
    ensures
        entry_views(res@) == kept_entries(catalog_entries(offer_views(offers@)), opt_view(*search), views(dcterm_types@)),
{
    keep_filtered(catalog_assets(offers), search, dcterm_types)
}

} // verus!
