//! How participants, assets, policies and datasets are named and pictured in the views.

use vstd::prelude::*;
use crate::contexts::{DidResolverState, MyDidProviderState, first_with_did};
use crate::models::asset_item::AssetItem;
use crate::models::dataspace_dataset::DataspaceDataset;
use crate::models::policy_definition::PolicyDefinitionItem;
use crate::models::version::version_text;
use crate::text::{opt_view, str_eq};

verus! {

/// How a DID is shown: a label, the participant's logo, and whether it is the user's own.
#[derive(Clone, Debug)]
pub struct DidLabel {
    pub label: String,
    pub logo: Option<String>,
    pub is_mine: bool,
}

/// The participant that the directory, when there is one, knows under `did`.
pub open spec fn known_participant(resolver: Option<DidResolverState>, did: Seq<char>) -> Option<crate::models::participant::Participant> {
    match resolver {
        Some(r) => first_with_did(r.participants(), did),
        None => None,
    }
}

/// The label of a DID: the known participant's name, or the DID itself.
pub open spec fn did_label_text(resolver: Option<DidResolverState>, did: Seq<char>) -> Seq<char> {
    match known_participant(resolver, did) {
        Some(p) => p.name@,
        None => did,
    }
}

/// The logo shown beside a DID: the known participant's logo, if it has one.
pub open spec fn did_logo(resolver: Option<DidResolverState>, did: Seq<char>) -> Option<Seq<char>> {
    match known_participant(resolver, did) {
        Some(p) => opt_view(p.logo),
        None => None,
    }
}

/// Whether `did` is the user's own DID.
pub open spec fn is_own_did(mine: Option<MyDidProviderState>, did: Seq<char>) -> bool {
    match mine {
        Some(m) => m.spec_my_did() == did,
        None => false,
    }
}

/// How `did` is shown, given the participant directory and the user's own DID, when known.
pub fn did_label(did: &String, resolver: &Option<DidResolverState>, mine: &Option<MyDidProviderState>) -> (res: DidLabel)
    ensures
        res.label@ == did_label_text(*resolver, did@),
        opt_view(res.logo) == did_logo(*resolver, did@),
        res.is_mine == is_own_did(*mine, did@),
{
    let (label, logo) = match resolver {
        Some(r) => match r.participant(did.as_str()) {
            Some(p) => (p.name.clone(), crate::text::clone_opt_string(&p.logo)),
            None => (did.clone(), None),
        },
        None => (did.clone(), None),
    };
    let is_mine = match mine {
        Some(m) => str_eq(m.my_did(), did.as_str()),
        None => false,
    };
    DidLabel { label, logo, is_mine }
}

/// The style of a logo: its height, its width (`auto` when none is given), scaled to fit.
pub open spec fn logo_style_text(height: Seq<char>, width: Option<Seq<char>>) -> Seq<char> {
    let w = match width {
        Some(w) => w,
        None => "auto"@,
    };
    "height: "@ + height + "; width: "@ + w + "; object-fit: contain;"@
}

/// The style of a logo of the given size.
pub fn logo_style(height: &str, width: &Option<String>) -> (res: String)
    ensures
        res@ == logo_style_text(height@, opt_view(*width)),
{
    let mut out = "height: ".to_string();
    out.append(height);
    out.append("; width: ");
    match width {
        Some(w) => out.append(w.as_str()),
        None => out.append("auto"),
    }
    out.append("; object-fit: contain;");
    out
}

/// The label of a reference to an asset: its name once it is found, its id otherwise.
pub fn asset_reference_label(asset: &Option<AssetItem>, asset_id: &String) -> (res: String)
    ensures
        res@ == match asset {
            Some(a) => a.name@,
            None => asset_id@,
        },
{
    match asset {
        Some(a) => a.name.clone(),
        None => asset_id.clone(),
    }
}

/// The label of a reference to a policy: its name once it is found, `Policy` otherwise.
pub fn policy_reference_label(policy: &Option<PolicyDefinitionItem>) -> (res: String)
    ensures
        res@ == match policy {
            Some(p) => p.name@,
            None => "Policy"@,
        },
{
    match policy {
        Some(p) => p.name.clone(),
        None => "Policy".to_string(),
    }
}

/// The texts and images of a dataset card.
#[derive(Clone, Debug)]
pub struct DatasetCardContent {
    pub title: String,
    pub version: String,
    pub comment: String,
    pub thumbnail: Option<String>,
    pub provider_logo: Option<String>,
}

/// The text of a dataset's version on its card; empty when it has none.
pub open spec fn card_version(d: DataspaceDataset) -> Seq<char> {
    match d.version {
        Some(v) => version_text(v.major, v.minor, v.patch, v.pre@, v.build@),
        None => Seq::empty(),
    }
}

/// The image of a dataset's card, if it names one.
pub open spec fn card_thumbnail(d: DataspaceDataset) -> Option<Seq<char>> {
    match d.thumbnail {
        Some(t) => opt_view(t.resource),
        None => None,
    }
}

/// The logo of a dataset's provider, if the dataset names one.
pub open spec fn card_provider_logo(d: DataspaceDataset) -> Option<Seq<char>> {
    match d.creator {
        Some(c) => match c.thumbnail {
            Some(t) => opt_view(t.resource),
            None => None,
        },
        None => None,
    }
}

/// What the card of `dataset` shows.
pub fn dataset_card(dataset: &DataspaceDataset) -> (res: DatasetCardContent)
    ensures
        res.title@ == dataset.title@,
        res.version@ == card_version(*dataset),
        res.comment@ == crate::models::asset_item::or_empty(opt_view(dataset.comment)),
        opt_view(res.thumbnail) == card_thumbnail(*dataset),
        opt_view(res.provider_logo) == card_provider_logo(*dataset),
{
    let version = match &dataset.version {
        Some(v) => v.text(),
        None => String::new(),
    };
    let comment = match &dataset.comment {
        Some(c) => c.clone(),
        None => String::new(),
    };
    let thumbnail = match &dataset.thumbnail {
        Some(t) => crate::text::clone_opt_string(&t.resource),
        None => None,
    };
    let provider_logo = match &dataset.creator {
        Some(c) => match &c.thumbnail {
            Some(t) => crate::text::clone_opt_string(&t.resource),
            None => None,
        },
        None => None,
    };
    DatasetCardContent { title: dataset.title.clone(), version, comment, thumbnail, provider_logo }
}

/// How the preview of a landing page is shown, by the content type it answers with.
#[derive(Clone, Copy, Debug, PartialEq, Eq, Structural)]
pub enum PreviewKind {
    /// An HTML page, shown in a frame.
    Page,
    /// A video, played.
    Video,
    /// Anything else, shown in a frame that loads it lazily.
    Other,
}

/// The preview kind for a content type; an unreachable page (`None`) is shown as a page.
pub open spec fn preview_kind_of(content_type: Option<Seq<char>>) -> PreviewKind {
    match content_type {
        None => PreviewKind::Page,
        Some(c) => if c == "text/html"@ {
            PreviewKind::Page
        } else if c.len() >= 6 && c.take(6) == "video/"@ {
            PreviewKind::Video
        } else {
            PreviewKind::Other
        },
    }
}

/// The preview kind for the content type a landing page answered with, or `None` when it
/// could not be fetched; a response without a content type counts as an empty one.
pub fn preview_kind(content_type: &Option<String>) -> (res: PreviewKind)
    ensures
        res == preview_kind_of(opt_view(*content_type)),
{
    proof {
        reveal_strlit("video/");
    }
    match content_type {
        None => PreviewKind::Page,
        Some(c) => {
            if str_eq(c.as_str(), "text/html") {
                PreviewKind::Page
            } else {
                let chars = crate::text::chars_of(c.as_str());
                if chars.len() >= 6 && chars[0] == 'v' && chars[1] == 'i' && chars[2] == 'd'
                    && chars[3] == 'e' && chars[4] == 'o' && chars[5] == '/' {
                    assert(c@.take(6) =~= "video/"@);
                    PreviewKind::Video
                } else {
                    assert(chars.len() >= 6 ==> c@.take(6)[0] == chars@[0] && c@.take(6)[1] == chars@[1]
                        && c@.take(6)[2] == chars@[2] && c@.take(6)[3] == chars@[3]
                        && c@.take(6)[4] == chars@[4] && c@.take(6)[5] == chars@[5]);
                    PreviewKind::Other
                }
            }
        },
    }
}

} // verus!
