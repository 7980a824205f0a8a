//! The shared state that the console's views read: known participants, the catalog's
//! assets, the user's own DID and the connections to the connector and the identity hub.

use vstd::prelude::*;
use crate::catalog::SelectedFederatedCatalogOffer;
use crate::models::asset_item::AssetItem;
use crate::models::participant::Participant;
use crate::text::str_eq;

verus! {

/// The participants whose DID can be shown by name.
#[derive(Clone, PartialEq)]
pub struct DidResolverState {
    participants: Vec<Participant>,
}

impl DidResolverState {
    /// A directory of the given participants.
    pub fn new(participants: Vec<Participant>) -> (res: Self)
        ensures
            res.participants() == participants@,
    {
        DidResolverState { participants }
    }

    /// The participants of the directory.
    pub closed spec fn participants(self) -> Seq<Participant> {
        self.participants@
    }

    /// The first participant with DID `participant_did`, if any.
    pub fn participant(&self, participant_did: &str) -> (res: Option<&Participant>)
        ensures
            match res {
                Some(p) => first_with_did(self.participants(), participant_did@) == Some(*p)
                    && p.did@ == participant_did@,
                None => first_with_did(self.participants(), participant_did@) is None,
            },
    {
        let mut i: usize = 0;
        assert(self.participants@.skip(0) =~= self.participants@);
        while i < self.participants.len()
            invariant
                i <= self.participants.len(),
                first_with_did(self.participants@, participant_did@)
                    == first_with_did(self.participants@.skip(i as int), participant_did@),
            decreases self.participants.len() - i,
        {
            let ghost rest = self.participants@.skip(i as int);
            assert(rest[0] == self.participants@[i as int]);
            assert(rest.skip(1) =~= self.participants@.skip(i + 1));
            if str_eq(self.participants[i].did.as_str(), participant_did) {
                return Some(&self.participants[i]);
            }
            i += 1;
        }
        None
    }
}

/// The first of `participants` whose DID is `did`.
pub open spec fn first_with_did(participants: Seq<Participant>, did: Seq<char>) -> Option<Participant>
    decreases participants.len(),
{
    if participants.len() == 0 {
        None
    } else if participants[0].did@ == did {
        Some(participants[0])
    } else {
        first_with_did(participants.skip(1), did)
    }
}

/// The first of `items` whose id is `id`.
pub open spec fn first_with_id(items: Seq<AssetItem>, id: Seq<char>) -> Option<AssetItem>
    decreases items.len(),
{
    if items.len() == 0 {
        None
    } else if items[0].id@ == id {
        Some(items[0])
    } else {
        first_with_id(items.skip(1), id)
    }
}

/// The action of the catalog's asset list: replace its content.
#[derive(Debug, PartialEq, Clone)]
pub enum EdcFederatedCatalogAssetsAction {
    SetAssetsAndSelectedOffers(Vec<(AssetItem, SelectedFederatedCatalogOffer)>),
}

/// The assets found in the federated catalog, each with the offer it comes from.
#[derive(Clone, PartialEq)]
pub struct EdcFederatedCatalogAssetsContextState {
    asset_items: Vec<AssetItem>,
    selected_offers: Vec<SelectedFederatedCatalogOffer>,
}

impl EdcFederatedCatalogAssetsContextState {
    /// An empty list.
    pub fn new() -> (res: Self)
        ensures
            res.spec_asset_items().len() == 0,
            res.spec_selected_offers().len() == 0,
    {
        EdcFederatedCatalogAssetsContextState { asset_items: Vec::new(), selected_offers: Vec::new() }
    }

    /// The assets.
    pub closed spec fn spec_asset_items(self) -> Seq<AssetItem> {
        self.asset_items@
    }

    /// The offers, in the order of the assets.
    pub closed spec fn spec_selected_offers(self) -> Seq<SelectedFederatedCatalogOffer> {
        self.selected_offers@
    }

    /// The first asset with id `asset_id`, if any.
    pub fn asset(&self, asset_id: &str) -> (res: Option<&AssetItem>)
        ensures
            match res {
                Some(a) => first_with_id(self.spec_asset_items(), asset_id@) == Some(*a) && a.id@ == asset_id@,
                None => first_with_id(self.spec_asset_items(), asset_id@) is None,
            },
    {
        let mut i: usize = 0;
        assert(self.asset_items@.skip(0) =~= self.asset_items@);
        while i < self.asset_items.len()
            invariant
                i <= self.asset_items.len(),
                first_with_id(self.asset_items@, asset_id@) == first_with_id(self.asset_items@.skip(i as int), asset_id@),
            decreases self.asset_items.len() - i,
        {
            let ghost rest = self.asset_items@.skip(i as int);
            assert(rest[0] == self.asset_items@[i as int]);
            assert(rest.skip(1) =~= self.asset_items@.skip(i + 1));
            if str_eq(self.asset_items[i].id.as_str(), asset_id) {
                return Some(&self.asset_items[i]);
            }
            i += 1;
        }
        None
    }

    /// The assets.
    pub fn asset_items(&self) -> (res: &[AssetItem])
        ensures
            res@ == self.spec_asset_items(),
    {
        self.asset_items.as_slice()
    }

    /// The offers, in the order of the assets.
    pub fn selected_offers(&self) -> (res: &[SelectedFederatedCatalogOffer])
        ensures
            res@ == self.spec_selected_offers(),
    {
        self.selected_offers.as_slice()
    }

    /// The list after `action`: the assets and offers of the given pairs, in their order.
    pub fn reduce(self, action: EdcFederatedCatalogAssetsAction) -> (res: Self)
        ensures
            match action {
                EdcFederatedCatalogAssetsAction::SetAssetsAndSelectedOffers(pairs) => {
                    &&& res.spec_asset_items() == pairs@.map_values(|p: (AssetItem, SelectedFederatedCatalogOffer)| p.0)
                    &&& res.spec_selected_offers() == pairs@.map_values(|p: (AssetItem, SelectedFederatedCatalogOffer)| p.1)
                },
            },
    {
        let EdcFederatedCatalogAssetsAction::SetAssetsAndSelectedOffers(pairs) = action;
        let ghost all = pairs@;
        let mut rest = pairs;
        let mut assets: Vec<AssetItem> = Vec::new();
        let mut offers: Vec<SelectedFederatedCatalogOffer> = Vec::new();
        while rest.len() > 0
            invariant
                rest@.len() + assets@.len() == all.len(),
                assets@.len() == offers@.len(),
                rest@ == all.take(rest@.len() as int),
                assets@ == all.skip(rest@.len() as int).map_values(|p: (AssetItem, SelectedFederatedCatalogOffer)| p.0).reverse(),
                offers@ == all.skip(rest@.len() as int).map_values(|p: (AssetItem, SelectedFederatedCatalogOffer)| p.1).reverse(),
            decreases rest.len(),
        {
            let ghost n = rest@.len();
            let (a, o) = rest.pop().unwrap();
            assert(all.skip(n - 1) =~= seq![all[n - 1]] + all.skip(n as int));
            assert(rest@ =~= all.take(n - 1));
            assets.push(a);
            offers.push(o);
            assert(assets@ =~= all.skip(n - 1).map_values(|p: (AssetItem, SelectedFederatedCatalogOffer)| p.0).reverse());
            assert(offers@ =~= all.skip(n - 1).map_values(|p: (AssetItem, SelectedFederatedCatalogOffer)| p.1).reverse());
        }
        assert(all.skip(0) =~= all);
        let res = EdcFederatedCatalogAssetsContextState {
            asset_items: reversed(assets),
            selected_offers: reversed(offers),
        };
        assert(res.asset_items@ =~= all.map_values(|p: (AssetItem, SelectedFederatedCatalogOffer)| p.0));
        assert(res.selected_offers@ =~= all.map_values(|p: (AssetItem, SelectedFederatedCatalogOffer)| p.1));
        res
    }
}

/// The elements of `v` in reverse order.
fn reversed<T>(v: Vec<T>) -> (res: Vec<T>)
    ensures
        res@ == v@.reverse(),
{
    let ghost all = v@;
    let mut rest = v;
    let mut out: Vec<T> = Vec::new();
    while rest.len() > 0
        invariant
            out@ + rest@.reverse() == all.reverse(),
        decreases rest.len(),
    {
        let ghost r0 = rest@;
        let x = rest.pop().unwrap();
        assert(r0 =~= rest@.push(x));
        assert(r0.reverse() =~= seq![x] + rest@.reverse());
        out.push(x);
        assert(out@ + rest@.reverse() =~= (out@.drop_last() + r0.reverse()));
    }
    assert(out@ + rest@.reverse() =~= out@);
    out
}

/// The DID of the participant who runs the console.
#[derive(Clone, PartialEq)]
pub struct MyDidProviderState {
    my_did: String,
}

impl MyDidProviderState {
    /// The state for the DID `my_did`.
    pub fn new(my_did: String) -> (res: Self)
        ensures
            res.spec_my_did() == my_did@,
    {
        MyDidProviderState { my_did }
    }

    /// The user's DID.
    pub closed spec fn spec_my_did(self) -> Seq<char> {
        self.my_did@
    }

    /// The user's DID.
    pub fn my_did(&self) -> (res: &str)
        ensures
            res@ == self.spec_my_did(),
    {
        self.my_did.as_str()
    }
}

/// Which participant of the identity hub the console acts for.
#[derive(Clone, PartialEq)]
pub struct EdcIdentityHubState {
    participant_id: String,
    participant_did: String,
}

/// The address of the identity hub behind the console's own origin.
pub open spec fn identity_hub_url(server_url: Seq<char>) -> Seq<char> {
    server_url + "/identity-hub"@
}

impl EdcIdentityHubState {
    /// The state for the participant `participant_id` with DID `participant_did`.
    pub fn new(participant_id: String, participant_did: String) -> (res: Self)
        ensures
            res.spec_participant_id() == participant_id@,
            res.spec_participant_did() == participant_did@,
    {
        EdcIdentityHubState { participant_id, participant_did }
    }

    /// The participant's id in the identity hub.
    pub closed spec fn spec_participant_id(self) -> Seq<char> {
        self.participant_id@
    }

    /// The participant's DID.
    pub closed spec fn spec_participant_did(self) -> Seq<char> {
        self.participant_did@
    }

    /// The participant's id in the identity hub.
    pub fn participant_id(&self) -> (res: &str)
        ensures
            res@ == self.spec_participant_id(),
    {
        self.participant_id.as_str()
    }

    /// The participant's DID.
    pub fn participant_did(&self) -> (res: &str)
        ensures
            res@ == self.spec_participant_did(),
    {
        self.participant_did.as_str()
    }

    /// The address of the identity hub, given the origin `server_url` the console runs at.
    pub fn endpoint(server_url: &str) -> (res: String)
        ensures
            res@ == identity_hub_url(server_url@),
    {
        let mut url = server_url.to_string();
        url.append("/identity-hub");
        url
    }
}

/// The address of the federated catalog: the console's origin followed by the catalog's path.
pub fn federated_catalog_url(server_url: &str, catalog_endpoint: &str) -> (res: String)
    ensures
        res@ == server_url@ + catalog_endpoint@,
{
    let mut url = server_url.to_string();
    url.append(catalog_endpoint);
    url
}

/// How the console authenticates at the connector's management API.
#[derive(Clone, Debug, PartialEq)]
pub enum ConnectorAuth {
    NoAuth,
    ApiToken(String),
    BearerToken(String),
}

/// Where the connector's management API is, and its API key if it has one.
#[derive(Clone, PartialEq)]
pub struct EdcConnectorState {
    pub management_url: String,
    pub api_key: Option<String>,
}

impl EdcConnectorState {
    /// The authentication to use: the user's access token when there is one, else the API
    /// key when there is one, else none.
    pub fn auth(&self, access_token: &Option<String>) -> (res: ConnectorAuth)
        ensures
            match *access_token {
                Some(t) => res == ConnectorAuth::BearerToken(t),
                None => match self.api_key {
                    Some(k) => res == ConnectorAuth::ApiToken(k),
                    None => res == ConnectorAuth::NoAuth,
                },
            },
    {
        match access_token {
            Some(t) => ConnectorAuth::BearerToken(t.clone()),
            None => match &self.api_key {
                Some(k) => ConnectorAuth::ApiToken(k.clone()),
                None => ConnectorAuth::NoAuth,
            },
        }
    }
}

/// A page of the console to go to.
#[derive(Debug, PartialEq, Clone)]
pub enum RedirectionAction {
    Assets,
    Asset(String),
    Policies,
    Policy(String),
    ContractDefinitions,
    ContractNegotiations,
    ContractNegotiation(String),
    ContractAgreements,
    ContractAgreement(String),
    TransferProcesses,
    TransferProcess(String),
    VerifiableCredentials,
    VerifiableCredential(String),
}

} // verus!
