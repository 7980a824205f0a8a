//! Identities of the dataspace: where a `did:web` DID is published, which of its services
//! the console talks to, and the credentials that an issuer offers and a user requests.

use vstd::prelude::*;
use crate::text::{ends_with_seq, ends_with_str, opt_view, replace_seq, str_eq, views};
use crate::ui::forms::{dspace_version_path, participant_target_url};
use crate::ui::selection::CheckboxState;

verus! {

/// The address of the DID document of `did`, as `DidWeb::new` of the identity hub client
/// computes it, or `None` where it refuses the text as a `did:web` DID.
pub uninterp spec fn did_web_document(did: Seq<char>) -> Option<Seq<char>>;

/// Calls `DidWeb::new` and reads the address of the DID document. The contract names the
/// outcome (`did_web_document`): the rewriting of the DID into a URL (and its percent
/// decoding) is not written out here.
#[verifier::external_body]
pub fn did_web_url(did: &str) -> (res: Option<String>)
    ensures
        opt_view(res) == did_web_document(did@),
{
    edc_identity_hub_client::models::DidWeb::new(did).map(|d| d.url().to_string())
}

/// The kind of a service that an identity lists.
#[derive(Clone, Debug, PartialEq)]
pub enum ServiceKind {
    CatalogService,
    DataService,
    IssuerService,
    Custom(String),
}

/// A service that an identity lists: its kind and where it is.
#[derive(Clone, Debug, PartialEq)]
pub struct IdentityServiceEntry {
    pub kind: ServiceKind,
    pub endpoint: String,
}

/// The endpoint of the first of `services` of kind data service (`data`) or issuer service.
pub open spec fn first_endpoint(services: Seq<IdentityServiceEntry>, data: bool) -> Option<Seq<char>>
    decreases services.len(),
{
    if services.len() == 0 {
        None
    } else if (data && services[0].kind is DataService) || (!data && services[0].kind is IssuerService) {
        Some(services[0].endpoint@)
    } else {
        first_endpoint(services.skip(1), data)
    }
}

fn first_of_kind(services: &Vec<IdentityServiceEntry>, data: bool) -> (res: Option<String>)
    ensures
        opt_view(res) == first_endpoint(services@, data),
{
    let mut i: usize = 0;
    assert(services@.skip(0) =~= services@);
    while i < services.len()
        invariant
            i <= services.len(),
            first_endpoint(services@, data) == first_endpoint(services@.skip(i as int), data),
        decreases services.len() - i,
    {
        let ghost rest = services@.skip(i as int);
        assert(rest[0] == services@[i as int]);
        assert(rest.skip(1) =~= services@.skip(i + 1));
        let hit = match &services[i].kind {
            ServiceKind::DataService => data,
            ServiceKind::IssuerService => !data,
            _ => false,
        };
        if hit {
            return Some(services[i].endpoint.clone());
        }
        i += 1;
    }
    None
}

/// The endpoint that announces the protocol versions of a participant: the first data
/// service of its identity, when it is a version discovery endpoint.
pub open spec fn version_endpoint(services: Seq<IdentityServiceEntry>) -> Option<Seq<char>> {
    match first_endpoint(services, true) {
        Some(e) => if ends_with_seq(e, dspace_version_path()) { Some(e) } else { None },
        None => None,
    }
}

/// Where to ask a participant for its protocol versions, given the services of its identity.
pub fn data_service_endpoint(services: &Vec<IdentityServiceEntry>) -> (res: Option<String>)
    ensures
        opt_view(res) == version_endpoint(services@),
{
    proof {
        reveal_strlit("/.well-known/dspace-version");
    }
    match first_of_kind(services, true) {
        Some(e) => if ends_with_str(e.as_str(), "/.well-known/dspace-version") { Some(e) } else { None },
        None => None,
    }
}

/// Where the issuer service of an identity is: its first issuer service.
pub fn issuer_service_endpoint(services: &Vec<IdentityServiceEntry>) -> (res: Option<String>)
    ensures
        opt_view(res) == first_endpoint(services@, false),
{
    first_of_kind(services, false)
}

/// The address of a catalog participant, given its version discovery endpoint and the paths
/// of the protocol versions it announces: the endpoint with the discovery path replaced by
/// the path of the first version; none when it announces no version.
pub fn participant_address(endpoint: &String, protocol_paths: &Vec<String>) -> (res: Option<String>)
    ensures
        match res {
            Some(a) => protocol_paths@.len() > 0
                && a@ == replace_seq(endpoint@, dspace_version_path(), protocol_paths@[0]@),
            None => protocol_paths@.len() == 0,
        },
{
    if protocol_paths.len() == 0 {
        None
    } else {
        Some(participant_target_url(endpoint.as_str(), protocol_paths[0].as_str()))
    }
}

/// A credential that an issuer offers, with every field the issuer describes it by.
#[derive(Clone, Debug, PartialEq)]
pub struct CredentialOffer {
    pub id: String,
    pub offer_type: String,
    pub offer_reason: String,
    pub profile: String,
    pub binding_methods: Vec<String>,
    pub credential_type: String,
    pub issuance_policy_id: String,
}

/// Two offers are the same when every field holds the same text.
pub open spec fn same_offer(a: CredentialOffer, b: CredentialOffer) -> bool {
    &&& a.id@ == b.id@
    &&& a.offer_type@ == b.offer_type@
    &&& a.offer_reason@ == b.offer_reason@
    &&& a.profile@ == b.profile@
    &&& views(a.binding_methods@) == views(b.binding_methods@)
    &&& a.credential_type@ == b.credential_type@
    &&& a.issuance_policy_id@ == b.issuance_policy_id@
}

fn same_strings(a: &Vec<String>, b: &Vec<String>) -> (res: bool)
    ensures
        res == (views(a@) == views(b@)),
{
    if a.len() != b.len() {
        assert(views(a@).len() != views(b@).len());
        return false;
    }
    let mut i: usize = 0;
    while i < a.len()
        invariant
            a.len() == b.len(),
            i <= a.len(),
            forall|k: int| 0 <= k < i ==> a@[k]@ == b@[k]@,
        decreases a.len() - i,
    {
        if !str_eq(a[i].as_str(), b[i].as_str()) {
            assert(views(a@)[i as int] != views(b@)[i as int]);
            return false;
        }
        i += 1;
    }
    assert(views(a@) =~= views(b@));
    true
}

/// Whether two offers are the same.
pub fn offers_equal(a: &CredentialOffer, b: &CredentialOffer) -> (res: bool)
    ensures
        res == same_offer(*a, *b),
{
    str_eq(a.id.as_str(), b.id.as_str())
        && str_eq(a.offer_type.as_str(), b.offer_type.as_str())
        && str_eq(a.offer_reason.as_str(), b.offer_reason.as_str())
        && str_eq(a.profile.as_str(), b.profile.as_str())
        && same_strings(&a.binding_methods, &b.binding_methods)
        && str_eq(a.credential_type.as_str(), b.credential_type.as_str())
        && str_eq(a.issuance_policy_id.as_str(), b.issuance_policy_id.as_str())
}

/// Whether an offer differs from `offer`.
pub open spec fn other_offer(offer: CredentialOffer) -> spec_fn(CredentialOffer) -> bool {
    |o: CredentialOffer| !same_offer(o, offer)
}

/// The offers of `selected` that are not the same as `offer`, in order.
pub open spec fn without_offer(selected: Seq<CredentialOffer>, offer: CredentialOffer) -> Seq<CredentialOffer> {
    selected.filter(other_offer(offer))
}

/// The selected offers after the checkbox of `offer` went to `state`: a checked offer is
/// added at the end; otherwise every offer that is the same as it is removed.
pub fn select_credential(selected: Vec<CredentialOffer>, offer: CredentialOffer, state: CheckboxState) -> (res: Vec<CredentialOffer>)
    ensures
        state == CheckboxState::Checked ==> res@ == selected@.push(offer),
        state != CheckboxState::Checked ==> res@ == without_offer(selected@, offer),
{
    if let CheckboxState::Checked = state {
        let mut selected = selected;
        selected.push(offer);
        selected
    } else {
        let ghost all = selected@;
        let mut out: Vec<CredentialOffer> = Vec::new();
        for item in it: selected
            invariant
                it.seq() == all,
                out@ == without_offer(all.take(it.index() as int), offer),
        {
            let ghost k = it.index() as int;
            proof {
                reveal(Seq::filter);
                assert(all.take(k + 1).drop_last() =~= all.take(k));
                assert(all.take(k + 1).last() == item);
            }
            if !offers_equal(&item, &offer) {
                out.push(item);
            }
        }
        proof {
            assert(all.take(all.len() as int) =~= all);
        }
        out
    }
}

/// Whether `offer` is among the selected offers.
pub fn is_offer_selected(selected: &Vec<CredentialOffer>, offer: &CredentialOffer) -> (res: bool)
    ensures
        res == exists|i: int| 0 <= i < selected@.len() && same_offer(#[trigger] selected@[i], *offer),
{
    let mut i: usize = 0;
    while i < selected.len()
        invariant
            i <= selected.len(),
            forall|k: int| 0 <= k < i ==> !same_offer(#[trigger] selected@[k], *offer),
        decreases selected.len() - i,
    {
        if offers_equal(&selected[i], offer) {
            return true;
        }
        i += 1;
    }
    false
}

/// The format in which a credential is requested.
#[derive(Clone, Copy, Debug, PartialEq, Eq)]
pub enum CredentialFormatKind {
    Vc10Jwt,
}

/// One credential asked for in a request: its format, type and id.
#[derive(Clone, Debug, PartialEq)]
pub struct CredentialQueryItem {
    pub format: CredentialFormatKind,
    pub credential_type: String,
    pub id: String,
}

/// One query per selected offer, in order: format VC 1.0 JWT, the offer's credential type
/// and its id.
pub fn credential_queries(selected: &Vec<CredentialOffer>) -> (res: Vec<CredentialQueryItem>)
    ensures
        res@.len() == selected@.len(),
        forall|i: int| 0 <= i < selected@.len() ==> {
            let q = #[trigger] res@[i];
            q.format == CredentialFormatKind::Vc10Jwt && q.credential_type@ == selected@[i].credential_type@
                && q.id@ == selected@[i].id@
        },
{
    let mut out: Vec<CredentialQueryItem> = Vec::new();
    let mut i: usize = 0;
    while i < selected.len()
        invariant
            i <= selected.len(),
            out@.len() == i,
            forall|k: int| 0 <= k < i ==> {
                let q = #[trigger] out@[k];
                q.format == CredentialFormatKind::Vc10Jwt && q.credential_type@ == selected@[k].credential_type@
                    && q.id@ == selected@[k].id@
            },
        decreases selected.len() - i,
    {
        out.push(CredentialQueryItem {
            format: CredentialFormatKind::Vc10Jwt,
            credential_type: selected[i].credential_type.clone(),
            id: selected[i].id.clone(),
        });
        i += 1;
    }
    out
}

/// A request for credentials: who issues them, the holder's request id, and the queries.
#[derive(Clone, Debug, PartialEq)]
pub struct CredentialRequestDraft {
    pub issuer_did: String,
    pub holder_pid: String,
    pub credentials: Vec<CredentialQueryItem>,
}

/// The request for the selected offers of the issuer `issuer_did`, under the holder's
/// request id `holder_pid`.
pub fn credential_request(issuer_did: &String, holder_pid: String, selected: &Vec<CredentialOffer>) -> (res: CredentialRequestDraft)
    ensures
        res.issuer_did@ == issuer_did@,
        res.holder_pid == holder_pid,
        res.credentials@.len() == selected@.len(),
        forall|i: int| 0 <= i < selected@.len() ==> {
            let q = #[trigger] res.credentials@[i];
            q.format == CredentialFormatKind::Vc10Jwt && q.credential_type@ == selected@[i].credential_type@
                && q.id@ == selected@[i].id@
        },
{
    CredentialRequestDraft {
        issuer_did: issuer_did.clone(),
        holder_pid,
        credentials: credential_queries(selected),
    }
}

} // verus!
