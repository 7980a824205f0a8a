//! Properties that hold across the library's operations and states.

use vstd::prelude::*;
use crate::models::asset_item::{AssetItem, AssetItemView, spec_is_filtered};
use crate::models::consumer_provider::ConsumerProvider;
use crate::text::{contains_seq, occurs_at, replace_seq};
use crate::ui::pagination::{Navigation, navigated_offset, last_page_offset};
use crate::ui::selection::{ConsumerProviderSelection, toggled, without_id, other_id};
use crate::catalog::{CatalogEntryView, kept_entries};
use crate::contexts::{DidResolverState, first_with_did, first_with_id};
use crate::models::participant::Participant;
use crate::identity::{CredentialOffer, without_offer, other_offer, same_offer};
use crate::ui::labels::{did_label_text, did_logo, known_participant};
use crate::ui::progress::{NegotiationState, TransferState, StepStatus, step_status, negotiation_step, transfer_step};
use crate::ui::forms::{Issuer, issuer_label_text, cel_scopes, expression_validation, version_validation, InputState};
use crate::models::asset_item::{search_text, or_empty};
use crate::text::{lowercase_of, seq_join};
use crate::catalog::{CatalogOfferView, CatalogDatasetView, catalog_asset, catalog_entries, offer_entries};
use crate::ui::progress::{
    negotiation_path_states, negotiation_path_names, transfer_path_states, transfer_path_names,
    negotiation_watch, transfer_watch, WatchStep,
};
use crate::ui::policy_text::{operator_name, operator_menu, operator_label_text, odrl_namespace, selector_text, Term};

verus! {

/// With no search text and no type chosen, the asset list keeps every asset.
pub proof fn unfiltered_list_keeps_every_asset(item: AssetItemView)
    ensures
        spec_is_filtered(item, None, Seq::empty()),
{
}

/// Choosing types only narrows the asset list: an asset kept with types chosen is kept with
/// the same search and no types.
pub proof fn type_choice_only_narrows(item: AssetItemView, search: Option<Seq<char>>, types: Seq<Seq<char>>)
    ensures
        spec_is_filtered(item, search, types) ==> spec_is_filtered(item, search, Seq::empty()),
{
}

/// Toggling the same side of the consumer/provider selection twice gives back the selection.
pub proof fn toggling_twice_restores(s: ConsumerProviderSelection, side: ConsumerProvider)
    ensures
        toggled(toggled(s, side), side) == s,
{
}

/// Toggling one side never changes whether the other side is chosen.
pub proof fn toggling_leaves_other_side(s: ConsumerProviderSelection, side: ConsumerProvider, other: ConsumerProvider)
    requires
        other != side,
    ensures
        crate::ui::selection::chosen(toggled(s, side), other) == crate::ui::selection::chosen(s, other),
{
}

/// Paging forward and then back returns to the page one started from.
pub proof fn next_then_previous_returns(offset: nat, limit: nat, total: Option<usize>)
    ensures
        navigated_offset(
            Navigation::Previous,
            navigated_offset(Navigation::Next, offset, limit, total) as nat,
            limit,
            total,
        ) == offset,
{
}

/// The last page starts at a whole number of pages and holds the last entry.
pub proof fn last_page_holds_last_entry(total: usize, limit: nat)
    requires
        limit > 0,
        total > 0,
    ensures
        last_page_offset(Some(total), limit) % limit == 0,
        last_page_offset(Some(total), limit) <= total - 1 < last_page_offset(Some(total), limit) + limit,
{
    let last: nat = (total - 1) as nat;
    let q: nat = last / limit;
    assert(last_page_offset(Some(total), limit) == q * limit);
    assert((q * limit) % limit == 0) by (nonlinear_arith)
        requires
            limit > 0,
    ;
    assert(q * limit <= last && last < q * limit + limit) by (nonlinear_arith)
        requires
            limit > 0,
            q == last / limit,
    ;
}

/// After an asset is unchecked, no selected asset has its id.
pub proof fn unchecking_removes_every_copy(selected: Seq<AssetItem>, id: Seq<char>)
    ensures
        forall|i: int| 0 <= i < without_id(selected, id).len() ==> (#[trigger] without_id(selected, id)[i]).id@ != id,
{
    let p = other_id(id);
    assert forall|i: int| 0 <= i < without_id(selected, id).len() implies (#[trigger] without_id(selected, id)[i]).id@ != id by {
        selected.lemma_filter_pred(p, i);
    }
}

/// Checking an asset and then unchecking it leaves the selection that unchecking it alone
/// would leave.
pub proof fn check_then_uncheck(selected: Seq<AssetItem>, asset: AssetItem)
    ensures
        without_id(selected.push(asset), asset.id@) == without_id(selected, asset.id@),
{
    reveal(Seq::filter);
    assert(selected.push(asset).drop_last() =~= selected);
}

/// Replacing a pattern that does not occur leaves a text as it is.
pub proof fn replacing_absent_pattern_is_identity(s: Seq<char>, from: Seq<char>, to: Seq<char>)
    requires
        from.len() > 0,
        !contains_seq(s, from),
    ensures
        replace_seq(s, from, to) == s,
    decreases s.len(),
{
    if s.len() > 0 {
        if from.len() <= s.len() && s.take(from.len() as int) == from {
            assert(s.subrange(0, from.len() as int) =~= s.take(from.len() as int));
            assert(occurs_at(s, from, 0));
        } else {
            let rest = s.skip(1);
            assert forall|i: int| !occurs_at(rest, from, i) by {
                if occurs_at(rest, from, i) {
                    assert(rest.subrange(i, i + from.len()) =~= s.subrange(i + 1, i + 1 + from.len()));
                    assert(occurs_at(s, from, i + 1));
                }
            }
            replacing_absent_pattern_is_identity(rest, from, to);
            assert(seq![s[0]] + rest =~= s);
        }
    }
}

/// The scopes of a new CEL entry start with the extra scopes as entered, followed by one
/// scope for each ticked box.
pub proof fn extra_scopes_come_first(catalog: bool, negotiation: bool, transfer: bool, extra: Seq<Seq<char>>)
    ensures
        cel_scopes(catalog, negotiation, transfer, extra).take(extra.len() as int) == extra,
        cel_scopes(catalog, negotiation, transfer, extra).len() == extra.len()
            + (if catalog { 1int } else { 0 }) + (if negotiation { 1int } else { 0 }) + (if transfer { 1int } else { 0 }),
{
    let a = if catalog { extra.push("catalog"@) } else { extra };
    let b = if negotiation { a.push("contract.negotiation"@) } else { a };
    let c = if transfer { b.push("transfer.process"@) } else { b };
    assert(a.take(extra.len() as int) =~= extra);
    assert(b.take(extra.len() as int) =~= extra);
    assert(c.take(extra.len() as int) =~= extra);
}

/// No field is flagged before its first edit, whatever it holds.
pub proof fn untouched_fields_show_nothing(value: Seq<char>, errors: Option<Seq<char>>, is_semver: bool)
    ensures
        expression_validation(true, value, errors) == (InputState::Default, None::<Seq<char>>),
        version_validation(true, value, is_semver) == (InputState::Default, None::<Seq<char>>),
{
}

/// An edited field is in error exactly when it is empty or its content is refused.
pub proof fn edited_fields_error_exactly_when_refused(value: Seq<char>, errors: Option<Seq<char>>, is_semver: bool)
    ensures
        (expression_validation(false, value, errors).0 == InputState::Error) <==> (value.len() == 0 || errors is Some),
        (version_validation(false, value, is_semver).0 == InputState::Error) <==> (value.len() == 0 || !is_semver),
{
}

/// With no search text and no type chosen, the catalog list keeps every entry, in order.
pub proof fn unfiltered_catalog_keeps_every_entry(entries: Seq<CatalogEntryView>)
    ensures
        kept_entries(entries, None, Seq::empty()) == entries,
    decreases entries.len(),
{
    reveal(Seq::filter);
    if entries.len() > 0 {
        unfiltered_catalog_keeps_every_entry(entries.drop_last());
        assert(entries.drop_last().push(entries.last()) =~= entries);
    }
}

/// Every entry that the catalog list keeps passes the search and the type selection.
pub proof fn kept_entries_pass_the_filter(entries: Seq<CatalogEntryView>, search: Option<Seq<char>>, types: Seq<Seq<char>>)
    ensures
        forall|i: int| 0 <= i < kept_entries(entries, search, types).len()
            ==> spec_is_filtered((#[trigger] kept_entries(entries, search, types)[i]).0, search, types),
    decreases entries.len(),
{
    reveal(Seq::filter);
    if entries.len() > 0 {
        kept_entries_pass_the_filter(entries.drop_last(), search, types);
        let before = kept_entries(entries.drop_last(), search, types);
        assert forall|i: int| 0 <= i < kept_entries(entries, search, types).len()
            implies spec_is_filtered((#[trigger] kept_entries(entries, search, types)[i]).0, search, types) by {
            if i < before.len() {
                assert(kept_entries(entries, search, types)[i] == before[i]);
            }
        }
    }
}

/// Once a negotiation is finalized, every step of its path shows as succeeded.
pub proof fn finalized_negotiation_shows_every_step_done(i: int)
    requires
        0 <= i < 7,
    ensures
        step_status(i, negotiation_step(NegotiationState::Finalized) as int, 7) == StepStatus::Success,
{
}

/// Once a transfer is completed, every step of its path shows as succeeded.
pub proof fn completed_transfer_shows_every_step_done(i: int)
    requires
        0 <= i < 5,
    ensures
        step_status(i, transfer_step(TransferState::Completed) as int, 5) == StepStatus::Success,
{
}

/// The steps of a process read in order: succeeded ones, then at most the current one, then
/// pending ones.
pub proof fn steps_read_in_order(i: int, j: int, current: int, count: int)
    requires
        0 <= i < j < count,
    ensures
        step_status(j, current, count) == StepStatus::Success ==> step_status(i, current, count) == StepStatus::Success,
        step_status(i, current, count) == StepStatus::Pending ==> step_status(j, current, count) == StepStatus::Pending,
{
}

/// A DID that the participant directory does not know is shown as itself, without a logo.
pub proof fn unknown_did_shows_itself(resolver: Option<DidResolverState>, did: Seq<char>)
    requires
        known_participant(resolver, did) is None,
    ensures
        did_label_text(resolver, did) == did,
        did_logo(resolver, did) is None,
{
}

/// The issuer menu names the first offered issuer whose DID is the chosen one.
pub proof fn offered_issuer_is_named(issuers: Seq<Issuer>, did: Seq<char>, i: int)
    requires
        0 <= i < issuers.len(),
        issuers[i].did@ == did,
        forall|j: int| 0 <= j < i ==> (#[trigger] issuers[j]).did@ != did,
    ensures
        issuer_label_text(issuers, did) == issuers[i].name@,
    decreases i,
{
    if i > 0 {
        let rest = issuers.skip(1);
        assert forall|j: int| 0 <= j < i - 1 implies (#[trigger] rest[j]).did@ != did by {
            assert(rest[j] == issuers[j + 1]);
        }
        offered_issuer_is_named(rest, did, i - 1);
    }
}

/// The issuer menu prompts for a choice when no offered issuer has the chosen DID.
pub proof fn unoffered_issuer_prompts(issuers: Seq<Issuer>, did: Seq<char>)
    requires
        forall|j: int| 0 <= j < issuers.len() ==> (#[trigger] issuers[j]).did@ != did,
    ensures
        issuer_label_text(issuers, did) == "Select an issuer"@,
    decreases issuers.len(),
{
    if issuers.len() > 0 {
        let rest = issuers.skip(1);
        assert(issuers[0].did@ != did);
        assert forall|j: int| 0 <= j < rest.len() implies (#[trigger] rest[j]).did@ != did by {
            assert(rest[j] == issuers[j + 1]);
        }
        unoffered_issuer_prompts(rest, did);
    }
}

/// The directory answers for a DID with the first participant that has it.
pub proof fn directory_finds_first_participant(participants: Seq<Participant>, did: Seq<char>, i: int)
    requires
        0 <= i < participants.len(),
        participants[i].did@ == did,
        forall|j: int| 0 <= j < i ==> (#[trigger] participants[j]).did@ != did,
    ensures
        first_with_did(participants, did) == Some(participants[i]),
    decreases i,
{
    if i > 0 {
        let rest = participants.skip(1);
        assert forall|j: int| 0 <= j < i - 1 implies (#[trigger] rest[j]).did@ != did by {
            assert(rest[j] == participants[j + 1]);
        }
        directory_finds_first_participant(rest, did, i - 1);
    }
}

/// The catalog's asset list finds an asset by its id: the first asset with that id among
/// the ones it was last given.
pub proof fn catalog_list_finds_first_asset(items: Seq<AssetItem>, id: Seq<char>, i: int)
    requires
        0 <= i < items.len(),
        items[i].id@ == id,
        forall|j: int| 0 <= j < i ==> (#[trigger] items[j]).id@ != id,
    ensures
        first_with_id(items, id) == Some(items[i]),
    decreases i,
{
    if i > 0 {
        let rest = items.skip(1);
        assert forall|j: int| 0 <= j < i - 1 implies (#[trigger] rest[j]).id@ != id by {
            assert(rest[j] == items[j + 1]);
        }
        catalog_list_finds_first_asset(rest, id, i - 1);
    }
}

/// Checking an offered credential and then unchecking it leaves the selection that
/// unchecking it alone would leave.
pub proof fn credential_check_then_uncheck(selected: Seq<CredentialOffer>, offer: CredentialOffer)
    ensures
        without_offer(selected.push(offer), offer) == without_offer(selected, offer),
{
    reveal(Seq::filter);
    assert(selected.push(offer).drop_last() =~= selected);
}

/// After an offer is unchecked, no selected offer is the same as it.
pub proof fn unchecking_removes_every_same_offer(selected: Seq<CredentialOffer>, offer: CredentialOffer)
    ensures
        forall|i: int| 0 <= i < without_offer(selected, offer).len()
            ==> !same_offer(#[trigger] without_offer(selected, offer)[i], offer),
{
    assert forall|i: int| 0 <= i < without_offer(selected, offer).len()
        implies !same_offer(#[trigger] without_offer(selected, offer)[i], offer) by {
        selected.lemma_filter_pred(other_offer(offer), i);
    }
}

/// The text a search looks into holds the asset's lowercased name, description, keywords
/// (joined by spaces) and creator name.
pub proof fn search_text_holds_every_field(item: AssetItemView)
    ensures
        contains_seq(search_text(item), lowercase_of(item.name)),
        contains_seq(search_text(item), lowercase_of(or_empty(item.description))),
        contains_seq(search_text(item), lowercase_of(seq_join(item.keywords, seq![' ']))),
        item.creator matches Some(c) ==> contains_seq(search_text(item), lowercase_of(or_empty(c.name))),
{
    let t = search_text(item);
    let n = lowercase_of(item.name);
    let d = lowercase_of(or_empty(item.description));
    let k = lowercase_of(seq_join(item.keywords, seq![' ']));
    assert(t.subrange(0, n.len() as int) =~= n);
    assert(occurs_at(t, n, 0));
    let dp: int = n.len() as int + 1;
    assert(t.subrange(dp, dp + d.len()) =~= d);
    assert(occurs_at(t, d, dp));
    let kp: int = dp + d.len() + 1;
    assert(t.subrange(kp, kp + k.len()) =~= k);
    assert(occurs_at(t, k, kp));
    match item.creator {
        Some(c) => {
            let cn = lowercase_of(or_empty(c.name));
            let cp: int = kp + k.len() + 1;
            assert(t.subrange(cp, cp + cn.len()) =~= cn);
            assert(occurs_at(t, cn, cp));
        },
        None => {},
    }
}

/// Searching for an asset's name, its description, its keywords as listed (its keyword,
/// when it has one) or its creator's name keeps the asset, whatever the case of the search.
pub proof fn search_by_any_field_keeps_asset(item: AssetItemView)
    ensures
        spec_is_filtered(item, Some(item.name), Seq::empty()),
        item.description matches Some(d) ==> spec_is_filtered(item, Some(d), Seq::empty()),
        spec_is_filtered(item, Some(seq_join(item.keywords, seq![' '])), Seq::empty()),
        item.keywords.len() == 1 ==> spec_is_filtered(item, Some(item.keywords[0]), Seq::empty()),
        item.creator matches Some(c) ==> (c.name matches Some(n) ==> spec_is_filtered(item, Some(n), Seq::empty())),
{
    search_text_holds_every_field(item);
}

/// The asset made from a catalog dataset carries the dataset's id, name, description,
/// keywords and types, and its creator's name.
pub proof fn catalog_asset_keeps_dataset_fields(d: CatalogDatasetView)
    ensures
        catalog_asset(d).id == d.id,
        catalog_asset(d).name == d.name,
        catalog_asset(d).description == d.description,
        catalog_asset(d).keywords == d.keywords,
        catalog_asset(d).dcterm_types == d.dcterm_types,
        d.creator matches Some(c) ==> (catalog_asset(d).creator matches Some(a) && a.name == Some(c.0)),
{
}

/// The catalog list holds an entry for every dataset of every offer: its asset, paired with
/// the offer's originator, its participant and the dataset's id.
pub proof fn catalog_lists_every_dataset(offers: Seq<CatalogOfferView>, i: int, j: int)
    requires
        0 <= i < offers.len(),
        0 <= j < offers[i].datasets.len(),
    ensures
        catalog_entries(offers).contains(
            (catalog_asset(offers[i].datasets[j]), (offers[i].originator, offers[i].participant_id, offers[i].datasets[j].id)),
        ),
    decreases offers.len(),
{
    let entry = (catalog_asset(offers[i].datasets[j]), (offers[i].originator, offers[i].participant_id, offers[i].datasets[j].id));
    let front = catalog_entries(offers.drop_last());
    let back = offer_entries(offers.last());
    assert(catalog_entries(offers) == front + back);
    if i == offers.len() - 1 {
        assert(back[j] == entry);
        assert((front + back)[front.len() + j] == entry);
    } else {
        assert(offers.drop_last()[i] == offers[i]);
        catalog_lists_every_dataset(offers.drop_last(), i, j);
        let k = choose|k: int| 0 <= k < front.len() && front[k] == entry;
        assert((front + back)[k] == entry);
    }
}

/// An entry that passes the search and the type selection stays in the list they filter.
proof fn passing_entry_is_kept(entries: Seq<CatalogEntryView>, search: Option<Seq<char>>, types: Seq<Seq<char>>, k: int)
    requires
        0 <= k < entries.len(),
        spec_is_filtered(entries[k].0, search, types),
    ensures
        kept_entries(entries, search, types).contains(entries[k]),
    decreases entries.len(),
{
    reveal(Seq::filter);
    let rest = entries.drop_last();
    let sub = kept_entries(rest, search, types);
    if k == entries.len() - 1 {
        assert(kept_entries(entries, search, types) == sub.push(entries.last()));
        assert(kept_entries(entries, search, types)[sub.len() as int] == entries[k]);
    } else {
        assert(rest[k] == entries[k]);
        passing_entry_is_kept(rest, search, types, k);
        let m = choose|m: int| 0 <= m < sub.len() && sub[m] == rest[k];
        assert(kept_entries(entries, search, types)[m] == entries[k]);
    }
}

/// Searching the catalog for a dataset's keywords as listed (its keyword, when it has one)
/// keeps that dataset, paired with the offer it comes from.
pub proof fn catalog_search_finds_dataset_by_keywords(offers: Seq<CatalogOfferView>, i: int, j: int)
    requires
        0 <= i < offers.len(),
        0 <= j < offers[i].datasets.len(),
    ensures
        kept_entries(catalog_entries(offers), Some(seq_join(offers[i].datasets[j].keywords, seq![' '])), Seq::empty()).contains(
            (catalog_asset(offers[i].datasets[j]), (offers[i].originator, offers[i].participant_id, offers[i].datasets[j].id)),
        ),
{
    let d = offers[i].datasets[j];
    let entry = (catalog_asset(d), (offers[i].originator, offers[i].participant_id, d.id));
    let entries = catalog_entries(offers);
    catalog_lists_every_dataset(offers, i, j);
    let k = choose|k: int| 0 <= k < entries.len() && entries[k] == entry;
    search_by_any_field_keeps_asset(catalog_asset(d));
    passing_entry_is_kept(entries, Some(seq_join(d.keywords, seq![' '])), Seq::empty(), k);
}

/// A negotiation in a state of its expected path stands at that state's step, the step
/// that bears the state's name; a negotiation in any other state stands at the first step.
pub proof fn negotiation_stands_at_its_state(s: NegotiationState)
    ensures
        forall|i: int| 0 <= i < 7 ==> negotiation_step(#[trigger] negotiation_path_states()[i]) == i,
        negotiation_path_states().contains(s) ==> negotiation_path_names()[negotiation_step(s) as int]
            == negotiation_path_names()[negotiation_path_states().index_of(s)],
        !negotiation_path_states().contains(s) ==> negotiation_step(s) == 0,
{
    let p = negotiation_path_states();
    assert forall|i: int| 0 <= i < 7 implies negotiation_step(#[trigger] p[i]) == i by {
        if i == 0 {} else if i == 1 {} else if i == 2 {} else if i == 3 {} else if i == 4 {} else if i == 5 {} else {}
    }
    if p.contains(s) {
        let i = p.index_of(s);
        assert(p[i] == s);
    } else {
        match s {
            NegotiationState::Initial => { assert(p[0] == s); },
            NegotiationState::Requested => { assert(p[1] == s); },
            NegotiationState::Offered => { assert(p[2] == s); },
            NegotiationState::Accepted => { assert(p[3] == s); },
            NegotiationState::Agreed => { assert(p[4] == s); },
            NegotiationState::Verified => { assert(p[5] == s); },
            NegotiationState::Finalized => { assert(p[6] == s); },
            _ => {},
        }
    }
}

/// A transfer in a state of its expected path stands at that state's step, the step that
/// bears the state's name; a transfer in any other state stands at the first step.
pub proof fn transfer_stands_at_its_state(s: TransferState)
    ensures
        forall|i: int| 0 <= i < 5 ==> transfer_step(#[trigger] transfer_path_states()[i]) == i,
        transfer_path_states().contains(s) ==> transfer_path_names()[transfer_step(s) as int]
            == transfer_path_names()[transfer_path_states().index_of(s)],
        !transfer_path_states().contains(s) ==> transfer_step(s) == 0,
{
    let p = transfer_path_states();
    assert forall|i: int| 0 <= i < 5 implies transfer_step(#[trigger] p[i]) == i by {
        if i == 0 {} else if i == 1 {} else if i == 2 {} else if i == 3 {} else {}
    }
    if p.contains(s) {
        let i = p.index_of(s);
        assert(p[i] == s);
    } else {
        match s {
            TransferState::Initial => { assert(p[0] == s); },
            TransferState::Provisioned => { assert(p[1] == s); },
            TransferState::Requested => { assert(p[2] == s); },
            TransferState::Started => { assert(p[3] == s); },
            TransferState::Completed => { assert(p[4] == s); },
            _ => {},
        }
    }
}

/// The transfer watcher reports an end exactly when the transfer has reached the last state
/// of its path or was terminated, and a start exactly when it has started; a state that
/// could not be read keeps it watching.
pub proof fn transfer_watch_ends_at_every_end(s: TransferState)
    ensures
        (transfer_watch(Some(s)) == WatchStep::ReportFinished)
            <==> (s == transfer_path_states().last() || s == TransferState::Terminated),
        (transfer_watch(Some(s)) == WatchStep::ReportStarted) <==> s == transfer_path_states()[3],
        transfer_watch(None) == WatchStep::KeepWatching,
{
}

/// The negotiation watcher reports an end exactly when the negotiation has reached the last
/// state of its path or was terminated, and never a start; a state that could not be read
/// keeps it watching.
pub proof fn negotiation_watch_ends_at_every_end(s: NegotiationState)
    ensures
        (negotiation_watch(Some(s)) == WatchStep::ReportFinished)
            <==> (s == negotiation_path_states().last() || s == NegotiationState::Terminated),
        negotiation_watch(Some(s)) != WatchStep::ReportStarted,
        negotiation_watch(None) == WatchStep::KeepWatching,
{
}

/// Dropping the ODRL namespace from the IRI of a term shorter than it gives the term back.
proof fn odrl_iri_reads_as_short_form(short: Seq<char>)
    requires
        short.len() < odrl_namespace().len(),
    ensures
        replace_seq(odrl_namespace() + short, odrl_namespace(), Seq::empty()) == short,
{
    let ns = odrl_namespace();
    let s = ns + short;
    assert(s.take(ns.len() as int) =~= ns);
    assert(s.skip(ns.len() as int) =~= short);
    assert forall|i: int| !occurs_at(short, ns, i) by {}
    replacing_absent_pattern_is_identity(short, ns, Seq::empty());
    assert(Seq::<char>::empty() + short =~= short);
}

/// Each operator of the operator menu reads as the name the menu gives it, whether it is
/// written in its short form or as its ODRL IRI, and the operator selector shows that name.
pub proof fn menu_operators_read_as_their_names()
    ensures
        forall|i: int| 0 <= i < 13 ==> operator_name(#[trigger] operator_menu()[i].1) == Some(operator_menu()[i].0),
        forall|i: int| 0 <= i < 13 ==> operator_label_text(odrl_namespace() + #[trigger] operator_menu()[i].1) == operator_menu()[i].0,
        forall|i: int, s: String| #![trigger selector_text(Term::Simple(s)), operator_menu()[i]]
            0 <= i < 13 && s@ == operator_menu()[i].1 ==> selector_text(Term::Simple(s)) == operator_menu()[i].0,
{
    reveal_strlit("eq");
    reveal_strlit("neq");
    reveal_strlit("gt");
    reveal_strlit("gteq");
    reveal_strlit("lt");
    reveal_strlit("lteq");
    reveal_strlit("term-lteq");
    reveal_strlit("hasPart");
    reveal_strlit("isA");
    reveal_strlit("isAllOf");
    reveal_strlit("isAnyOf");
    reveal_strlit("isNoneOf");
    reveal_strlit("isPärtOf");
    reveal_strlit("http://www.w3.org/ns/odrl/2/");
    let m = operator_menu();
    assert("eq"@.len() == 2 && "eq"@[0] == 'e');
    assert("neq"@.len() == 3 && "neq"@[0] == 'n');
    assert("gt"@.len() == 2 && "gt"@[0] == 'g');
    assert("gteq"@.len() == 4 && "gteq"@[0] == 'g');
    assert("lt"@.len() == 2 && "lt"@[0] == 'l');
    assert("lteq"@.len() == 4 && "lteq"@[0] == 'l');
    assert("term-lteq"@.len() == 9 && "term-lteq"@[0] == 't');
    assert("hasPart"@.len() == 7 && "hasPart"@[0] == 'h');
    assert("isA"@.len() == 3 && "isA"@[0] == 'i');
    assert("isAllOf"@.len() == 7 && "isAllOf"@[0] == 'i' && "isAllOf"@[3] == 'l');
    assert("isAnyOf"@.len() == 7 && "isAnyOf"@[0] == 'i' && "isAnyOf"@[3] == 'n');
    assert("isNoneOf"@.len() == 8 && "isNoneOf"@[2] == 'N');
    assert("isPärtOf"@.len() == 8 && "isPärtOf"@[2] == 'P');
    assert forall|i: int| 0 <= i < 13 implies operator_name(#[trigger] m[i].1) == Some(m[i].0) by {
        if i == 0 {} else if i == 1 {} else if i == 2 {} else if i == 3 {} else if i == 4 {}
        else if i == 5 {} else if i == 6 {} else if i == 7 {} else if i == 8 {} else if i == 9 {}
        else if i == 10 {} else if i == 11 {} else {}
    }
    assert forall|i: int| 0 <= i < 13 implies operator_label_text(odrl_namespace() + #[trigger] m[i].1) == m[i].0 by {
        assert(m[i].1.len() < 28) by {
            if i == 0 {} else if i == 1 {} else if i == 2 {} else if i == 3 {} else if i == 4 {}
            else if i == 5 {} else if i == 6 {} else if i == 7 {} else if i == 8 {} else if i == 9 {}
            else if i == 10 {} else if i == 11 {} else {}
        }
        odrl_iri_reads_as_short_form(m[i].1);
    }
}

} // verus!
