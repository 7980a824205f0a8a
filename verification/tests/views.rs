use edc_ui::catalog::{filtered_catalog_assets, CatalogCreator, CatalogDataset, CatalogOffer, CatalogThumbnail, SelectedFederatedCatalogOffer};
use edc_ui::contexts::{
    federated_catalog_url, ConnectorAuth, DidResolverState, EdcConnectorState, EdcFederatedCatalogAssetsAction,
    EdcFederatedCatalogAssetsContextState, EdcIdentityHubState, MyDidProviderState,
};
use edc_ui::models::asset_item::AssetItem;
use edc_ui::models::consumer_provider::ConsumerProvider;
use edc_ui::models::dataset_extra_fields::DatasetExtraFields;
use edc_ui::models::participant::Participant;
use edc_ui::ui::pagination::{navigate, Navigation};
use edc_ui::ui::policy_text::{
    atomic_title, cel_constraint, default_cel_left_operand, multiplicity_title, new_rule_action, operator_choices,
    operator_label, operator_selector_label, ConstraintMode, Term,
};
use edc_ui::ui::progress::{
    negotiation_state_color, negotiation_steps, status_panel, step_statuses, transfer_steps, watch_credential_request,
    watch_negotiation, watch_transfer, CredentialRequestState, NegotiationState, StateColor, StatusPanel, StepStatus,
    TransferState, WatchStep,
};
use edc_ui::ui::selection::{
    add_empty, is_chosen, multi_state_label, one_state_label, pick, remove_at, replace_at, select_asset, toggle_item,
    CheckboxState, ConsumerProviderSelection,
};
use edc_ui::models::common_expression_language_item::CommonExpressionLanguageItem;
use edc_ui::models::properties::JsonValue;

fn dataset(id: &str, name: &str, keywords: &[&str], types: &[&str]) -> CatalogDataset {
    CatalogDataset {
        id: id.to_string(),
        name: name.to_string(),
        version: Some("1.0.0".to_string()),
        description: None,
        creator: Some(CatalogCreator {
            name: "ACME".to_string(),
            thumbnail: CatalogThumbnail { resource: "https://acme/logo.png".to_string() },
        }),
        thumbnail: None,
        keywords: keywords.iter().map(|k| k.to_string()).collect(),
        dcterm_types: types.iter().map(|t| t.to_string()).collect(),
    }
}

fn offers() -> Vec<CatalogOffer> {
    vec![
        CatalogOffer {
            originator: "https://a/protocol".to_string(),
            participant_id: "did:web:a".to_string(),
            datasets: vec![dataset("d1", "Weather", &["rain"], &["dataset"]), dataset("d2", "Traffic", &[], &["service"])],
        },
        CatalogOffer {
            originator: "https://b/protocol".to_string(),
            participant_id: "did:web:b".to_string(),
            datasets: vec![dataset("d3", "Weather forecast", &[], &[])],
        },
    ]
}

#[test]
fn navigation_moves_between_pages() {
    assert_eq!(navigate(Navigation::First, 30, 10, Some(95)), 0);
    assert_eq!(navigate(Navigation::Last, 0, 10, Some(95)), 90);
    assert_eq!(navigate(Navigation::Last, 0, 10, Some(100)), 90);
    assert_eq!(navigate(Navigation::Last, 0, 10, None), 0);
    assert_eq!(navigate(Navigation::Previous, 30, 10, Some(95)), 20);
    assert_eq!(navigate(Navigation::Next, 30, 10, Some(95)), 40);
    assert_eq!(navigate(Navigation::Page(3), 0, 25, None), 75);
    let next = navigate(Navigation::Next, 40, 20, None);
    assert_eq!(navigate(Navigation::Previous, next, 20, None), 40);
}

#[test]
fn multi_state_selector_label() {
    let all = vec![("A".to_string(), true), ("B".to_string(), true)];
    assert_eq!(multi_state_label(&all), "All");
    let none = vec![("A".to_string(), false), ("B".to_string(), false)];
    assert_eq!(multi_state_label(&none), "All");
    let some = vec![("A".to_string(), true), ("B".to_string(), false), ("C".to_string(), true)];
    assert_eq!(multi_state_label(&some), "A, C");
    let toggled = toggle_item(some, 1);
    assert_eq!(multi_state_label(&toggled), "All");
}

#[test]
fn one_state_selector_label() {
    assert_eq!(one_state_label(&None), "Select an option");
    assert_eq!(one_state_label(&Some(String::new())), "Select an option");
    assert_eq!(one_state_label(&Some("HttpData".to_string())), "HttpData");
    let items = vec!["x".to_string(), "y".to_string()];
    assert_eq!(pick(&items, 1), "y");
    assert!(is_chosen(&"y".to_string(), &Some("y".to_string())));
    assert!(!is_chosen(&"x".to_string(), &Some("y".to_string())));
}

#[test]
fn consumer_provider_selection() {
    let s = ConsumerProviderSelection::new();
    assert!(s.is_empty());
    assert_eq!(s.label(), "Consumer, Provider");
    assert!(s.shows(ConsumerProvider::Consumer) && s.shows(ConsumerProvider::Provider));
    let c = s.toggle(ConsumerProvider::Consumer);
    assert_eq!(c.label(), "Consumer");
    assert!(c.shows(ConsumerProvider::Consumer));
    assert!(!c.shows(ConsumerProvider::Provider));
    let both = c.toggle(ConsumerProvider::Provider);
    assert_eq!(both.label(), "Consumer, Provider");
    assert_eq!(c.toggle(ConsumerProvider::Consumer), s);
}

#[test]
fn string_list_editing() {
    let v = add_empty(vec!["a".to_string()]);
    assert_eq!(v, vec!["a".to_string(), String::new()]);
    let v = replace_at(v, 1, "b".to_string());
    assert_eq!(v, vec!["a".to_string(), "b".to_string()]);
    let v = remove_at(v, 0);
    assert_eq!(v, vec!["b".to_string()]);
}

#[test]
fn asset_selection_checks_and_unchecks() {
    let a = AssetItem::from_catalog_dataset(&dataset("a", "A", &[], &[]));
    let b = AssetItem::from_catalog_dataset(&dataset("b", "B", &[], &[]));
    let selected = select_asset(vec![], a.clone(), CheckboxState::Checked);
    let selected = select_asset(selected, b.clone(), CheckboxState::Checked);
    let selected = select_asset(selected, a.clone(), CheckboxState::Checked);
    assert_eq!(selected.len(), 3);
    let selected = select_asset(selected, a.clone(), CheckboxState::Unchecked);
    assert_eq!(selected, vec![b.clone()]);
    let same = select_asset(selected.clone(), a, CheckboxState::Indeterminate);
    assert_eq!(same, selected);
}

#[test]
fn negotiation_progress() {
    let steps = negotiation_steps(&NegotiationState::Accepted);
    let names: Vec<&str> = steps.iter().map(|(n, _)| n.as_str()).collect();
    assert_eq!(names, vec!["Initial", "Requested", "Offered", "Accepted", "Agreed", "Verified", "Finalized"]);
    assert_eq!(steps[2].1, StepStatus::Success);
    assert_eq!(steps[3].1, StepStatus::Default);
    assert_eq!(steps[4].1, StepStatus::Pending);
    let done = negotiation_steps(&NegotiationState::Finalized);
    assert!(done.iter().all(|(_, s)| *s == StepStatus::Success));
}

#[test]
fn transfer_progress() {
    let steps = transfer_steps(&TransferState::Started);
    assert_eq!(steps.len(), 5);
    assert_eq!(steps[3].0, "Started");
    assert_eq!(steps[3].1, StepStatus::Default);
    assert_eq!(steps[4].1, StepStatus::Pending);
    assert_eq!(step_statuses(0, 3), vec![StepStatus::Default, StepStatus::Pending, StepStatus::Pending]);
    assert_eq!(step_statuses(2, 3), vec![StepStatus::Success, StepStatus::Success, StepStatus::Success]);
}

#[test]
fn watchers_stop_at_the_end() {
    assert_eq!(watch_negotiation(&Some(NegotiationState::Finalized)), WatchStep::ReportFinished);
    assert_eq!(watch_negotiation(&Some(NegotiationState::Terminated)), WatchStep::ReportFinished);
    assert_eq!(watch_negotiation(&Some(NegotiationState::Agreed)), WatchStep::KeepWatching);
    assert_eq!(watch_negotiation(&None), WatchStep::KeepWatching);
    assert_eq!(watch_transfer(&Some(TransferState::Started)), WatchStep::ReportStarted);
    assert_eq!(watch_transfer(&Some(TransferState::Completed)), WatchStep::ReportFinished);
    assert_eq!(watch_transfer(&Some(TransferState::Requested)), WatchStep::KeepWatching);
    assert_eq!(watch_credential_request(&Some(CredentialRequestState::Issued)), WatchStep::ReportFinished);
    assert_eq!(watch_credential_request(&Some(CredentialRequestState::Error)), WatchStep::ReportFinished);
    assert_eq!(watch_credential_request(&Some(CredentialRequestState::Issuing)), WatchStep::KeepWatching);
}

#[test]
fn status_panels_and_colors() {
    assert_eq!(status_panel(Some("boom".to_string()), true), StatusPanel::Failure("boom".to_string()));
    assert_eq!(status_panel(None, true), StatusPanel::Progress);
    assert_eq!(status_panel(None, false), StatusPanel::Empty);
    assert_eq!(negotiation_state_color("Finalized"), StateColor::Green);
    assert_eq!(negotiation_state_color("Terminated"), StateColor::Red);
    assert_eq!(negotiation_state_color("Requested"), StateColor::Blue);
}

#[test]
fn operator_texts() {
    assert_eq!(operator_label("http://www.w3.org/ns/odrl/2/eq"), "Equal");
    assert_eq!(operator_label("gteq"), "Greater than or equal");
    assert_eq!(operator_label("http://www.w3.org/ns/odrl/2/unknown"), "http://www.w3.org/ns/odrl/2/unknown");
    assert_eq!(operator_selector_label(&Term::Simple("isAnyOf".to_string())), "Is any of");
    assert_eq!(operator_selector_label(&Term::Simple("custom".to_string())), "custom");
    assert_eq!(operator_selector_label(&Term::Id("odrl:eq".to_string())), "odrl:eq");
    assert_eq!(atomic_title("http://www.w3.org/ns/odrl/2/use"), "use Constraint");
    assert_eq!(multiplicity_title("use"), "use Multiplicity Constraint");
    assert_eq!(ConstraintMode::Cel.label(), "CEL");
    assert_eq!(ConstraintMode::Default.label(), "Default");
    let choices = operator_choices();
    assert_eq!(choices[0], ("Equal".to_string(), "eq".to_string()));
}

#[test]
fn cel_constraint_choice() {
    let c = cel_constraint("membership".to_string());
    assert_eq!(c.mode, ConstraintMode::Cel);
    assert_eq!(c.left_operand, Term::Simple("membership".to_string()));
    assert_eq!(c.operator, Term::Simple("eq".to_string()));
    assert!(matches!(c.right_operand, JsonValue::Text(ref s) if s == "active"));
    let registered = vec![
        CommonExpressionLanguageItem {
            id: "1".to_string(),
            left_operand: "first".to_string(),
            description: None,
            scopes: vec![],
            expression: "true".to_string(),
        },
        CommonExpressionLanguageItem {
            id: "2".to_string(),
            left_operand: "second".to_string(),
            description: None,
            scopes: vec![],
            expression: "true".to_string(),
        },
    ];
    assert_eq!(default_cel_left_operand("", &registered), Some("first".to_string()));
    assert_eq!(default_cel_left_operand("second", &registered), None);
    assert_eq!(default_cel_left_operand("", &vec![]), None);
    assert_eq!(new_rule_action(), Term::Simple("use".to_string()));
}

#[test]
fn catalog_lists_every_dataset_with_its_offer() {
    let all = filtered_catalog_assets(&offers(), &None, &[]);
    let ids: Vec<&str> = all.iter().map(|(a, _)| a.id.as_str()).collect();
    assert_eq!(ids, vec!["d1", "d2", "d3"]);
    assert_eq!(
        all[2].1,
        SelectedFederatedCatalogOffer {
            originator: "https://b/protocol".to_string(),
            provider_id: "did:web:b".to_string(),
            dataset_id: "d3".to_string(),
        }
    );
    let creator = all[0].0.creator.clone().expect("creator");
    assert_eq!(creator.name, Some("ACME".to_string()));
    assert_eq!(all[0].0.version.as_ref().map(|v| v.major), Some(1));
}

#[test]
fn catalog_filters_by_search_and_type() {
    let weather = filtered_catalog_assets(&offers(), &Some("WEATHER".to_string()), &[]);
    let ids: Vec<&str> = weather.iter().map(|(a, _)| a.id.as_str()).collect();
    assert_eq!(ids, vec!["d1", "d3"]);
    let services = filtered_catalog_assets(&offers(), &None, &["service".to_string()]);
    let ids: Vec<&str> = services.iter().map(|(a, _)| a.id.as_str()).collect();
    assert_eq!(ids, vec!["d2"]);
    let none = filtered_catalog_assets(&offers(), &Some("weather".to_string()), &["service".to_string()]);
    assert!(none.is_empty());
}

#[test]
fn dataset_extra_fields_describe_an_asset() {
    let extra = DatasetExtraFields {
        name: "Name".to_string(),
        content_type: "application/json".to_string(),
        title: Some("Title".to_string()),
        description: Some("About".to_string()),
        version: Some("bad".to_string()),
        creator: None,
        thumbnail: Some(CatalogThumbnail { resource: "https://t".to_string() }),
        keywords: vec!["k".to_string()],
        dcterm_types: vec![],
    };
    let item = AssetItem::from_dataset_fields("ds", &extra);
    assert_eq!(item.id, "ds");
    assert_eq!(item.name, "Name");
    assert!(item.version.is_none());
    assert_eq!(item.description, Some("About".to_string()));
    assert_eq!(item.thumbnail.and_then(|t| t.resource), Some("https://t".to_string()));
    assert_eq!(item.base_url, "");
}

#[test]
fn catalog_context_holds_assets_and_offers() {
    let state = EdcFederatedCatalogAssetsContextState::new();
    assert!(state.asset_items().is_empty());
    let pairs = filtered_catalog_assets(&offers(), &None, &[]);
    let state = state.reduce(EdcFederatedCatalogAssetsAction::SetAssetsAndSelectedOffers(pairs.clone()));
    assert_eq!(state.asset_items().len(), 3);
    assert_eq!(state.selected_offers()[1], pairs[1].1);
    assert_eq!(state.asset("d2").map(|a| a.name.clone()), Some("Traffic".to_string()));
    assert!(state.asset("zzz").is_none());
    let a = AssetItem::from_catalog_dataset(&dataset("same", "First", &[], &[]));
    let b = AssetItem::from_catalog_dataset(&dataset("same", "Second", &[], &[]));
    let offer = pairs[0].1.clone();
    let state = state.reduce(EdcFederatedCatalogAssetsAction::SetAssetsAndSelectedOffers(vec![
        (a, offer.clone()),
        (b, offer),
    ]));
    assert_eq!(state.asset("same").map(|x| x.name.clone()), Some("First".to_string()));
    assert_eq!(state.asset_items().len(), 2);
}

#[test]
fn did_resolver_finds_the_first_participant() {
    let resolver = DidResolverState::new(vec![
        Participant { did: "did:web:a".to_string(), name: "Alpha".to_string(), logo: None },
        Participant { did: "did:web:a".to_string(), name: "Shadow".to_string(), logo: None },
    ]);
    assert_eq!(resolver.participant("did:web:a").map(|p| p.name.clone()), Some("Alpha".to_string()));
    assert!(resolver.participant("did:web:b").is_none());
}

#[test]
fn connection_settings() {
    let with_key = EdcConnectorState { management_url: "http://m".to_string(), api_key: Some("k".to_string()) };
    assert_eq!(with_key.auth(&None), ConnectorAuth::ApiToken("k".to_string()));
    assert_eq!(with_key.auth(&Some("t".to_string())), ConnectorAuth::BearerToken("t".to_string()));
    let without = EdcConnectorState { management_url: "http://m".to_string(), api_key: None };
    assert_eq!(without.auth(&None), ConnectorAuth::NoAuth);
    assert_eq!(EdcIdentityHubState::endpoint("https://me"), "https://me/identity-hub");
    let hub = EdcIdentityHubState::new("pid".to_string(), "did:web:me".to_string());
    assert_eq!(hub.participant_id(), "pid");
    assert_eq!(hub.participant_did(), "did:web:me");
    assert_eq!(federated_catalog_url("https://me", "/federated-catalog"), "https://me/federated-catalog");
    let mine = MyDidProviderState::new("did:web:me".to_string());
    assert_eq!(mine.my_did(), "did:web:me");
}
