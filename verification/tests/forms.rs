use edc_ui::contexts::{DidResolverState, MyDidProviderState};
use edc_ui::models::asset_item::AssetItem;
use edc_ui::models::dataspace_dataset::{Creator, DataspaceDataset, Thumbnail};
use edc_ui::models::participant::Participant;
use edc_ui::models::properties::{text_list, JsonValue};
use edc_ui::models::version::parse_version;
use edc_ui::text::replace_all;
use edc_ui::ui::forms::{
    cel_draft, contract_definition_disabled, contract_definition_draft, expression_outcome, non_empty,
    participant_target_url, policy_target, request_disabled, validate_expression, validate_version, version_outcome,
    AssetForm, InputState, Issuer, PolicyTarget, issuer_label,
};
use edc_ui::ui::labels::{
    asset_reference_label, dataset_card, did_label, logo_style, policy_reference_label, preview_kind, PreviewKind,
};

fn filled_form() -> AssetForm {
    let mut form = AssetForm::new(&Some("ACME".to_string()), &None);
    form.name = "Weather".to_string();
    form.version = "1.0.0".to_string();
    form.base_url = "https://acme/api".to_string();
    form
}

#[test]
fn expression_validation_outcomes() {
    let untouched = validate_expression(true, "");
    assert_eq!(untouched.state, InputState::Default);
    assert_eq!(untouched.message, None);
    let empty = validate_expression(false, "");
    assert_eq!(empty.state, InputState::Error);
    assert_eq!(empty.message, Some("Must not be empty".to_string()));
    let good = validate_expression(false, "ctx.agent.id == 'x'");
    assert_eq!(good.state, InputState::Success);
    assert_eq!(good.message, Some(String::new()));
    let bad = validate_expression(false, "1 +");
    assert_eq!(bad.state, InputState::Error);
    assert!(bad.message.map(|m| !m.is_empty()).unwrap_or(false));
}

#[test]
fn expression_outcome_follows_the_compiler() {
    let ok = expression_outcome(false, "x", None);
    assert_eq!((ok.state, ok.message), (InputState::Success, Some(String::new())));
    let err = expression_outcome(false, "x", Some("line 1: oops".to_string()));
    assert_eq!((err.state, err.message), (InputState::Error, Some("line 1: oops".to_string())));
    let initial = expression_outcome(true, "x", Some("ignored".to_string()));
    assert_eq!((initial.state, initial.message), (InputState::Default, None));
}

#[test]
fn version_validation_outcomes() {
    let untouched = validate_version(true, "nonsense");
    assert_eq!((untouched.state, untouched.message), (InputState::Default, None));
    let empty = validate_version(false, "");
    assert_eq!(empty.message, Some("Must not be empty".to_string()));
    let ok = validate_version(false, "1.2.3");
    assert_eq!((ok.state, ok.message), (InputState::Default, None));
    let bad = validate_version(false, "1.2");
    assert_eq!(bad.state, InputState::Error);
    assert_eq!(bad.message, Some("Not a semantic versioning format (MAJOR.MINOR.PATCH)".to_string()));
    let refused = version_outcome(false, "x", false);
    assert_eq!(refused.state, InputState::Error);
}

#[test]
fn cel_draft_collects_scopes() {
    let extra = vec!["custom".to_string()];
    let draft = cel_draft(
        &String::new(),
        &"membership".to_string(),
        true,
        false,
        true,
        &extra,
        &"true".to_string(),
        &"desc".to_string(),
    );
    assert_eq!(draft.id, None);
    assert_eq!(draft.scopes, vec!["custom".to_string(), "catalog".to_string(), "transfer.process".to_string()]);
    assert_eq!(draft.left_operand, "membership");
    let with_id = cel_draft(&"id-1".to_string(), &"l".to_string(), false, true, false, &vec![], &"e".to_string(), &String::new());
    assert_eq!(with_id.id, Some("id-1".to_string()));
    assert_eq!(with_id.scopes, vec!["contract.negotiation".to_string()]);
}

#[test]
fn asset_form_defaults_and_send_button() {
    let form = AssetForm::new(&None, &Some("https://acme/logo.png".to_string()));
    assert_eq!(form.company_name, "");
    assert_eq!(form.company_logo_url, "https://acme/logo.png");
    assert_eq!(form.content_type, "application/json");
    assert!(form.disabled());
    assert!(!filled_form().disabled());
}

#[test]
fn asset_form_data_address() {
    let mut form = filled_form();
    form.proxy_path = true;
    form.headers = vec![("Authorization".to_string(), "secret".to_string())];
    let address = form.data_address();
    assert_eq!(address.kind, "HttpData");
    let expected: Vec<(String, String)> = vec![
        ("baseUrl", "https://acme/api"),
        ("proxyPath", "true"),
        ("proxyQueryParams", "false"),
        ("proxyMethod", "false"),
        ("proxyBody", "false"),
        ("header:Authorization", "secret"),
    ]
    .into_iter()
    .map(|(k, v)| (k.to_string(), v.to_string()))
    .collect();
    assert_eq!(address.properties, expected);
}

#[test]
fn asset_form_properties() {
    let mut form = filled_form();
    form.company_logo_url = "https://acme/logo.png".to_string();
    let props = form.asset_properties();
    assert_eq!(props.text("name"), Some("Weather".to_string()));
    assert_eq!(props.text("http://purl.org/dc/terms/title"), Some("Weather".to_string()));
    assert_eq!(props.text("http://www.w3.org/ns/dcat#version"), Some("1.0.0".to_string()));
    assert_eq!(props.text("contenttype"), Some("application/json".to_string()));
    assert!(props.get_raw("http://www.w3.org/2000/01/rdf-schema#comment").is_none());
    assert!(props.get_raw("http://xmlns.com/foaf/0.1/thumbnail").is_none());
    assert!(props.get_raw("http://www.w3.org/ns/dcat#keyword").is_none());
    match props.get_raw("http://purl.org/dc/terms/creator") {
        Some(JsonValue::Object(entries)) => {
            assert_eq!(entries.len(), 3);
            assert_eq!(entries[0].0, "@type");
            assert_eq!(
                text_list(&entries[0].1),
                Some(vec!["http://xmlns.com/foaf/0.1/Organization".to_string(), "http://www.w3.org/ns/prov#Agent".to_string()])
            );
            assert!(matches!(&entries[1].1, JsonValue::Text(n) if n == "ACME"));
        },
        other => panic!("unexpected creator {:?}", other),
    }

    form.name = String::new();
    form.description = "About".to_string();
    form.thumbnail_url = "https://acme/t.png".to_string();
    form.keywords = vec!["a".to_string(), "b".to_string()];
    let props = form.asset_properties();
    assert!(props.get_raw("http://purl.org/dc/terms/title").is_none());
    assert_eq!(props.text("http://www.w3.org/2000/01/rdf-schema#comment"), Some("About".to_string()));
    let keywords = props.get_raw("http://www.w3.org/ns/dcat#keyword").expect("keywords");
    assert_eq!(text_list(keywords), Some(vec!["a".to_string(), "b".to_string()]));
    assert!(props.get_raw("http://xmlns.com/foaf/0.1/thumbnail").is_some());
    assert_eq!(props.entries.len(), 7);
}

#[test]
fn asset_form_preview() {
    let mut form = filled_form();
    form.description = "About".to_string();
    form.company_logo_url = "https://acme/logo.png".to_string();
    let preview = form.preview();
    assert_eq!(preview.title, "Weather");
    assert_eq!(preview.version.as_ref().map(|v| v.text()), Some("1.0.0".to_string()));
    assert_eq!(preview.comment, Some("About".to_string()));
    assert_eq!(preview.thumbnail, None);
    assert_eq!(
        preview.creator,
        Some(Creator { name: None, thumbnail: Some(Thumbnail { resource: Some("https://acme/logo.png".to_string()) }) })
    );
    form.version = "one".to_string();
    assert!(form.preview().version.is_none());
}

#[test]
fn optional_fields_and_targets() {
    assert_eq!(non_empty(&String::new()), None);
    assert_eq!(non_empty(&"x".to_string()), Some("x".to_string()));
    assert!(policy_target(true, &String::new()).is_none());
    assert!(matches!(policy_target(true, &"t".to_string()), Some(PolicyTarget::Simple(ref t)) if t == "t"));
    assert!(matches!(policy_target(false, &"t".to_string()), Some(PolicyTarget::Id(ref t)) if t == "t"));
}

#[test]
fn contract_definition_form() {
    let asset = |id: &str| {
        let mut a = AssetItem::from_dataset_fields(
            id,
            &edc_ui::models::dataset_extra_fields::DatasetExtraFields {
                name: id.to_string(),
                content_type: String::new(),
                title: None,
                description: None,
                version: None,
                creator: None,
                thumbnail: None,
                keywords: vec![],
                dcterm_types: vec![],
            },
        );
        a.name = id.to_uppercase();
        a
    };
    let draft = contract_definition_draft(&"cd-1".to_string(), &None, &None, &vec![asset("a"), asset("b")]);
    assert_eq!(draft.id, "cd-1");
    assert_eq!(draft.access_policy_id, "");
    assert_eq!(draft.assets_selector.len(), 2);
    assert_eq!(draft.assets_selector[1].operand_left, "https://w3id.org/edc/v0.0.1/ns/id");
    assert_eq!(draft.assets_selector[1].operator, "=");
    assert_eq!(draft.assets_selector[1].operand_right, "b");
    assert!(contract_definition_disabled(&"cd-1".to_string(), &None, &None));
    assert!(contract_definition_disabled(&String::new(), &None, &None));
}

#[test]
fn participant_address_uses_the_protocol_path() {
    assert_eq!(
        participant_target_url("https://p.example/api/dsp/.well-known/dspace-version", "/2025-1"),
        "https://p.example/api/dsp/2025-1"
    );
    assert_eq!(participant_target_url("https://p.example/api/dsp", "/2025-1"), "https://p.example/api/dsp");
}

#[test]
fn issuer_menu_and_request_button() {
    let issuers = vec![
        Issuer { did: "did:web:i1".to_string(), name: "Issuer One".to_string() },
        Issuer { did: "did:web:i2".to_string(), name: "Issuer Two".to_string() },
    ];
    assert_eq!(issuer_label(&issuers, "did:web:i2"), "Issuer Two");
    assert_eq!(issuer_label(&issuers, ""), "Select an issuer");
    let twice = vec![
        Issuer { did: "did:web:i".to_string(), name: "First".to_string() },
        Issuer { did: "did:web:i".to_string(), name: "Second".to_string() },
    ];
    assert_eq!(issuer_label(&twice, "did:web:i"), "First");
    assert!(request_disabled(&String::new(), 1, false));
    assert!(request_disabled(&"did:web:i1".to_string(), 0, false));
    assert!(request_disabled(&"did:web:i1".to_string(), 1, true));
    assert!(!request_disabled(&"did:web:i1".to_string(), 1, false));
}

#[test]
fn did_labels() {
    let resolver = Some(DidResolverState::new(vec![Participant {
        did: "did:web:a".to_string(),
        name: "Alpha".to_string(),
        logo: Some("https://a/logo.png".to_string()),
    }]));
    let mine = Some(MyDidProviderState::new("did:web:a".to_string()));
    let known = did_label(&"did:web:a".to_string(), &resolver, &mine);
    assert_eq!(known.label, "Alpha");
    assert_eq!(known.logo, Some("https://a/logo.png".to_string()));
    assert!(known.is_mine);
    let unknown = did_label(&"did:web:z".to_string(), &resolver, &mine);
    assert_eq!(unknown.label, "did:web:z");
    assert_eq!(unknown.logo, None);
    assert!(!unknown.is_mine);
    let no_directory = did_label(&"did:web:a".to_string(), &None, &None);
    assert_eq!(no_directory.label, "did:web:a");
}

#[test]
fn logo_styles() {
    assert_eq!(logo_style("250px", &None), "height: 250px; width: auto; object-fit: contain;");
    assert_eq!(logo_style("24px", &Some("24px".to_string())), "height: 24px; width: 24px; object-fit: contain;");
}

#[test]
fn reference_labels() {
    assert_eq!(asset_reference_label(&None, &"asset-9".to_string()), "asset-9");
    assert_eq!(policy_reference_label(&None), "Policy");
}

#[test]
fn dataset_cards() {
    let dataset = DataspaceDataset {
        id: "d".to_string(),
        title: "Weather".to_string(),
        version: parse_version("2.1.0-rc.1"),
        comment: None,
        thumbnail: Some(Thumbnail { resource: Some("https://t".to_string()) }),
        creator: Some(Creator { name: Some("ACME".to_string()), thumbnail: Some(Thumbnail { resource: None }) }),
        keywords: vec![],
        policies: vec![],
        dcterm_types: vec![],
    };
    let card = dataset_card(&dataset);
    assert_eq!(card.title, "Weather");
    assert_eq!(card.version, "2.1.0-rc.1");
    assert_eq!(card.comment, "");
    assert_eq!(card.thumbnail, Some("https://t".to_string()));
    assert_eq!(card.provider_logo, None);
}

#[test]
fn landing_page_previews() {
    assert_eq!(preview_kind(&None), PreviewKind::Page);
    assert_eq!(preview_kind(&Some("text/html".to_string())), PreviewKind::Page);
    assert_eq!(preview_kind(&Some("video/webm".to_string())), PreviewKind::Video);
    assert_eq!(preview_kind(&Some("text/html; charset=utf-8".to_string())), PreviewKind::Other);
    assert_eq!(preview_kind(&Some(String::new())), PreviewKind::Other);
}

#[test]
fn text_helpers() {
    assert_eq!(replace_all("a-b-c", "-", "+"), "a+b+c");
    assert_eq!(replace_all("aaa", "aa", "b"), "ba");
}
