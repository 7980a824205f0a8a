use edc_ui::identity::{
    credential_queries, credential_request, data_service_endpoint, did_web_url, is_offer_selected,
    issuer_service_endpoint, participant_address, select_credential, CredentialFormatKind, CredentialOffer,
    IdentityServiceEntry, ServiceKind,
};
use edc_ui::models::properties::{edited_value, JsonValue, PropertyMap};
use edc_ui::models::verifiable_credential::{created_at_text, credential_date_text, UtcTime};
use edc_ui::text::{ends_with_str, str_eq};
use edc_ui::ui::forms::{creation_error_lines, CreationFailure};
use edc_ui::ui::selection::CheckboxState;

fn offer(id: &str, credential_type: &str) -> CredentialOffer {
    CredentialOffer {
        id: id.to_string(),
        offer_type: "CredentialObject".to_string(),
        offer_reason: "reissue".to_string(),
        profile: "vc11-sl2021/jwt".to_string(),
        binding_methods: vec!["did:web".to_string()],
        credential_type: credential_type.to_string(),
        issuance_policy_id: "policy".to_string(),
    }
}

fn service(kind: ServiceKind, endpoint: &str) -> IdentityServiceEntry {
    IdentityServiceEntry { kind, endpoint: endpoint.to_string() }
}

#[test]
fn did_web_documents() {
    assert_eq!(
        did_web_url("did:web:w3c-ccg.github.io"),
        Some("https://w3c-ccg.github.io/.well-known/did.json".to_string())
    );
    assert_eq!(
        did_web_url("did:web:w3c-ccg.github.io:user:alice"),
        Some("https://w3c-ccg.github.io/user/alice/did.json".to_string())
    );
    assert_eq!(
        did_web_url("did:web:example.com%3A3000:user:alice"),
        Some("https://example.com:3000/user/alice/did.json".to_string())
    );
    assert_eq!(did_web_url("did:key:abc"), None);
    assert_eq!(did_web_url(""), None);
}

#[test]
fn services_of_an_identity() {
    let services = vec![
        service(ServiceKind::CatalogService, "https://p/catalog"),
        service(ServiceKind::IssuerService, "https://p/issuer"),
        service(ServiceKind::DataService, "https://p/dsp/.well-known/dspace-version"),
        service(ServiceKind::DataService, "https://p/other/.well-known/dspace-version"),
    ];
    assert_eq!(data_service_endpoint(&services), Some("https://p/dsp/.well-known/dspace-version".to_string()));
    assert_eq!(issuer_service_endpoint(&services), Some("https://p/issuer".to_string()));
    let not_discovery = vec![service(ServiceKind::DataService, "https://p/dsp")];
    assert_eq!(data_service_endpoint(&not_discovery), None);
    assert_eq!(issuer_service_endpoint(&not_discovery), None);
    let custom = vec![service(ServiceKind::Custom("Other".to_string()), "https://p/x")];
    assert_eq!(data_service_endpoint(&custom), None);
}

#[test]
fn participant_addresses() {
    let endpoint = "https://p/dsp/.well-known/dspace-version".to_string();
    let paths = vec!["/2025-1".to_string(), "/2024-1".to_string()];
    assert_eq!(participant_address(&endpoint, &paths), Some("https://p/dsp/2025-1".to_string()));
    assert_eq!(participant_address(&endpoint, &vec![]), None);
}

#[test]
fn credential_selection() {
    let a = offer("a", "MembershipCredential");
    let b = offer("b", "DataProcessorCredential");
    let selected = select_credential(vec![], a.clone(), CheckboxState::Checked);
    let selected = select_credential(selected, b.clone(), CheckboxState::Checked);
    let selected = select_credential(selected, a.clone(), CheckboxState::Checked);
    assert_eq!(selected.len(), 3);
    assert!(is_offer_selected(&selected, &a));
    let selected = select_credential(selected, a.clone(), CheckboxState::Unchecked);
    assert_eq!(selected, vec![b.clone()]);
    assert!(!is_offer_selected(&selected, &a));
    let mut other_reason = b.clone();
    other_reason.offer_reason = "new".to_string();
    let kept = select_credential(selected.clone(), other_reason, CheckboxState::Indeterminate);
    assert_eq!(kept, selected);
    let removed = select_credential(selected, b, CheckboxState::Indeterminate);
    assert!(removed.is_empty());
}

#[test]
fn credential_request_body() {
    let selected = vec![offer("a", "MembershipCredential"), offer("b", "DataProcessorCredential")];
    let queries = credential_queries(&selected);
    assert_eq!(queries.len(), 2);
    assert_eq!(queries[1].format, CredentialFormatKind::Vc10Jwt);
    assert_eq!(queries[1].credential_type, "DataProcessorCredential");
    assert_eq!(queries[1].id, "b");
    let request = credential_request(&"did:web:issuer".to_string(), "pid-1".to_string(), &selected);
    assert_eq!(request.issuer_did, "did:web:issuer");
    assert_eq!(request.holder_pid, "pid-1");
    assert_eq!(request.credentials, queries);
}

#[test]
fn edited_values_read_json_or_null() {
    assert!(matches!(edited_value("\"x\""), JsonValue::Text(ref s) if s == "x"));
    assert!(matches!(edited_value("true"), JsonValue::Bool(true)));
    assert!(matches!(edited_value("12.5"), JsonValue::Number(ref n) if n == "12.5"));
    assert!(matches!(edited_value("not json"), JsonValue::Null));
    assert!(matches!(edited_value(""), JsonValue::Null));
    match edited_value("{\"a\": [1, \"b\"]}") {
        JsonValue::Object(entries) => {
            assert_eq!(entries.len(), 1);
            assert_eq!(entries[0].0, "a");
            match &entries[0].1 {
                JsonValue::Array(items) => {
                    assert_eq!(items.len(), 2);
                    assert!(matches!(&items[1], JsonValue::Text(s) if s == "b"));
                },
                other => panic!("unexpected {:?}", other),
            }
        },
        other => panic!("unexpected {:?}", other),
    }
}

#[test]
fn blank_properties() {
    let mut map = PropertyMap::new();
    map.insert("a".to_string(), JsonValue::Bool(true));
    map.add_blank();
    assert!(matches!(map.get_raw(""), Some(JsonValue::Null)));
    assert!(matches!(map.get_raw("a"), Some(JsonValue::Bool(true))));
    map.insert(String::new(), JsonValue::Bool(false));
    map.add_blank();
    assert_eq!(map.entries.len(), 2);
    assert!(matches!(map.get_raw(""), Some(JsonValue::Null)));
}

#[test]
fn policy_creation_errors() {
    assert_eq!(creation_error_lines(CreationFailure::Raw("bad".to_string())), vec!["bad".to_string()]);
    assert_eq!(
        creation_error_lines(CreationFailure::Parsed(vec!["one".to_string(), "two".to_string()])),
        vec!["one".to_string(), "two".to_string()]
    );
    assert_eq!(creation_error_lines(CreationFailure::Parsed(vec![])), Vec::<String>::new());
    assert_eq!(creation_error_lines(CreationFailure::Other("Timeout".to_string())), vec!["Timeout".to_string()]);
}

#[test]
fn credential_dates() {
    assert_eq!(credential_date_text(&UtcTime { seconds: 1_700_000_000, nanos: 0 }), "2023-11-14 22:13:20");
    assert_eq!(credential_date_text(&UtcTime { seconds: i64::MAX, nanos: 0 }), "");
    assert_eq!(created_at_text(1_700_000_000_000), Some("2023-11-14 22:13:20".to_string()));
    assert_eq!(created_at_text(1_700_000_000), Some("1970-01-20 16:13:20".to_string()));
    assert_eq!(created_at_text(i64::MAX as u64), None);
}

#[test]
fn string_comparisons() {
    assert!(str_eq("äbc", "äbc"));
    assert!(!str_eq("abc", "abd"));
    assert!(!str_eq("ab", "abc"));
    assert!(ends_with_str("https://p/.well-known/dspace-version", "/.well-known/dspace-version"));
    assert!(!ends_with_str("/x", "/.well-known/dspace-version"));
    assert!(ends_with_str("abc", ""));
}
