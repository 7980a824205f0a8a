use edc_ui::models::asset_item::{AssetItem, AssetRecord};
use edc_ui::models::common_expression_language_item::CommonExpressionLanguageItem;
use edc_ui::models::consumer_provider::ConsumerProvider;
use edc_ui::models::contract_definition_item::ContractDefinitionItem;
use edc_ui::models::data_plane::{source_types, DataPlane, DataPlaneState};
use edc_ui::models::dataspace_dataset::{Creator, Thumbnail};
use edc_ui::models::datasource_types::{datasource_default, DataSourceTypes};
use edc_ui::models::policy_definition::PolicyKind;
use edc_ui::models::properties::{text_list, JsonValue, PropertyMap};
use edc_ui::models::verifiable_credential::{UtcTime, VerifiableCredential};
use edc_ui::models::version::{decimal_text, parse_version, Version};

fn text(s: &str) -> JsonValue {
    JsonValue::Text(s.to_string())
}

fn map(entries: Vec<(&str, JsonValue)>) -> PropertyMap {
    let mut m = PropertyMap::new();
    for (k, v) in entries {
        m.insert(k.to_string(), v);
    }
    m
}

fn sample_asset(id: &str, name: &str, description: Option<&str>, keywords: &[&str], types: &[&str]) -> AssetItem {
    AssetItem {
        id: id.to_string(),
        name: name.to_string(),
        version: None,
        description: description.map(|d| d.to_string()),
        creator: None,
        thumbnail: None,
        keywords: keywords.iter().map(|k| k.to_string()).collect(),
        dcterm_types: types.iter().map(|t| t.to_string()).collect(),
        base_url: String::new(),
        proxy_path: false,
        proxy_query_params: false,
        proxy_method: false,
        proxy_body: false,
        oauth2_client_id: String::new(),
        oauth2_client_secret_key: String::new(),
        oauth2_token_url: String::new(),
        oauth2_scope: String::new(),
    }
}

#[test]
fn datasource_default_lists_http_data() {
    let kinds = datasource_default();
    assert_eq!(kinds, vec![("HttpData".to_string(), "HttpData".to_string())]);
    assert_eq!(DataSourceTypes::all(), vec![DataSourceTypes::HttpData]);
    assert_eq!(DataSourceTypes::HttpData.name(), "HttpData");
}

#[test]
fn consumer_provider_names() {
    assert_eq!(ConsumerProvider::Consumer.name(), "Consumer");
    assert_eq!(ConsumerProvider::Provider.name(), "Provider");
}

#[test]
fn version_parses_and_prints() {
    let v = parse_version("1.2.3").expect("a semantic version");
    assert_eq!((v.major, v.minor, v.patch), (1, 2, 3));
    assert_eq!(v.text(), "1.2.3");
    let pre = parse_version("10.0.7-beta.1+build.5").expect("a semantic version");
    assert_eq!(pre.pre, "beta.1");
    assert_eq!(pre.build, "build.5");
    assert_eq!(pre.text(), "10.0.7-beta.1+build.5");
}

#[test]
fn version_refuses_non_semver() {
    assert!(parse_version("1.2").is_none());
    assert!(parse_version("").is_none());
    assert!(parse_version("v1.2.3").is_none());
}

#[test]
fn version_text_of_parts() {
    let v = Version { major: 0, minor: 40, patch: 1234, pre: String::new(), build: "x".to_string() };
    assert_eq!(v.text(), "0.40.1234+x");
    assert_eq!(decimal_text(0), "0");
    assert_eq!(decimal_text(18446744073709551615), "18446744073709551615");
}

#[test]
fn property_map_reads_back_what_was_written() {
    let mut m = PropertyMap::new();
    m.insert("a".to_string(), text("1"));
    m.insert("b".to_string(), text("2"));
    m.insert("a".to_string(), text("3"));
    assert_eq!(m.entries.len(), 2);
    assert_eq!(m.text("a"), Some("3".to_string()));
    assert_eq!(m.text("b"), Some("2".to_string()));
    assert_eq!(m.text("c"), None);
    assert_eq!(m.text_or_empty("c"), "");
}

#[test]
fn property_map_remove_and_rename() {
    let mut m = map(vec![("a", text("1")), ("b", JsonValue::Bool(true))]);
    let removed = m.remove("a");
    assert!(matches!(removed, Some(JsonValue::Text(ref s)) if s == "1"));
    assert!(m.get_raw("a").is_none());
    assert!(m.remove("a").is_none());
    m.rename("b", "c".to_string());
    assert!(m.get_raw("b").is_none());
    assert!(matches!(m.get_raw("c"), Some(JsonValue::Bool(true))));
    m.rename("missing", "d".to_string());
    assert_eq!(m.entries.len(), 1);
    assert!(m.get_raw("d").is_none());
}

#[test]
fn text_list_reads_arrays_of_strings_only() {
    let ok = JsonValue::Array(vec![text("x"), text("y")]);
    assert_eq!(text_list(&ok), Some(vec!["x".to_string(), "y".to_string()]));
    let mixed = JsonValue::Array(vec![text("x"), JsonValue::Null]);
    assert_eq!(text_list(&mixed), None);
    assert_eq!(text_list(&text("x")), None);
    assert_eq!(text_list(&JsonValue::Array(vec![])), Some(vec![]));
}

#[test]
fn asset_item_from_record() {
    let properties = map(vec![
        ("name", text("Weather")),
        ("http://www.w3.org/2000/01/rdf-schema#comment", text("Daily data")),
        ("http://www.w3.org/ns/dcat#version", text("2.0.1")),
        ("http://www.w3.org/ns/dcat#keyword", JsonValue::Array(vec![text("sun"), text("rain")])),
        ("http://purl.org/dc/terms/type", text("dataset")),
    ]);
    let data_address = map(vec![
        ("baseUrl", text("https://example.org/api")),
        ("proxyPath", text("true")),
        ("proxyBody", text("yes")),
        ("oauth2:scope", text("read")),
    ]);
    let creator = Some(Creator { name: Some("ACME".to_string()), thumbnail: None });
    let record = AssetRecord {
        id: "asset-1".to_string(),
        properties,
        data_address,
        creator: creator.clone(),
        thumbnail: Some(Thumbnail { resource: Some("https://example.org/t.png".to_string()) }),
    };
    let item = AssetItem::from_asset_record(record);
    assert_eq!(item.id, "asset-1");
    assert_eq!(item.name, "Weather");
    assert_eq!(item.description, Some("Daily data".to_string()));
    assert_eq!(item.version.as_ref().map(|v| (v.major, v.minor, v.patch)), Some((2, 0, 1)));
    assert_eq!(item.keywords, vec!["sun".to_string(), "rain".to_string()]);
    assert_eq!(item.dcterm_types, vec!["dataset".to_string()]);
    assert_eq!(item.base_url, "https://example.org/api");
    assert!(item.proxy_path);
    assert!(!item.proxy_query_params);
    assert!(!item.proxy_body);
    assert_eq!(item.oauth2_scope, "read");
    assert_eq!(item.oauth2_client_id, "");
    assert_eq!(item.creator, creator);
}

#[test]
fn asset_item_from_empty_record() {
    let record = AssetRecord {
        id: "x".to_string(),
        properties: PropertyMap::new(),
        data_address: PropertyMap::new(),
        creator: None,
        thumbnail: None,
    };
    let item = AssetItem::from_asset_record(record);
    assert_eq!(item.name, "");
    assert_eq!(item.description, None);
    assert!(item.version.is_none());
    assert!(item.keywords.is_empty());
    assert!(item.dcterm_types.is_empty());
}

#[test]
fn search_is_case_insensitive_over_name_description_keywords() {
    let item = sample_asset("1", "Weather Data", Some("Hourly RAIN levels"), &["Climate"], &[]);
    assert_eq!(item.search_text(), "weather data hourly rain levels climate ");
    assert!(item.is_filtered(&Some("RAIN".to_string()), &[]));
    assert!(item.is_filtered(&Some("climate".to_string()), &[]));
    assert!(!item.is_filtered(&Some("snow".to_string()), &[]));
    assert!(item.is_filtered(&None, &[]));
    let umlaut = sample_asset("2", "ÄPFEL", None, &[], &[]);
    assert!(umlaut.is_filtered(&Some("äpfel".to_string()), &[]));
    assert!(umlaut.is_filtered(&Some("ÄPF".to_string()), &[]));
}

#[test]
fn type_selection_filters_assets() {
    let item = sample_asset("1", "Weather", None, &[], &["dataset", "service"]);
    let types = vec!["service".to_string()];
    assert!(item.is_filtered(&None, &types));
    let other = vec!["api".to_string()];
    assert!(!item.is_filtered(&None, &other));
    let untyped = sample_asset("2", "Weather", None, &[], &[]);
    assert!(!untyped.is_filtered(&None, &types));
    assert!(!item.is_filtered(&Some("snow".to_string()), &types));
}

#[test]
fn asset_item_into_dataset() {
    let item = sample_asset("7", "Name", Some("Text"), &["k"], &["t"]);
    let dataset = item.clone().into_dataspace_dataset();
    assert_eq!(dataset.id, "7");
    assert_eq!(dataset.title, "Name");
    assert_eq!(dataset.comment, Some("Text".to_string()));
    assert_eq!(dataset.keywords, vec!["k".to_string()]);
    assert_eq!(dataset.dcterm_types, vec!["t".to_string()]);
    assert!(dataset.policies.is_empty());
}

#[test]
fn cel_item_texts() {
    let item = CommonExpressionLanguageItem {
        id: "id".to_string(),
        left_operand: "membership".to_string(),
        description: None,
        scopes: vec!["catalog".to_string(), "transfer.process".to_string()],
        expression: "true".to_string(),
    };
    assert_eq!(item.scopes_text(), "catalog, transfer.process");
    assert_eq!(item.description_text(), "");
}

#[test]
fn contract_definition_item_reads_asset_ids() {
    let operands = vec![text("a-1"), JsonValue::Null, text("a-2")];
    let item = ContractDefinitionItem::from_parts("cd".to_string(), "ap".to_string(), "cp".to_string(), &operands);
    assert_eq!(item.asset_ids, vec!["a-1".to_string(), "Invalid asset id.".to_string(), "a-2".to_string()]);
    assert_eq!(item.access_policy_id, "ap");
}

#[test]
fn data_plane_labels_and_source_types() {
    assert_eq!(DataPlaneState::Available.label(), "Available");
    assert_eq!(DataPlaneState::Other("Strange".to_string()).label(), "Strange");
    let plane = |types: &[&str]| DataPlane {
        id: "dp".to_string(),
        url: "http://dp".to_string(),
        allowed_source_types: types.iter().map(|t| t.to_string()).collect(),
        allowed_dest_types: vec![],
        allowed_transfer_types: vec![],
        state: DataPlaneState::Registered,
    };
    let planes = vec![plane(&["HttpData", "AmazonS3"]), plane(&[]), plane(&["HttpData"])];
    assert_eq!(
        source_types(&planes),
        vec!["HttpData".to_string(), "AmazonS3".to_string(), "HttpData".to_string()]
    );
}

#[test]
fn policy_kind_labels() {
    assert_eq!(PolicyKind::SetPolicy.label(), "Set");
    assert_eq!(PolicyKind::Offer.label(), "Offer");
    assert_eq!(PolicyKind::Agreement.label(), "Agreement");
}

#[test]
fn credential_times_keep_their_unsigned_reading() {
    let t = UtcTime { seconds: 1_700_000_000, nanos: 5 };
    let vc = VerifiableCredential::from_parts(
        "vc".to_string(),
        1_700_000_000,
        -1,
        "issuer".to_string(),
        "holder".to_string(),
        t,
        t,
    );
    assert_eq!(vc.created_at, 1_700_000_000);
    assert_eq!(vc.timestamp, u64::MAX);
    assert_eq!(vc.issuance_date, t);
}
