//! What the creation forms check while they are filled in, and what they send.

use vstd::prelude::*;
use crate::text::{opt_view, views, clone_strings};
use crate::models::version::{parse_version, semver_parse};
use crate::models::properties::{JsonValue, PropertyMap, as_text, as_text_list, all_text, texts};
use crate::models::asset_item::AssetItem;
use crate::models::policy_definition::PolicyDefinitionItem;
use crate::text::{replace_all, replace_seq, str_eq};
use crate::models::dataspace_dataset::{Creator, CreatorView, DataspaceDataset, Thumbnail, creator_view, thumbnail_view};

verus! {

/// How an input field is shown after validation.
#[derive(Clone, Copy, Debug, PartialEq, Eq, Structural)]
pub enum InputState {
    Default,
    Success,
    Warning,
    Error,
}

/// The outcome of validating a field: its state and the message shown under it.
#[derive(Clone, Debug)]
pub struct Validation {
    pub state: InputState,
    pub message: Option<String>,
}

impl View for Validation {
    type V = (InputState, Option<Seq<char>>);

    open spec fn view(&self) -> (InputState, Option<Seq<char>>) {
        (self.state, opt_view(self.message))
    }
}

impl Validation {
    /// A field that has nothing to report.
    pub fn neutral() -> (res: Self)
        ensures
            res@ == (InputState::Default, None::<Seq<char>>),
    {
        Validation { state: InputState::Default, message: None }
    }

    /// A field in error, with `message` shown under it.
    pub fn error(message: String) -> (res: Self)
        ensures
            res@ == (InputState::Error, Some(message@)),
    {
        Validation { state: InputState::Error, message: Some(message) }
    }
}

/// The message shown under a required field that was left empty.
pub open spec fn empty_message() -> Seq<char> {
    "Must not be empty"@
}

/// The message shown under a version that does not follow semantic versioning.
pub open spec fn not_semver_message() -> Seq<char> {
    "Not a semantic versioning format (MAJOR.MINOR.PATCH)"@
}

/// What `cel::Program::compile` reports for `source`: `None` when it compiles, else the text
/// of its parse errors, one per line.
pub uninterp spec fn cel_compile_errors(source: Seq<char>) -> Option<Seq<char>>;

/// Calls `cel::Program::compile`. The contract names its outcome (`cel_compile_errors`): the
/// CEL grammar that decides it, and the wording of its errors, are not written out here.
#[verifier::external_body]
fn cel_compile(source: &str) -> (res: Option<String>)
    ensures
        opt_view(res) == cel_compile_errors(source@),
{
    match cel::Program::compile(source) {
        Ok(_) => None,
        Err(errors) => Some(errors.to_string()),
    }
}

/// How the expression field of a CEL entry is shown: nothing before the first edit, an error
/// when it is empty, otherwise success when it compiles and its errors when it does not.
pub open spec fn expression_validation(
    initial: bool,
    value: Seq<char>,
    errors: Option<Seq<char>>,
) -> (InputState, Option<Seq<char>>) {
    if initial {
        (InputState::Default, None)
    } else if value.len() == 0 {
        (InputState::Error, Some(empty_message()))
    } else {
        match errors {
            None => (InputState::Success, Some(Seq::empty())),
            Some(e) => (InputState::Error, Some(e)),
        }
    }
}

/// The validation of an expression field, given what compiling `value` reported.
pub fn expression_outcome(initial: bool, value: &str, errors: Option<String>) -> (res: Validation)
    ensures
        res@ == expression_validation(initial, value@, opt_view(errors)),
{
    proof {
        reveal_strlit("Must not be empty");
        reveal_strlit("");
    }
    if initial {
        Validation::neutral()
    } else if value.is_empty() {
        Validation::error("Must not be empty".to_string())
    } else {
        match errors {
            None => Validation { state: InputState::Success, message: Some("".to_string()) },
            Some(e) => Validation::error(e),
        }
    }
}

/// Validates the expression field of a CEL entry; the expression is compiled only when the
/// field was edited and is not empty.
pub fn validate_expression(initial: bool, value: &str) -> (res: Validation)
    ensures
        res@ == expression_validation(initial, value@, cel_compile_errors(value@)),
{
    if initial || value.is_empty() {
        expression_outcome(initial, value, None)
    } else {
        let errors = cel_compile(value);
        expression_outcome(initial, value, errors)
    }
}

/// How the version field of an asset is shown: nothing before the first edit, an error when
/// it is empty or not a semantic version, and nothing to report otherwise.
pub open spec fn version_validation(initial: bool, value: Seq<char>, is_semver: bool) -> (InputState, Option<Seq<char>>) {
    if initial {
        (InputState::Default, None)
    } else if value.len() == 0 {
        (InputState::Error, Some(empty_message()))
    } else if is_semver {
        (InputState::Default, None)
    } else {
        (InputState::Error, Some(not_semver_message()))
    }
}

/// The validation of a version field, given whether `value` parses as a semantic version.
pub fn version_outcome(initial: bool, value: &str, is_semver: bool) -> (res: Validation)
    ensures
        res@ == version_validation(initial, value@, is_semver),
{
    if initial {
        Validation::neutral()
    } else if value.is_empty() {
        Validation::error("Must not be empty".to_string())
    } else if is_semver {
        Validation::neutral()
    } else {
        Validation::error("Not a semantic versioning format (MAJOR.MINOR.PATCH)".to_string())
    }
}

/// Validates the version field of an asset.
pub fn validate_version(initial: bool, value: &str) -> (res: Validation)
    ensures
        res@ == version_validation(initial, value@, semver_parse(value@) is Some),
{
    let parsed = parse_version(value);
    version_outcome(initial, value, parsed.is_some())
}

/// `None` for an empty text, the text otherwise: how optional fields are sent.
pub open spec fn unless_empty(s: Seq<char>) -> Option<Seq<char>> {
    if s.len() == 0 { None } else { Some(s) }
}

/// The text of an optional field as it is sent: `None` when it was left empty.
pub fn non_empty(value: &String) -> (res: Option<String>)
    ensures
        opt_view(res) == unless_empty(value@),
{
    if value.as_str().is_empty() {
        None
    } else {
        Some(value.clone())
    }
}

/// A new CEL entry as it is sent to the connector.
#[derive(Clone, Debug)]
pub struct CelDraft {
    pub id: Option<String>,
    pub left_operand: String,
    pub expression: String,
    pub description: String,
    pub scopes: Vec<String>,
}

/// The scopes of a new CEL entry: the extra scopes as entered, then `catalog`,
/// `contract.negotiation` and `transfer.process` for the boxes that are ticked, in that order.
pub open spec fn cel_scopes(catalog: bool, negotiation: bool, transfer: bool, extra: Seq<Seq<char>>) -> Seq<Seq<char>> {
    let a = if catalog { extra.push("catalog"@) } else { extra };
    let b = if negotiation { a.push("contract.negotiation"@) } else { a };
    if transfer { b.push("transfer.process"@) } else { b }
}

/// The CEL entry that the form sends: without an id when the identifier was left empty.
pub fn cel_draft(
    identifier: &String,
    left_operand: &String,
    catalog: bool,
    negotiation: bool,
    transfer: bool,
    extra_scopes: &Vec<String>,
    expression: &String,
    description: &String,
) -> (res: CelDraft)
    ensures
        opt_view(res.id) == unless_empty(identifier@),
        res.left_operand@ == left_operand@,
        res.expression@ == expression@,
        res.description@ == description@,
        views(res.scopes@) == cel_scopes(catalog, negotiation, transfer, views(extra_scopes@)),
{
    let mut scopes = clone_strings(extra_scopes);
    let ghost start = views(scopes@);
    if catalog {
        let ghost before = scopes@;
        scopes.push("catalog".to_string());
        assert(views(scopes@) =~= views(before).push("catalog"@));
    }
    let ghost mid1 = views(scopes@);
    assert(mid1 == (if catalog { start.push("catalog"@) } else { start }));
    if negotiation {
        let ghost before = scopes@;
        scopes.push("contract.negotiation".to_string());
        assert(views(scopes@) =~= views(before).push("contract.negotiation"@));
    }
    let ghost mid2 = views(scopes@);
    assert(mid2 == (if negotiation { mid1.push("contract.negotiation"@) } else { mid1 }));
    if transfer {
        let ghost before = scopes@;
        scopes.push("transfer.process".to_string());
        assert(views(scopes@) =~= views(before).push("transfer.process"@));
    }
    CelDraft {
        id: non_empty(identifier),
        left_operand: left_operand.clone(),
        expression: expression.clone(),
        description: description.clone(),
        scopes,
    }
}

/// A JSON array holding the given strings, in order.
pub fn text_array(items: &Vec<String>) -> (res: JsonValue)
    ensures
        as_text_list(res) == Some(views(items@)),
{
    let mut out: Vec<JsonValue> = Vec::new();
    let mut i: usize = 0;
    while i < items.len()
        invariant
            i <= items.len(),
            out@.len() == i,
            forall|k: int| 0 <= k < i ==> ((#[trigger] out@[k]) matches JsonValue::Text(s) && s@ == items@[k]@),
        decreases items.len() - i,
    {
        out.push(JsonValue::Text(items[i].clone()));
        i += 1;
    }
    assert(all_text(out@));
    assert(texts(out@) =~= views(items@));
    JsonValue::Array(out)
}

/// `v` is present and is the string `t`.
pub open spec fn is_text(v: Option<JsonValue>, t: Seq<char>) -> bool {
    v matches Some(JsonValue::Text(s)) && s@ == t
}

/// `v` is an image reference `{"rdf:resource": url}`.
pub open spec fn is_resource(v: JsonValue, url: Seq<char>) -> bool {
    v matches JsonValue::Object(e) && e@.len() == 1 && e@[0].0@ == "rdf:resource"@ && as_text(e@[0].1) == Some(url)
}

/// `v` describes the providing organisation: its types, its name and its logo.
pub open spec fn is_creator(v: JsonValue, name: Seq<char>, logo_url: Seq<char>) -> bool {
    v matches JsonValue::Object(e) && e@.len() == 3
        && e@[0].0@ == "@type"@
        && as_text_list(e@[0].1) == Some(seq!["http://xmlns.com/foaf/0.1/Organization"@, "http://www.w3.org/ns/prov#Agent"@])
        && e@[1].0@ == "http://xmlns.com/foaf/0.1/name"@
        && as_text(e@[1].1) == Some(name)
        && e@[2].0@ == "http://xmlns.com/foaf/0.1/thumbnail"@
        && is_resource(e@[2].1, logo_url)
}

/// An image reference to `url`.
fn resource_value(url: &String) -> (res: JsonValue)
    ensures
        is_resource(res, url@),
{
    let mut e: Vec<(String, JsonValue)> = Vec::new();
    e.push(("rdf:resource".to_string(), JsonValue::Text(url.clone())));
    JsonValue::Object(e)
}

/// The description of the providing organisation.
fn creator_value(name: &String, logo_url: &String) -> (res: JsonValue)
    ensures
        is_creator(res, name@, logo_url@),
{
    let types = vec!["http://xmlns.com/foaf/0.1/Organization".to_string(), "http://www.w3.org/ns/prov#Agent".to_string()];
    let type_list = text_array(&types);
    assert(views(types@) =~= seq!["http://xmlns.com/foaf/0.1/Organization"@, "http://www.w3.org/ns/prov#Agent"@]);
    let mut e: Vec<(String, JsonValue)> = Vec::new();
    e.push(("@type".to_string(), type_list));
    e.push(("http://xmlns.com/foaf/0.1/name".to_string(), JsonValue::Text(name.clone())));
    e.push(("http://xmlns.com/foaf/0.1/thumbnail".to_string(), resource_value(logo_url)));
    JsonValue::Object(e)
}

/// The entries of the form that creates an asset.
#[derive(Clone, Debug, PartialEq)]
pub struct AssetForm {
    pub name: String,
    pub version: String,
    pub description: String,
    pub thumbnail_url: String,
    pub keywords: Vec<String>,
    pub base_url: String,
    pub company_name: String,
    pub company_logo_url: String,
    pub content_type: String,
    pub proxy_path: bool,
    pub proxy_query_params: bool,
    pub proxy_method: bool,
    pub proxy_body: bool,
    pub headers: Vec<(String, String)>,
}

/// The text of an optional value, empty when there is none.
pub open spec fn or_default(o: Option<Seq<char>>) -> Seq<char> {
    match o {
        Some(s) => s,
        None => Seq::empty(),
    }
}

/// The text of a switch as a data address holds it.
pub open spec fn flag_text(b: bool) -> Seq<char> {
    if b { "true"@ } else { "false"@ }
}

/// The texts of a list of pairs of strings.
pub open spec fn pair_views(s: Seq<(String, String)>) -> Seq<(Seq<char>, Seq<char>)> {
    s.map_values(|p: (String, String)| (p.0@, p.1@))
}

/// The properties of the data address of a new asset: its base URL, its four proxy switches,
/// then one `header:`-prefixed property per header.
pub open spec fn data_address_properties(f: AssetForm) -> Seq<(Seq<char>, Seq<char>)> {
    seq![
        ("baseUrl"@, f.base_url@),
        ("proxyPath"@, flag_text(f.proxy_path)),
        ("proxyQueryParams"@, flag_text(f.proxy_query_params)),
        ("proxyMethod"@, flag_text(f.proxy_method)),
        ("proxyBody"@, flag_text(f.proxy_body)),
    ] + f.headers@.map_values(|h: (String, String)| ("header:"@ + h.0@, h.1@))
}

/// The data address of a new asset: its kind and its properties.
#[derive(Clone, Debug)]
pub struct DataAddressDraft {
    pub kind: String,
    pub properties: Vec<(String, String)>,
}

fn flag(b: bool) -> (res: String)
    ensures
        res@ == flag_text(b),
{
    if b { "true".to_string() } else { "false".to_string() }
}

/// The property keys of an asset that the form fills.
pub open spec fn asset_property_keys() -> Seq<Seq<char>> {
    seq![
        "name"@,
        "http://www.w3.org/ns/dcat#version"@,
        "contenttype"@,
        "http://purl.org/dc/terms/creator"@,
        "http://purl.org/dc/terms/title"@,
        "http://www.w3.org/2000/01/rdf-schema#comment"@,
        "http://xmlns.com/foaf/0.1/thumbnail"@,
        "http://www.w3.org/ns/dcat#keyword"@,
    ]
}

impl AssetForm {
    /// An empty form; the company fields start from what the console was configured with.
    pub fn new(company_name: &Option<String>, company_logo_url: &Option<String>) -> (res: Self)
        ensures
            res.name@.len() == 0,
            res.version@.len() == 0,
            res.description@.len() == 0,
            res.thumbnail_url@.len() == 0,
            res.keywords@.len() == 0,
            res.base_url@.len() == 0,
            res.company_name@ == or_default(opt_view(*company_name)),
            res.company_logo_url@ == or_default(opt_view(*company_logo_url)),
            res.content_type@ == "application/json"@,
            !res.proxy_path && !res.proxy_query_params && !res.proxy_method && !res.proxy_body,
            res.headers@.len() == 0,
    {
        let company_name = match company_name {
            Some(n) => n.clone(),
            None => String::new(),
        };
        let company_logo_url = match company_logo_url {
            Some(u) => u.clone(),
            None => String::new(),
        };
        AssetForm {
            name: String::new(),
            version: String::new(),
            description: String::new(),
            thumbnail_url: String::new(),
            keywords: Vec::new(),
            base_url: String::new(),
            company_name,
            company_logo_url,
            content_type: "application/json".to_string(),
            proxy_path: false,
            proxy_query_params: false,
            proxy_method: false,
            proxy_body: false,
            headers: Vec::new(),
        }
    }

    /// The form cannot be sent while the name or the base URL is empty.
    pub fn disabled(&self) -> (res: bool)
        ensures
            res == (self.name@.len() == 0 || self.base_url@.len() == 0),
    {
        self.name.as_str().is_empty() || self.base_url.as_str().is_empty()
    }

    /// The data address of the new asset: kind `HttpData` and its properties.
    pub fn data_address(&self) -> (res: DataAddressDraft)
        ensures
            res.kind@ == "HttpData"@,
            pair_views(res.properties@) == data_address_properties(*self),
    {
        let mut props: Vec<(String, String)> = Vec::new();
        props.push(("baseUrl".to_string(), self.base_url.clone()));
        props.push(("proxyPath".to_string(), flag(self.proxy_path)));
        props.push(("proxyQueryParams".to_string(), flag(self.proxy_query_params)));
        props.push(("proxyMethod".to_string(), flag(self.proxy_method)));
        props.push(("proxyBody".to_string(), flag(self.proxy_body)));
        let ghost fixed = pair_views(props@);
        assert(fixed =~= seq![
            ("baseUrl"@, self.base_url@),
            ("proxyPath"@, flag_text(self.proxy_path)),
            ("proxyQueryParams"@, flag_text(self.proxy_query_params)),
            ("proxyMethod"@, flag_text(self.proxy_method)),
            ("proxyBody"@, flag_text(self.proxy_body)),
        ]);
        let ghost header_views = self.headers@.map_values(|h: (String, String)| ("header:"@ + h.0@, h.1@));
        let mut i: usize = 0;
        while i < self.headers.len()
            invariant
                i <= self.headers.len(),
                props@.len() == 5 + i,
                header_views == self.headers@.map_values(|h: (String, String)| ("header:"@ + h.0@, h.1@)),
                pair_views(props@) =~= fixed + header_views.take(i as int),
            decreases self.headers.len() - i,
        {
            let ghost before = props@;
            let mut key = "header:".to_string();
            key.append(self.headers[i].0.as_str());
            props.push((key, self.headers[i].1.clone()));
            assert(header_views.take(i + 1) =~= header_views.take(i as int).push(header_views[i as int]));
            assert(pair_views(props@) =~= pair_views(before).push(pair_views(props@)[5 + i]));
            i += 1;
        }
        assert(header_views.take(self.headers.len() as int) =~= header_views);
        DataAddressDraft { kind: "HttpData".to_string(), properties: props }
    }

    /// The properties of the new asset: name, version, content type and provider always;
    /// title (the name), description, thumbnail and keywords only when they were filled in.
    pub fn asset_properties(&self) -> (res: PropertyMap)
        ensures
            res.well_formed(),
            is_text(res.spec_get("name"@), self.name@),
            is_text(res.spec_get("http://www.w3.org/ns/dcat#version"@), self.version@),
            is_text(res.spec_get("contenttype"@), self.content_type@),
            res.spec_get("http://purl.org/dc/terms/creator"@) matches Some(v)
                && is_creator(v, self.company_name@, self.company_logo_url@),
            if self.name@.len() == 0 {
                res.spec_get("http://purl.org/dc/terms/title"@) is None
            } else {
                is_text(res.spec_get("http://purl.org/dc/terms/title"@), self.name@)
            },
            if self.description@.len() == 0 {
                res.spec_get("http://www.w3.org/2000/01/rdf-schema#comment"@) is None
            } else {
                is_text(res.spec_get("http://www.w3.org/2000/01/rdf-schema#comment"@), self.description@)
            },
            if self.thumbnail_url@.len() == 0 {
                res.spec_get("http://xmlns.com/foaf/0.1/thumbnail"@) is None
            } else {
                res.spec_get("http://xmlns.com/foaf/0.1/thumbnail"@) matches Some(v) && is_resource(v, self.thumbnail_url@)
            },
            if self.keywords@.len() == 0 {
                res.spec_get("http://www.w3.org/ns/dcat#keyword"@) is None
            } else {
                res.spec_get("http://www.w3.org/ns/dcat#keyword"@) matches Some(v)
                    && as_text_list(v) == Some(views(self.keywords@))
            },
            forall|k: Seq<char>| !asset_property_keys().contains(k) ==> (#[trigger] res.spec_get(k)) is None,
    {
        proof {
            reveal_strlit("name");
            reveal_strlit("http://www.w3.org/ns/dcat#version");
            reveal_strlit("contenttype");
            reveal_strlit("http://purl.org/dc/terms/creator");
            reveal_strlit("http://purl.org/dc/terms/title");
            reveal_strlit("http://www.w3.org/2000/01/rdf-schema#comment");
            reveal_strlit("http://xmlns.com/foaf/0.1/thumbnail");
            reveal_strlit("http://www.w3.org/ns/dcat#keyword");
            assert("name"@.len() == 4);
            assert("contenttype"@.len() == 11);
            assert("http://purl.org/dc/terms/title"@.len() == 30);
            assert("http://purl.org/dc/terms/creator"@.len() == 32);
            assert("http://www.w3.org/ns/dcat#version"@.len() == 33);
            assert("http://www.w3.org/ns/dcat#keyword"@.len() == 33);
            assert("http://xmlns.com/foaf/0.1/thumbnail"@.len() == 35);
            assert("http://www.w3.org/2000/01/rdf-schema#comment"@.len() == 44);
            assert("http://www.w3.org/ns/dcat#version"@[26] != "http://www.w3.org/ns/dcat#keyword"@[26]);
        }
        let mut m = PropertyMap::new();
        m.insert("name".to_string(), JsonValue::Text(self.name.clone()));
        m.insert("http://www.w3.org/ns/dcat#version".to_string(), JsonValue::Text(self.version.clone()));
        m.insert("contenttype".to_string(), JsonValue::Text(self.content_type.clone()));
        m.insert("http://purl.org/dc/terms/creator".to_string(), creator_value(&self.company_name, &self.company_logo_url));
        if !self.name.as_str().is_empty() {
            m.insert("http://purl.org/dc/terms/title".to_string(), JsonValue::Text(self.name.clone()));
        }
        if !self.description.as_str().is_empty() {
            m.insert("http://www.w3.org/2000/01/rdf-schema#comment".to_string(), JsonValue::Text(self.description.clone()));
        }
        if !self.thumbnail_url.as_str().is_empty() {
            m.insert("http://xmlns.com/foaf/0.1/thumbnail".to_string(), resource_value(&self.thumbnail_url));
        }
        if self.keywords.len() > 0 {
            m.insert("http://www.w3.org/ns/dcat#keyword".to_string(), text_array(&self.keywords));
        }
        m
    }
}

impl AssetForm {
    /// The dataset card that previews the asset while the form is filled in.
    pub fn preview(&self) -> (res: DataspaceDataset)
        ensures
            res.id@.len() == 0,
            res.title@ == self.name@,
            res.version is Some <==> semver_parse(self.version@) is Some,
            res.version matches Some(v) ==> Some(v.parts()) == semver_parse(self.version@),
            opt_view(res.comment) == unless_empty(self.description@),
            thumbnail_view(res.thumbnail) == (if self.thumbnail_url@.len() == 0 {
                None::<Option<Seq<char>>>
            } else {
                Some(Some(self.thumbnail_url@))
            }),
            creator_view(res.creator) == (if self.company_logo_url@.len() == 0 {
                None::<CreatorView>
            } else {
                Some(CreatorView { name: None, thumbnail: Some(Some(self.company_logo_url@)) })
            }),
            views(res.keywords@) == views(self.keywords@),
            res.policies@.len() == 0,
            res.dcterm_types@.len() == 0,
    {
        let thumbnail = if self.thumbnail_url.as_str().is_empty() {
            None
        } else {
            Some(Thumbnail { resource: Some(self.thumbnail_url.clone()) })
        };
        let creator = if self.company_logo_url.as_str().is_empty() {
            None
        } else {
            Some(Creator { name: None, thumbnail: Some(Thumbnail { resource: Some(self.company_logo_url.clone()) }) })
        };
        let keywords = clone_strings(&self.keywords);
        DataspaceDataset {
            id: String::new(),
            title: self.name.clone(),
            version: parse_version(self.version.as_str()),
            comment: non_empty(&self.description),
            thumbnail,
            creator,
            keywords,
            policies: Vec::new(),
            dcterm_types: Vec::new(),
        }
    }
}

/// The target of a new policy: a plain name or an IRI given as an `@id`.
#[derive(Clone, Debug)]
pub enum PolicyTarget {
    Simple(String),
    Id(String),
}

/// The target that a new policy is sent with: none when the field is empty, otherwise the
/// text in the form that the switch chose.
pub fn policy_target(is_simple: bool, target: &String) -> (res: Option<PolicyTarget>)
    ensures
        target@.len() == 0 ==> res is None,
        target@.len() != 0 && is_simple ==> (res matches Some(PolicyTarget::Simple(t)) && t@ == target@),
        target@.len() != 0 && !is_simple ==> (res matches Some(PolicyTarget::Id(t)) && t@ == target@),
{
    if target.as_str().is_empty() {
        None
    } else if is_simple {
        Some(PolicyTarget::Simple(target.clone()))
    } else {
        Some(PolicyTarget::Id(target.clone()))
    }
}

/// A condition that selects assets by one of their properties.
#[derive(Clone, Debug)]
pub struct CriterionDraft {
    pub operand_left: String,
    pub operator: String,
    pub operand_right: String,
}

/// A new contract definition as it is sent to the connector.
#[derive(Clone, Debug)]
pub struct ContractDefinitionDraft {
    pub id: String,
    pub access_policy_id: String,
    pub contract_policy_id: String,
    pub assets_selector: Vec<CriterionDraft>,
}

/// The id of the chosen policy, empty when none was chosen.
pub open spec fn chosen_policy_id(p: Option<PolicyDefinitionItem>) -> Seq<char> {
    match p {
        Some(p) => p.id@,
        None => Seq::empty(),
    }
}

/// The property by which a contract definition selects its assets.
pub open spec fn asset_id_property() -> Seq<char> {
    "https://w3id.org/edc/v0.0.1/ns/id"@
}

fn chosen_id(p: &Option<PolicyDefinitionItem>) -> (res: String)
    ensures
        res@ == chosen_policy_id(*p),
{
    match p {
        Some(p) => p.id.clone(),
        None => String::new(),
    }
}

/// The contract definition that the form sends: its id, the ids of the two chosen policies,
/// and one criterion `id = <asset id>` per chosen asset, in order.
pub fn contract_definition_draft(
    identifier: &String,
    access_policy: &Option<PolicyDefinitionItem>,
    contract_policy: &Option<PolicyDefinitionItem>,
    assets: &Vec<AssetItem>,
) -> (res: ContractDefinitionDraft)
    ensures
        res.id@ == identifier@,
        res.access_policy_id@ == chosen_policy_id(*access_policy),
        res.contract_policy_id@ == chosen_policy_id(*contract_policy),
        res.assets_selector@.len() == assets@.len(),
        forall|i: int| 0 <= i < assets@.len() ==> {
            let c = #[trigger] res.assets_selector@[i];
            c.operand_left@ == asset_id_property() && c.operator@ == "="@ && c.operand_right@ == assets@[i].id@
        },
{
    let mut selector: Vec<CriterionDraft> = Vec::new();
    let mut i: usize = 0;
    while i < assets.len()
        invariant
            i <= assets.len(),
            selector@.len() == i,
            forall|k: int| 0 <= k < i ==> {
                let c = #[trigger] selector@[k];
                c.operand_left@ == asset_id_property() && c.operator@ == "="@ && c.operand_right@ == assets@[k].id@
            },
        decreases assets.len() - i,
    {
        selector.push(CriterionDraft {
            operand_left: "https://w3id.org/edc/v0.0.1/ns/id".to_string(),
            operator: "=".to_string(),
            operand_right: assets[i].id.clone(),
        });
        i += 1;
    }
    ContractDefinitionDraft {
        id: identifier.clone(),
        access_policy_id: chosen_id(access_policy),
        contract_policy_id: chosen_id(contract_policy),
        assets_selector: selector,
    }
}

/// The contract definition form cannot be sent without an identifier and both policies.
pub fn contract_definition_disabled(
    identifier: &String,
    access_policy: &Option<PolicyDefinitionItem>,
    contract_policy: &Option<PolicyDefinitionItem>,
) -> (res: bool)
    ensures
        res == (identifier@.len() == 0 || access_policy is None || contract_policy is None),
{
    identifier.as_str().is_empty() || access_policy.is_none() || contract_policy.is_none()
}

/// The part of a service endpoint that the dataspace protocol path takes the place of.
pub open spec fn dspace_version_path() -> Seq<char> {
    "/.well-known/dspace-version"@
}

/// The address of a catalog participant: its data service endpoint with the version discovery
/// path replaced by the path of the protocol version it speaks.
pub fn participant_target_url(service_endpoint: &str, protocol_path: &str) -> (res: String)
    ensures
        res@ == replace_seq(service_endpoint@, dspace_version_path(), protocol_path@),
{
    proof {
        reveal_strlit("/.well-known/dspace-version");
    }
    replace_all(service_endpoint, "/.well-known/dspace-version", protocol_path)
}

/// An issuer of verifiable credentials that the console offers.
#[derive(Clone, Debug, PartialEq)]
pub struct Issuer {
    pub did: String,
    pub name: String,
}

/// The label of the issuer menu: the name of the first offered issuer with the chosen DID, or
/// a prompt when none has it.
pub open spec fn issuer_label_text(issuers: Seq<Issuer>, did: Seq<char>) -> Seq<char>
    decreases issuers.len(),
{
    if issuers.len() == 0 {
        "Select an issuer"@
    } else if issuers[0].did@ == did {
        issuers[0].name@
    } else {
        issuer_label_text(issuers.skip(1), did)
    }
}

/// The label of the issuer menu for the chosen DID.
pub fn issuer_label(issuers: &Vec<Issuer>, did: &str) -> (res: String)
    ensures
        res@ == issuer_label_text(issuers@, did@),
{
    let mut i: usize = 0;
    assert(issuers@.skip(0) =~= issuers@);
    while i < issuers.len()
        invariant
            i <= issuers.len(),
            issuer_label_text(issuers@, did@) == issuer_label_text(issuers@.skip(i as int), did@),
        decreases issuers.len() - i,
    {
        let ghost rest = issuers@.skip(i as int);
        assert(rest[0] == issuers@[i as int]);
        assert(rest.skip(1) =~= issuers@.skip(i + 1));
        if str_eq(issuers[i].did.as_str(), did) {
            return issuers[i].name.clone();
        }
        i += 1;
    }
    "Select an issuer".to_string()
}

/// The request form cannot be sent without an issuer and a credential, nor while a request
/// is under way.
pub fn request_disabled(issuer_did: &String, selected_count: usize, requesting: bool) -> (res: bool)
    ensures
        res == (issuer_did@.len() == 0 || selected_count == 0 || requesting),
{
    issuer_did.as_str().is_empty() || selected_count == 0 || requesting
}

/// Why the connector refused a new policy: its management API answered with a raw error
/// text, or with a list of parsed error messages; or the call failed otherwise, described by
/// its debug text.
#[derive(Clone, Debug, PartialEq)]
pub enum CreationFailure {
    Raw(String),
    Parsed(Vec<String>),
    Other(String),
}

/// The lines of the alert shown when a policy could not be created: the raw text, each
/// parsed message, or the description of the failure.
pub open spec fn failure_lines(f: CreationFailure) -> Seq<Seq<char>> {
    match f {
        CreationFailure::Raw(t) => seq![t@],
        CreationFailure::Parsed(messages) => views(messages@),
        CreationFailure::Other(t) => seq![t@],
    }
}

/// The lines of the alert for a refused policy.
pub fn creation_error_lines(failure: CreationFailure) -> (res: Vec<String>)
    ensures
        views(res@) == failure_lines(failure),
{
    match failure {
        CreationFailure::Raw(t) => {
            let mut out = Vec::new();
            out.push(t);
            assert(views(out@) =~= failure_lines(failure));
            out
        },
        CreationFailure::Parsed(messages) => messages,
        CreationFailure::Other(t) => {
            let mut out = Vec::new();
            out.push(t);
            assert(views(out@) =~= failure_lines(failure));
            out
        },
    }
}

} // verus!
