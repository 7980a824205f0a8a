//! Assets as the console lists them, how a search filters them, and how they are read
//! from the connector's and the catalog's records.

use vstd::prelude::*;
use crate::models::dataspace_dataset::{creator_view, thumbnail_view, Creator, CreatorView, DataspaceDataset, Thumbnail};
use crate::models::properties::{as_text, as_text_list, text_at, text_at_or_empty, JsonValue, PropertyMap, text_list};
use crate::models::version::{parse_version, semver_parse, Version};
use crate::text::{contains_seq, contains_str, join_strings, lowercase_of, opt_view, seq_join, to_lowercase, views};

verus! {

/// An asset of the connector or of the federated catalog.
#[derive(Clone, Debug, PartialEq)]
pub struct AssetItem {
    pub id: String,
    pub name: String,
    pub version: Option<Version>,
    pub description: Option<String>,
    pub creator: Option<Creator>,
    pub thumbnail: Option<Thumbnail>,
    pub keywords: Vec<String>,
    pub dcterm_types: Vec<String>,
    pub base_url: String,
    pub proxy_path: bool,
    pub proxy_query_params: bool,
    pub proxy_method: bool,
    pub proxy_body: bool,
    pub oauth2_client_id: String,
    pub oauth2_client_secret_key: String,
    pub oauth2_token_url: String,
    pub oauth2_scope: String,
}

/// The plain content of an asset.
pub struct AssetItemView {
    pub id: Seq<char>,
    pub name: Seq<char>,
    pub version: Option<(u64, u64, u64, Seq<char>, Seq<char>)>,
    pub description: Option<Seq<char>>,
    pub creator: Option<CreatorView>,
    pub thumbnail: Option<Option<Seq<char>>>,
    pub keywords: Seq<Seq<char>>,
    pub dcterm_types: Seq<Seq<char>>,
    pub base_url: Seq<char>,
    pub proxy_path: bool,
    pub proxy_query_params: bool,
    pub proxy_method: bool,
    pub proxy_body: bool,
    pub oauth2_client_id: Seq<char>,
    pub oauth2_client_secret_key: Seq<char>,
    pub oauth2_token_url: Seq<char>,
    pub oauth2_scope: Seq<char>,
}

/// The parts of an optional version.
pub open spec fn version_parts(v: Option<Version>) -> Option<(u64, u64, u64, Seq<char>, Seq<char>)> {
    match v {
        Some(v) => Some(v.parts()),
        None => None,
    }
}

impl View for AssetItem {
    type V = AssetItemView;

    open spec fn view(&self) -> AssetItemView {
        AssetItemView {
            id: self.id@,
            name: self.name@,
            version: version_parts(self.version),
            description: opt_view(self.description),
            creator: creator_view(self.creator),
            thumbnail: thumbnail_view(self.thumbnail),
            keywords: views(self.keywords@),
            dcterm_types: views(self.dcterm_types@),
            base_url: self.base_url@,
            proxy_path: self.proxy_path,
            proxy_query_params: self.proxy_query_params,
            proxy_method: self.proxy_method,
            proxy_body: self.proxy_body,
            oauth2_client_id: self.oauth2_client_id@,
            oauth2_client_secret_key: self.oauth2_client_secret_key@,
            oauth2_token_url: self.oauth2_token_url@,
            oauth2_scope: self.oauth2_scope@,
        }
    }
}

/// The text of an optional text, empty when absent.
pub open spec fn or_empty(s: Option<Seq<char>>) -> Seq<char> {
    match s {
        Some(s) => s,
        None => Seq::empty(),
    }
}

/// The text a search looks into: the lowercased name, description, keywords (joined by
/// spaces) and creator name, separated by single spaces.
pub open spec fn search_text(item: AssetItemView) -> Seq<char> {
    let creator = match item.creator {
        Some(c) => lowercase_of(or_empty(c.name)),
        None => Seq::empty(),
    };
    lowercase_of(item.name) + seq![' '] + lowercase_of(or_empty(item.description)) + seq![' ']
        + lowercase_of(seq_join(item.keywords, seq![' '])) + seq![' '] + creator
}

/// The asset has one of the given types.
pub open spec fn has_one_of_types(item: AssetItemView, types: Seq<Seq<char>>) -> bool {
    exists|i: int| 0 <= i < item.dcterm_types.len() && types.contains(#[trigger] item.dcterm_types[i])
}

/// Whether an asset is kept by a search (matched case-insensitively as a substring of the
/// search text) and a selection of types (any shared type; no selection keeps every type).
pub open spec fn spec_is_filtered(item: AssetItemView, search: Option<Seq<char>>, types: Seq<Seq<char>>) -> bool {
    let search_matches = match search {
        Some(s) => contains_seq(search_text(item), lowercase_of(s)),
        None => true,
    };
    if types.len() == 0 {
        search_matches
    } else {
        has_one_of_types(item, types) && search_matches
    }
}

fn contains_string(list: &[String], s: &String) -> (res: bool)
    ensures
        res == views(list@).contains(s@),
{
    let mut i: usize = 0;
    while i < list.len()
        invariant
            i <= list.len(),
            forall|k: int| 0 <= k < i ==> list@[k]@ != s@,
        decreases list.len() - i,
    {
        if list[i] == *s {
            assert(views(list@)[i as int] == s@);
            return true;
        }
        i += 1;
    }
    assert forall|k: int| 0 <= k < views(list@).len() implies views(list@)[k] != s@ by {}
    false
}

impl AssetItem {
    /// The lowercased text a search looks into.
    pub fn search_text(&self) -> (res: String)
        ensures
            res@ == search_text(self@),
    {
        proof {
            reveal_strlit(" ");
        }
        assert(" "@ =~= seq![' ']);
        let mut text = to_lowercase(self.name.as_str());
        text.append(" ");
        let description = match &self.description {
            Some(d) => d.clone(),
            None => String::new(),
        };
        assert(description@ == or_empty(opt_view(self.description)));
        text.append(to_lowercase(description.as_str()).as_str());
        text.append(" ");
        let keywords = join_strings(&self.keywords, " ");
        text.append(to_lowercase(keywords.as_str()).as_str());
        text.append(" ");
        assert(text@ =~= lowercase_of(self.name@) + seq![' '] + lowercase_of(or_empty(opt_view(self.description))) + seq![' ']
            + lowercase_of(seq_join(views(self.keywords@), seq![' '])) + seq![' ']);
        let ghost head = text@;
        match &self.creator {
            Some(c) => {
                let name = match &c.name {
                    Some(n) => n.clone(),
                    None => String::new(),
                };
                text.append(to_lowercase(name.as_str()).as_str());
            },
            None => {
                assert(head + Seq::<char>::empty() =~= head);
            },
        }
        assert(text@ =~= search_text(self@));
        text
    }

    /// Whether the asset is kept by the search text `search` and the type selection
    /// `dcterm_types`.
    pub fn is_filtered(&self, search: &Option<String>, dcterm_types: &[String]) -> (res: bool)
        ensures
            res == spec_is_filtered(self@, opt_view(*search), views(dcterm_types@)),
    {
        let text_content = self.search_text();
        assert(views(dcterm_types@).len() == dcterm_types@.len());
        let search_matches = match search {
            Some(s) => {
                let needle = to_lowercase(s.as_str());
                contains_str(text_content.as_str(), needle.as_str())
            },
            None => true,
        };
        if dcterm_types.len() == 0 {
            search_matches
        } else {
            let mut found = false;
            let mut i: usize = 0;
            while i < self.dcterm_types.len()
                invariant
                    i <= self.dcterm_types.len(),
                    found == exists|k: int| 0 <= k < i && views(dcterm_types@).contains(#[trigger] views(self.dcterm_types@)[k]),
                decreases self.dcterm_types.len() - i,
            {
                assert(views(self.dcterm_types@)[i as int] == self.dcterm_types@[i as int]@);
                if contains_string(dcterm_types, &self.dcterm_types[i]) {
                    found = true;
                }
                i += 1;
            }
            assert(self@.dcterm_types == views(self.dcterm_types@));
            assert(found == has_one_of_types(self@, views(dcterm_types@)));
            found && search_matches
        }
    }
}


/// An asset as the connector's management API returns it: its id, its properties, the
/// properties of its data address, and the creator and thumbnail read from their JSON
/// properties (`None` where the property is absent or does not read as one).
#[derive(Debug)]
pub struct AssetRecord {
    pub id: String,
    pub properties: PropertyMap,
    pub data_address: PropertyMap,
    pub creator: Option<Creator>,
    pub thumbnail: Option<Thumbnail>,
}

/// A list of strings read from an optional JSON value; empty when it does not read as one.
pub open spec fn text_list_or_empty(v: Option<JsonValue>) -> Seq<Seq<char>> {
    match v {
        Some(v) => match as_text_list(v) {
            Some(l) => l,
            None => Seq::empty(),
        },
        None => Seq::empty(),
    }
}

/// The types read from an optional JSON value: a single string, or an array of strings.
pub open spec fn types_of(v: Option<JsonValue>) -> Seq<Seq<char>> {
    match v {
        Some(v) => match as_text(v) {
            Some(s) => seq![s],
            None => text_list_or_empty(Some(v)),
        },
        None => Seq::empty(),
    }
}

/// The version read from an optional text.
pub open spec fn version_from(text: Option<Seq<char>>) -> Option<(u64, u64, u64, Seq<char>, Seq<char>)> {
    match text {
        Some(t) => semver_parse(t),
        None => None,
    }
}

fn parse_optional_version(text: Option<String>) -> (res: Option<Version>)
    ensures
        version_parts(res) == version_from(opt_view(text)),
{
    match text {
        Some(t) => parse_version(t.as_str()),
        None => None,
    }
}

fn strings_or_empty(v: Option<&JsonValue>) -> (res: Vec<String>)
    ensures
        views(res@) == text_list_or_empty(match v { Some(x) => Some(*x), None => None }),
{
    match v {
        Some(x) => match text_list(x) {
            Some(l) => l,
            None => Vec::new(),
        },
        None => Vec::new(),
    }
}

/// The flag stored as a property: the string `"true"` means set, anything else unset.
pub open spec fn flag_at(m: PropertyMap, key: Seq<char>) -> bool {
    text_at_or_empty(m, key) == "true"@
}

fn flag(m: &PropertyMap, key: &str) -> (res: bool)
    ensures
        res == flag_at(*m, key@),
{
    let v = m.text_or_empty(key);
    crate::text::str_eq(v.as_str(), "true")
}

impl AssetItem {
    /// Reads an asset of the connector: name, description, version, keywords and types
    /// from its properties, the endpoint and its options from its data address.
    pub fn from_asset_record(record: AssetRecord) -> (res: AssetItem)
        ensures
            res.id == record.id,
            res.name@ == text_at_or_empty(record.properties, "name"@),
            opt_view(res.description) == text_at(record.properties, "http://www.w3.org/2000/01/rdf-schema#comment"@),
            version_parts(res.version) == version_from(text_at(record.properties, "http://www.w3.org/ns/dcat#version"@)),
            res.creator == record.creator,
            res.thumbnail == record.thumbnail,
            views(res.keywords@) == text_list_or_empty(record.properties.spec_get("http://www.w3.org/ns/dcat#keyword"@)),
            views(res.dcterm_types@) == types_of(record.properties.spec_get("http://purl.org/dc/terms/type"@)),
            res.base_url@ == text_at_or_empty(record.data_address, "baseUrl"@),
            res.proxy_path == flag_at(record.data_address, "proxyPath"@),
            res.proxy_query_params == flag_at(record.data_address, "proxyQueryParams"@),
            res.proxy_method == flag_at(record.data_address, "proxyMethod"@),
            res.proxy_body == flag_at(record.data_address, "proxyBody"@),
            res.oauth2_client_id@ == text_at_or_empty(record.data_address, "oauth2:clientId"@),
            res.oauth2_client_secret_key@ == text_at_or_empty(record.data_address, "oauth2:clientSecretKey"@),
            res.oauth2_scope@ == text_at_or_empty(record.data_address, "oauth2:scope"@),
            res.oauth2_token_url@ == text_at_or_empty(record.data_address, "oauth2:tokenUrl"@),
    {
        let properties = &record.properties;
        let address = &record.data_address;
        let name = properties.text_or_empty("name");
        let description = properties.text("http://www.w3.org/2000/01/rdf-schema#comment");
        let version = parse_optional_version(properties.text("http://www.w3.org/ns/dcat#version"));
        let keywords = strings_or_empty(properties.get_raw("http://www.w3.org/ns/dcat#keyword"));
        let dcterm_types = match properties.get_raw("http://purl.org/dc/terms/type") {
            Some(JsonValue::Text(s)) => {
                let mut v = Vec::new();
                v.push(s.clone());
                assert(views(v@) =~= seq![s@]);
                v
            },
            other => strings_or_empty(other),
        };
        let base_url = address.text_or_empty("baseUrl");
        let proxy_path = flag(address, "proxyPath");
        let proxy_query_params = flag(address, "proxyQueryParams");
        let proxy_method = flag(address, "proxyMethod");
        let proxy_body = flag(address, "proxyBody");
        let oauth2_client_id = address.text_or_empty("oauth2:clientId");
        let oauth2_client_secret_key = address.text_or_empty("oauth2:clientSecretKey");
        let oauth2_scope = address.text_or_empty("oauth2:scope");
        let oauth2_token_url = address.text_or_empty("oauth2:tokenUrl");
        AssetItem {
            id: record.id,
            name,
            version,
            description,
            creator: record.creator,
            thumbnail: record.thumbnail,
            keywords,
            dcterm_types,
            base_url,
            proxy_path,
            proxy_query_params,
            proxy_method,
            proxy_body,
            oauth2_client_id,
            oauth2_client_secret_key,
            oauth2_token_url,
            oauth2_scope,
        }
    }
}


impl AssetItem {
    /// The dataset card content of the asset: its descriptive fields, and no policies.
    pub fn into_dataspace_dataset(self) -> (res: DataspaceDataset)
        ensures
            res.id == self.id,
            res.title == self.name,
            res.version == self.version,
            res.comment == self.description,
            res.thumbnail == self.thumbnail,
            res.creator == self.creator,
            res.keywords == self.keywords,
            res.policies@.len() == 0,
            res.dcterm_types == self.dcterm_types,
    {
        DataspaceDataset {
            id: self.id,
            title: self.name,
            version: self.version,
            comment: self.description,
            thumbnail: self.thumbnail,
            creator: self.creator,
            keywords: self.keywords,
            policies: Vec::new(),
            dcterm_types: self.dcterm_types,
        }
    }
}

} // verus!
