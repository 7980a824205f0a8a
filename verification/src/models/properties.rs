//! JSON property values of assets and data addresses, and how typed reads of them behave.

use vstd::prelude::*;

verus! {

/// A JSON value; numbers keep their JSON text.
#[derive(Debug)]
pub enum JsonValue {
    Null,
    Bool(bool),
    Number(String),
    Text(String),
    Array(Vec<JsonValue>),
    Object(Vec<(String, JsonValue)>),
}

/// One level of a JSON value of `serde_json`: its scalar content, or references to the
/// values it holds.
pub enum JsonNode<'a> {
    Null,
    Bool(bool),
    Number(String),
    Text(String),
    Array(Vec<&'a serde_json::Value>),
    Object(Vec<(String, &'a serde_json::Value)>),
}

/// Tells apart the kinds of a `serde_json::Value`, one arm each: a number keeps its JSON
/// text, a container hands out references to what it holds. Nothing is promised of the
/// result: the value is opaque here.
#[verifier::external_body]
fn json_node(v: &serde_json::Value) -> JsonNode<'_> {
    match v {
        serde_json::Value::Null => JsonNode::Null,
        serde_json::Value::Bool(b) => JsonNode::Bool(*b),
        serde_json::Value::Number(n) => JsonNode::Number(n.to_string()),
        serde_json::Value::String(t) => JsonNode::Text(t.clone()),
        serde_json::Value::Array(items) => JsonNode::Array(items.iter().collect()),
        serde_json::Value::Object(entries) => JsonNode::Object(entries.iter().map(|(k, v)| (k.clone(), v)).collect()),
    }
}

/// The library's reading of a `serde_json` value, taken level by level down to `depth`
/// levels (the parser of `serde_json` refuses deeper nesting long before `u32::MAX`).
fn json_value_of(v: &serde_json::Value, depth: u32) -> (res: JsonValue)
    decreases depth,
{
    if depth == 0 {
        return JsonValue::Null;
    }
    match json_node(v) {
        JsonNode::Null => JsonValue::Null,
        JsonNode::Bool(b) => JsonValue::Bool(b),
        JsonNode::Number(n) => JsonValue::Number(n),
        JsonNode::Text(t) => JsonValue::Text(t),
        JsonNode::Array(items) => {
            let mut out: Vec<JsonValue> = Vec::new();
            let mut i: usize = 0;
            while i < items.len()
                invariant
                    i <= items.len(),
                    depth > 0,
                decreases items.len() - i,
            {
                out.push(json_value_of(items[i], depth - 1));
                i += 1;
            }
            JsonValue::Array(out)
        },
        JsonNode::Object(entries) => {
            let mut out: Vec<(String, JsonValue)> = Vec::new();
            let mut i: usize = 0;
            while i < entries.len()
                invariant
                    i <= entries.len(),
                    depth > 0,
                decreases entries.len() - i,
            {
                let (key, value) = &entries[i];
                out.push((key.clone(), json_value_of(*value, depth - 1)));
                i += 1;
            }
            JsonValue::Object(out)
        },
    }
}

/// The JSON value that `serde_json::from_str` reads from `text`, or `None` where it reports
/// an error.
pub uninterp spec fn json_of_text(text: Seq<char>) -> Option<JsonValue>;

/// Calls `serde_json::from_str` for a `serde_json::Value` and reads the value. The contract
/// names the outcome (`json_of_text`): the JSON grammar is not written out here.
#[verifier::external_body]
fn parse_json(text: &str) -> (res: Option<JsonValue>)
    ensures
        res == json_of_text(text@),
{
    serde_json::from_str::<serde_json::Value>(text).ok().map(|v| json_value_of(&v, u32::MAX))
}

/// The value that an edited text stands for: the JSON it holds, or `null` when it holds no
/// JSON.
pub fn edited_value(text: &str) -> (res: JsonValue)
    ensures
        match json_of_text(text@) {
            Some(v) => res == v,
            None => res == JsonValue::Null,
        },
{
    match parse_json(text) {
        Some(v) => v,
        None => JsonValue::Null,
    }
}

/// Named JSON properties, as an asset or a data address holds them.
#[derive(Debug)]
pub struct PropertyMap {
    pub entries: Vec<(String, JsonValue)>,
}

/// The value stored under `key`: the first entry with that key, if any.
pub open spec fn lookup(entries: Seq<(String, JsonValue)>, key: Seq<char>) -> Option<JsonValue>
    decreases entries.len(),
{
    if entries.len() == 0 {
        None
    } else if entries[0].0@ == key {
        Some(entries[0].1)
    } else {
        lookup(entries.skip(1), key)
    }
}

/// The text of a JSON string; `None` for any other kind of value.
pub open spec fn as_text(v: JsonValue) -> Option<Seq<char>> {
    match v {
        JsonValue::Text(s) => Some(s@),
        _ => None,
    }
}

/// `true` when every element is a JSON string.
pub open spec fn all_text(items: Seq<JsonValue>) -> bool {
    forall|i: int| 0 <= i < items.len() ==> (#[trigger] items[i]) is Text
}

/// The texts of a sequence of JSON strings.
pub open spec fn texts(items: Seq<JsonValue>) -> Seq<Seq<char>> {
    items.map_values(|v: JsonValue| match v {
        JsonValue::Text(s) => s@,
        _ => Seq::empty(),
    })
}

/// A list of strings read from a JSON value: an array whose elements are all strings.
pub open spec fn as_text_list(v: JsonValue) -> Option<Seq<Seq<char>>> {
    match v {
        JsonValue::Array(items) => if all_text(items@) { Some(texts(items@)) } else { None },
        _ => None,
    }
}

/// The string stored under `key`, when there is one and it is a string.
pub open spec fn text_at(m: PropertyMap, key: Seq<char>) -> Option<Seq<char>> {
    match m.spec_get(key) {
        Some(v) => as_text(v),
        None => None,
    }
}

/// The string stored under `key`; empty when there is none or it is not a string.
pub open spec fn text_at_or_empty(m: PropertyMap, key: Seq<char>) -> Seq<char> {
    match text_at(m, key) {
        Some(s) => s,
        None => Seq::empty(),
    }
}

/// No key occurs twice among the entries.
pub open spec fn distinct_keys(entries: Seq<(String, JsonValue)>) -> bool {
    forall|i: int, j: int| 0 <= i < j < entries.len() ==> entries[i].0@ != entries[j].0@
}

/// `lookup` yields the value of the first entry that has the key.
pub proof fn lemma_lookup_first(entries: Seq<(String, JsonValue)>, key: Seq<char>, i: int)
    requires
        0 <= i < entries.len(),
        entries[i].0@ == key,
        forall|j: int| 0 <= j < i ==> (#[trigger] entries[j]).0@ != key,
    ensures
        lookup(entries, key) == Some(entries[i].1),
    decreases i,
{
    if i > 0 {
        let rest = entries.skip(1);
        assert forall|j: int| 0 <= j < i - 1 implies (#[trigger] rest[j]).0@ != key by {
            assert(rest[j] == entries[j + 1]);
        }
        lemma_lookup_first(rest, key, i - 1);
    }
}

/// `lookup` yields nothing when no entry has the key.
pub proof fn lemma_lookup_absent(entries: Seq<(String, JsonValue)>, key: Seq<char>)
    requires
        forall|j: int| 0 <= j < entries.len() ==> (#[trigger] entries[j]).0@ != key,
    ensures
        lookup(entries, key) is None,
    decreases entries.len(),
{
    if entries.len() > 0 {
        let rest = entries.skip(1);
        assert(entries[0].0@ != key);
        assert forall|j: int| 0 <= j < rest.len() implies (#[trigger] rest[j]).0@ != key by {
            assert(rest[j] == entries[j + 1]);
        }
        lemma_lookup_absent(rest, key);
    }
}

/// With distinct keys, the value under a key is that of the one entry holding it, and there
/// is none when no entry holds it.
pub proof fn lemma_lookup_distinct(entries: Seq<(String, JsonValue)>, key: Seq<char>)
    requires
        distinct_keys(entries),
    ensures
        forall|i: int| 0 <= i < entries.len() && (#[trigger] entries[i]).0@ == key
            ==> lookup(entries, key) == Some(entries[i].1),
        (forall|i: int| 0 <= i < entries.len() ==> (#[trigger] entries[i]).0@ != key)
            ==> lookup(entries, key) is None,
{
    assert forall|i: int| 0 <= i < entries.len() && (#[trigger] entries[i]).0@ == key
        implies lookup(entries, key) == Some(entries[i].1) by {
        assert forall|j: int| 0 <= j < i implies (#[trigger] entries[j]).0@ != key by {
            assert(entries[j].0@ != entries[i].0@);
        }
        lemma_lookup_first(entries, key, i);
    }
    if forall|i: int| 0 <= i < entries.len() ==> (#[trigger] entries[i]).0@ != key {
        lemma_lookup_absent(entries, key);
    }
}

impl PropertyMap {
    /// The raw value stored under `key`.
    pub open spec fn spec_get(self, key: Seq<char>) -> Option<JsonValue> {
        lookup(self.entries@, key)
    }

    /// The raw value stored under `key`, if any.
    pub fn get_raw(&self, key: &str) -> (res: Option<&JsonValue>)
        ensures
            match res {
                Some(v) => self.spec_get(key@) == Some(*v),
                None => self.spec_get(key@) is None,
            },
    {
        let mut i: usize = 0;
        assert(self.entries@.skip(0) =~= self.entries@);
        while i < self.entries.len()
            invariant
                i <= self.entries.len(),
                lookup(self.entries@, key@) == lookup(self.entries@.skip(i as int), key@),
            decreases self.entries.len() - i,
        {
            let ghost rest = self.entries@.skip(i as int);
            assert(rest[0] == self.entries@[i as int]);
            assert(rest.skip(1) =~= self.entries@.skip(i + 1));
            if crate::text::str_eq(self.entries[i].0.as_str(), key) {
                return Some(&self.entries[i].1);
            }
            i += 1;
        }
        None
    }

    /// Every key occurs once.
    pub open spec fn well_formed(self) -> bool {
        distinct_keys(self.entries@)
    }

    /// A map with no properties.
    pub fn new() -> (res: Self)
        ensures
            res.well_formed(),
            res.entries@.len() == 0,
            forall|k: Seq<char>| (#[trigger] res.spec_get(k)) is None,
    {
        PropertyMap { entries: Vec::new() }
    }

    /// Adds an entry with an empty key and a `null` value, in place of any entry with an
    /// empty key.
    pub fn add_blank(&mut self)
        requires
            old(self).well_formed(),
        ensures
            final(self).well_formed(),
            forall|k: Seq<char>| #[trigger] final(self).spec_get(k)
                == if k == Seq::<char>::empty() { Some(JsonValue::Null) } else { old(self).spec_get(k) },
    {
        let key = String::new();
        self.insert(key, JsonValue::Null);
    }

    /// Where the entry with `key` stands, if there is one.
    fn position(&self, key: &str) -> (res: Option<usize>)
        ensures
            match res {
                Some(i) => i < self.entries@.len() && self.entries@[i as int].0@ == key@,
                None => forall|j: int| 0 <= j < self.entries@.len() ==> (#[trigger] self.entries@[j]).0@ != key@,
            },
    {
        let mut i: usize = 0;
        while i < self.entries.len()
            invariant
                i <= self.entries.len(),
                forall|j: int| 0 <= j < i ==> (#[trigger] self.entries@[j]).0@ != key@,
            decreases self.entries.len() - i,
        {
            if crate::text::str_eq(self.entries[i].0.as_str(), key) {
                return Some(i);
            }
            i += 1;
        }
        None
    }

    /// Stores `value` under `key`, in place of what was stored there before.
    pub fn insert(&mut self, key: String, value: JsonValue)
        requires
            old(self).well_formed(),
        ensures
            final(self).well_formed(),
            forall|k: Seq<char>| #[trigger] final(self).spec_get(k)
                == if k == key@ { Some(value) } else { old(self).spec_get(k) },
    {
        let ghost before = self.entries@;
        let ghost kk = key@;
        let ghost vv = value;
        match self.position(key.as_str()) {
            Some(i) => {
                self.entries.set(i, (key, value));
                proof {
                    let after = self.entries@;
                    assert forall|a: int, b: int| 0 <= a < b < after.len() implies after[a].0@ != after[b].0@ by {
                        assert(before[a].0@ != before[b].0@);
                    }
                    assert forall|k: Seq<char>| #[trigger] lookup(after, k)
                        == if k == kk { Some(vv) } else { lookup(before, k) } by {
                        lemma_lookup_distinct(before, k);
                        lemma_lookup_distinct(after, k);
                        assert(after[i as int] == (key, value));
                        if k != kk {
                            if exists|m: int| 0 <= m < before.len() && (#[trigger] before[m]).0@ == k {
                                let m = choose|m: int| 0 <= m < before.len() && (#[trigger] before[m]).0@ == k;
                                assert(after[m] == before[m]);
                            } else {
                                assert forall|j: int| 0 <= j < after.len() implies (#[trigger] after[j]).0@ != k by {
                                    if j != i {
                                        assert(after[j] == before[j]);
                                    }
                                }
                            }
                        }
                    }
                }
            },
            None => {
                self.entries.push((key, value));
                proof {
                    let after = self.entries@;
                    assert(after[before.len() as int] == (key, value));
                    assert forall|a: int, b: int| 0 <= a < b < after.len() implies after[a].0@ != after[b].0@ by {
                        assert(after[a] == before[a]);
                        if b < before.len() {
                            assert(after[b] == before[b]);
                        }
                    }
                    assert forall|k: Seq<char>| #[trigger] lookup(after, k)
                        == if k == kk { Some(vv) } else { lookup(before, k) } by {
                        lemma_lookup_distinct(before, k);
                        lemma_lookup_distinct(after, k);
                        if k != kk {
                            if exists|m: int| 0 <= m < before.len() && (#[trigger] before[m]).0@ == k {
                                let m = choose|m: int| 0 <= m < before.len() && (#[trigger] before[m]).0@ == k;
                                assert(after[m] == before[m]);
                            } else {
                                assert forall|j: int| 0 <= j < after.len() implies (#[trigger] after[j]).0@ != k by {
                                    if j < before.len() {
                                        assert(after[j] == before[j]);
                                    }
                                }
                            }
                        }
                    }
                }
            },
        }
    }

    /// Takes the value stored under `key` out of the map.
    pub fn remove(&mut self, key: &str) -> (res: Option<JsonValue>)
        requires
            old(self).well_formed(),
        ensures
            final(self).well_formed(),
            res == old(self).spec_get(key@),
            res is None ==> final(self).entries@ == old(self).entries@,
            forall|k: Seq<char>| #[trigger] final(self).spec_get(k)
                == if k == key@ { None } else { old(self).spec_get(k) },
    {
        let ghost before = self.entries@;
        match self.position(key) {
            Some(i) => {
                let (_, v) = self.entries.remove(i);
                proof {
                    let after = self.entries@;
                    assert(after == before.remove(i as int));
                    assert forall|a: int, b: int| 0 <= a < b < after.len() implies after[a].0@ != after[b].0@ by {
                        let a0 = if a < i { a } else { a + 1 };
                        let b0 = if b < i { b } else { b + 1 };
                        assert(after[a] == before[a0]);
                        assert(after[b] == before[b0]);
                        assert(before[a0].0@ != before[b0].0@);
                    }
                    lemma_lookup_distinct(before, key@);
                    assert forall|k: Seq<char>| #[trigger] lookup(after, k)
                        == if k == key@ { None } else { lookup(before, k) } by {
                        lemma_lookup_distinct(before, k);
                        lemma_lookup_distinct(after, k);
                        if exists|m: int| 0 <= m < before.len() && (#[trigger] before[m]).0@ == k && m != i {
                            let m = choose|m: int| 0 <= m < before.len() && (#[trigger] before[m]).0@ == k && m != i;
                            let m1 = if m < i { m } else { m - 1 };
                            assert(after[m1] == before[m]);
                            assert(before[m].0@ != before[i as int].0@);
                        } else {
                            assert forall|j: int| 0 <= j < after.len() implies (#[trigger] after[j]).0@ != k by {
                                let j0 = if j < i { j } else { j + 1 };
                                assert(after[j] == before[j0]);
                                if before[j0].0@ == k {
                                    assert(before[j0].0@ != before[i as int].0@);
                                }
                            }
                            if k != key@ {
                                assert forall|j: int| 0 <= j < before.len() implies (#[trigger] before[j]).0@ != k by {
                                    if j == i {
                                    } else {
                                        assert(!(0 <= j < before.len() && before[j].0@ == k && j != i));
                                    }
                                }
                            }
                        }
                    }
                }
                Some(v)
            },
            None => {
                proof {
                    lemma_lookup_distinct(before, key@);
                }
                None
            },
        }
    }

    /// Moves the value stored under `from` so that it is stored under `to`; the map stays as
    /// it is when nothing is stored under `from`.
    pub fn rename(&mut self, from: &str, to: String)
        requires
            old(self).well_formed(),
        ensures
            final(self).well_formed(),
            old(self).spec_get(from@) is None ==> final(self).entries@ == old(self).entries@,
            old(self).spec_get(from@) is Some ==> forall|k: Seq<char>| #[trigger] final(self).spec_get(k)
                == if k == to@ { old(self).spec_get(from@) }
                   else if k == from@ { None }
                   else { old(self).spec_get(k) },
    {
        if let Some(value) = self.remove(from) {
            self.insert(to, value);
        }
    }

    /// The string stored under `key`; the empty string when there is none or it is not a string.
    pub fn text_or_empty(&self, key: &str) -> (res: String)
        ensures
            res@ == text_at_or_empty(*self, key@),
    {
        match self.get_raw(key) {
            Some(JsonValue::Text(s)) => s.clone(),
            _ => String::new(),
        }
    }

    /// The string stored under `key`, when there is one and it is a string.
    pub fn text(&self, key: &str) -> (res: Option<String>)
        ensures
            crate::text::opt_view(res) == text_at(*self, key@),
    {
        match self.get_raw(key) {
            Some(JsonValue::Text(s)) => Some(s.clone()),
            _ => None,
        }
    }
}

/// The strings of a JSON array of strings; `None` for any other value.
pub fn text_list(v: &JsonValue) -> (res: Option<Vec<String>>)
    ensures
        match res {
            Some(l) => as_text_list(*v) == Some(crate::text::views(l@)),
            None => as_text_list(*v) is None,
        },
{
    match v {
        JsonValue::Array(items) => {
            let mut out: Vec<String> = Vec::new();
            let mut i: usize = 0;
            while i < items.len()
                invariant
                    *v == JsonValue::Array(*items),
                    i <= items.len(),
                    out.len() == i,
                    all_text(items@.take(i as int)),
                    crate::text::views(out@) == texts(items@.take(i as int)),
                decreases items.len() - i,
            {
                let ghost before = out@;
                assert(items@.take(i + 1) =~= items@.take(i as int).push(items@[i as int]));
                match &items[i] {
                    JsonValue::Text(s) => {
                        out.push(s.clone());
                        assert(crate::text::views(out@) =~= crate::text::views(before).push(s@));
                        assert(texts(items@.take(i + 1)) =~= texts(items@.take(i as int)).push(s@));
                        assert forall|k: int| 0 <= k < i + 1 implies (#[trigger] items@.take(i + 1)[k]) is Text by {
                            if k < i {
                                assert(items@.take(i + 1)[k] == items@.take(i as int)[k]);
                            }
                        }
                    },
                    _ => {
                        assert(!(items@[i as int] is Text));
                        assert(!all_text(items@));
                        return None;
                    },
                }
                i += 1;
            }
            assert(items@.take(items.len() as int) == items@);
            Some(out)
        },
        _ => None,
    }
}

} // verus!
