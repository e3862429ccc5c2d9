//! JSON values, their members, and their passage to and from text.
use crate::text::{is_one_line, optional_str, same_text, trimmed};
use vstd::prelude::*;

verus! {

/// A number of `serde_json`, carried through unread.
#[verifier::external_type_specification]
#[verifier::external_body]
pub struct ExNumber(serde_json::Number);

/// A value of `serde_json`; [`value_tree`] says what it holds.
#[verifier::external_type_specification]
#[verifier::external_body]
pub struct ExValue(serde_json::Value);

/// An object of `serde_json`; [`object_members`] says what it holds.
#[verifier::external_type_specification]
#[verifier::external_body]
#[verifier::reject_recursive_types(K)]
#[verifier::reject_recursive_types(V)]
pub struct ExObject<K, V>(serde_json::Map<K, V>);

/// The error of reading JSON text.
#[verifier::external_type_specification]
#[verifier::external_body]
pub struct ExJsonError(serde_json::Error);

/// A JSON value.
///
/// An object lists its members; of two entries with one name the later one counts.
#[derive(Debug, PartialEq)]
pub enum Json {
    Null,
    Bool(bool),
    Number(serde_json::Number),
    Text(String),
    Array(Vec<Json>),
    Object(Vec<(String, Json)>),
}

/// What a JSON value is: an object is a map from names to values.
pub enum JsonView {
    Null,
    Bool(bool),
    Number(serde_json::Number),
    Text(Seq<char>),
    Array(Seq<JsonView>),
    Object(Map<Seq<char>, JsonView>),
}

impl JsonView {
    /// The member `name`, if the value is an object that has one.
    pub open spec fn get(self, name: Seq<char>) -> Option<JsonView> {
        match self {
            JsonView::Object(members) => if members.contains_key(name) {
                Some(members[name])
            } else {
                None
            },
            _ => None,
        }
    }

    /// The member `name`, or null where there is none.
    pub open spec fn member(self, name: Seq<char>) -> JsonView {
        match self.get(name) {
            Some(value) => value,
            None => JsonView::Null,
        }
    }

    /// The text of a string value.
    pub open spec fn text(self) -> Option<Seq<char>> {
        match self {
            JsonView::Text(text) => Some(text),
            _ => None,
        }
    }

    /// The text of the member `name`, or the empty text where it is no string.
    pub open spec fn text_or_empty(self, name: Seq<char>) -> Seq<char> {
        match self.member(name).text() {
            Some(text) => text,
            None => Seq::empty(),
        }
    }

    /// The value with the member `name` set; a value that is no object stays as it is.
    pub open spec fn with(self, name: Seq<char>, value: JsonView) -> JsonView {
        match self {
            JsonView::Object(members) => JsonView::Object(members.insert(name, value)),
            _ => self,
        }
    }

    /// The value without the member `name`; a value that is no object stays as it is.
    pub open spec fn without(self, name: Seq<char>) -> JsonView {
        match self {
            JsonView::Object(members) => JsonView::Object(members.remove(name)),
            _ => self,
        }
    }

    /// Whether the value holds no number and nests arrays and objects at most `depth` deep.
    pub open spec fn is_plain(self, depth: nat) -> bool
        decreases depth,
    {
        match self {
            JsonView::Null => true,
            JsonView::Bool(_) => true,
            JsonView::Number(_) => false,
            JsonView::Text(_) => true,
            JsonView::Array(items) => depth > 0 && forall|i: int|
                0 <= i < items.len() ==> (#[trigger] items[i]).is_plain((depth - 1) as nat),
            JsonView::Object(members) => depth > 0 && forall|name: Seq<char>|
                members.contains_key(name) ==> (#[trigger] members[name]).is_plain(
                    (depth - 1) as nat,
                ),
        }
    }

    /// Whether the value and `other` differ in nothing but their numbers, as far as `depth`
    /// layers below the outermost one.
    pub open spec fn agrees_to(self, other: JsonView, depth: nat) -> bool
        decreases depth,
    {
        match (self, other) {
            (JsonView::Null, JsonView::Null) => true,
            (JsonView::Bool(a), JsonView::Bool(b)) => a == b,
            (JsonView::Number(_), JsonView::Number(_)) => true,
            (JsonView::Text(a), JsonView::Text(b)) => a == b,
            (JsonView::Array(a), JsonView::Array(b)) => {
                &&& a.len() == b.len()
                &&& depth > 0 ==> forall|i: int|
                    0 <= i < a.len() ==> (#[trigger] a[i]).agrees_to(b[i], (depth - 1) as nat)
            },
            (JsonView::Object(a), JsonView::Object(b)) => {
                &&& a.dom() == b.dom()
                &&& depth > 0 ==> forall|name: Seq<char>|
                    a.contains_key(name) ==> (#[trigger] a[name]).agrees_to(
                        b[name],
                        (depth - 1) as nat,
                    )
            },
            _ => false,
        }
    }

    /// Whether the value and `other` differ in nothing but their numbers.
    pub open spec fn agrees(self, other: JsonView) -> bool {
        forall|depth: nat| #[trigger] self.agrees_to(other, depth)
    }
}

/// The value of optional text: a string, or null.
pub open spec fn optional_view(text: Option<Seq<char>>) -> JsonView {
    match text {
        Some(t) => JsonView::Text(t),
        None => JsonView::Null,
    }
}

/// What a list of values is.
pub open spec fn trees(items: Seq<Json>) -> Seq<JsonView>
    decreases items,
{
    if items.len() == 0 {
        Seq::empty()
    } else {
        trees(items.drop_last()).push(items.last().tree())
    }
}

/// What a list of entries is: each entry sets its name, in turn.
pub open spec fn members(entries: Seq<(String, Json)>) -> Map<Seq<char>, JsonView>
    decreases entries,
{
    if entries.len() == 0 {
        Map::empty()
    } else {
        members(entries.drop_last()).insert(entries.last().0@, entries.last().1.tree())
    }
}

impl View for Json {
    type V = JsonView;

    open spec fn view(&self) -> JsonView {
        self.tree()
    }
}

// ---- the values of serde_json ----

/// What a value of `serde_json` holds.
pub uninterp spec fn value_tree(value: serde_json::Value) -> JsonView;

/// What an object of `serde_json` holds.
pub uninterp spec fn object_members(
    object: serde_json::Map<String, serde_json::Value>,
) -> Map<Seq<char>, JsonView>;

/// The value that `serde_json::from_str` reads from a text, if it reads one.
pub uninterp spec fn json_of_text(text: Seq<char>) -> Option<JsonView>;

/// The value that `serde_json::from_slice` reads from bytes, if it reads one.
pub uninterp spec fn json_of_bytes(bytes: Seq<u8>) -> Option<JsonView>;

/// The text that `serde_json::to_string` writes for a value.
pub uninterp spec fn text_of_json(json: JsonView) -> Seq<char>;

/// How deep arrays and objects may nest in a text that `serde_json` reads.
pub open spec fn nesting_limit() -> nat {
    127
}

/// Whether reading `text` gives `json` back: exactly, where it holds no number and does not
/// nest too deep, and up to its numbers wherever the text is read at all.
pub open spec fn reads_back(text: Seq<char>, json: JsonView) -> bool {
    &&& json.is_plain(nesting_limit()) ==> json_of_text(text) == Some(json)
    &&& json_of_text(text) matches Some(back) ==> back.agrees(json)
}

/// One layer of a value of `serde_json`.
pub enum Layer {
    Null,
    Bool(bool),
    Number(serde_json::Number),
    Text(String),
    Array(Vec<serde_json::Value>),
    Object(serde_json::Map<String, serde_json::Value>),
}

/// What a layer is.
pub open spec fn layer_tree(layer: Layer) -> JsonView {
    match layer {
        Layer::Null => JsonView::Null,
        Layer::Bool(b) => JsonView::Bool(b),
        Layer::Number(n) => JsonView::Number(n),
        Layer::Text(t) => JsonView::Text(t@),
        Layer::Array(items) => JsonView::Array(
            items@.map_values(|v: serde_json::Value| value_tree(v)),
        ),
        Layer::Object(object) => JsonView::Object(object_members(object)),
    }
}

/// What a list of entries of `serde_json` is: each entry sets its name, in turn.
pub open spec fn value_members(entries: Seq<(String, serde_json::Value)>) -> Map<
    Seq<char>,
    JsonView,
>
    decreases entries.len(),
{
    if entries.len() == 0 {
        Map::empty()
    } else {
        value_members(entries.drop_last()).insert(
            entries.last().0@,
            value_tree(entries.last().1),
        )
    }
}

/// Whether no two entries have one name.
pub open spec fn distinct_names(entries: Seq<(String, serde_json::Value)>) -> bool {
    forall|i: int, j: int| 0 <= i < j < entries.len() ==> entries[i].0@ != entries[j].0@
}

/// Calls `serde_json::from_str`: what it reads depends on the text alone.
#[verifier::external_body]
fn value_from_text(text: &str) -> (r: Result<serde_json::Value, serde_json::Error>)
    ensures
        match r {
            Ok(value) => json_of_text(text@) == Some(value_tree(value)),
            Err(_) => json_of_text(text@) is None,
        },
{
    serde_json::from_str(text)
}

/// Calls `serde_json::from_slice`: what it reads depends on the bytes alone.
#[verifier::external_body]
fn value_from_bytes(bytes: &[u8]) -> (r: Result<serde_json::Value, serde_json::Error>)
    ensures
        match r {
            Ok(value) => json_of_bytes(bytes@) == Some(value_tree(value)),
            Err(_) => json_of_bytes(bytes@) is None,
        },
{
    serde_json::from_slice(bytes)
}

/// Calls `serde_json::to_string` on a value, which never fails there: every number of a
/// value is finite and every name is a string. The text depends on what the value holds
/// alone, has no line break, as strings have theirs escaped and nothing is laid out, and no
/// white space at its ends. `serde_json::from_str` reads the same value back from it where the
/// value holds no number and nests no deeper than it reads; where the value holds numbers and
/// the text is read, everything but these is as it was. Left unsaid is that each number is
/// read, and as which number: the last digit of a fraction can differ.
#[verifier::external_body]
fn text_from_value(value: &serde_json::Value) -> (r: Result<String, serde_json::Error>)
    ensures
        r is Ok,
        r->Ok_0@ == text_of_json(value_tree(*value)),
        trimmed(r->Ok_0@) == r->Ok_0@,
        is_one_line(r->Ok_0@),
        reads_back(r->Ok_0@, value_tree(*value)),
{
    serde_json::to_string(value)
}

/// Takes the outermost layer off a `serde_json::Value`, one variant for one.
#[verifier::external_body]
fn open_value(value: serde_json::Value) -> (layer: Layer)
    ensures
        layer_tree(layer) == value_tree(value),
{
    match value {
        serde_json::Value::Null => Layer::Null,
        serde_json::Value::Bool(b) => Layer::Bool(b),
        serde_json::Value::Number(n) => Layer::Number(n),
        serde_json::Value::String(t) => Layer::Text(t),
        serde_json::Value::Array(items) => Layer::Array(items),
        serde_json::Value::Object(object) => Layer::Object(object),
    }
}

/// Makes a `serde_json::Value` of a layer, one variant for one.
#[verifier::external_body]
fn close_value(layer: Layer) -> (value: serde_json::Value)
    ensures
        value_tree(value) == layer_tree(layer),
{
    match layer {
        Layer::Null => serde_json::Value::Null,
        Layer::Bool(b) => serde_json::Value::Bool(b),
        Layer::Number(n) => serde_json::Value::Number(n),
        Layer::Text(t) => serde_json::Value::String(t),
        Layer::Array(items) => serde_json::Value::Array(items),
        Layer::Object(object) => serde_json::Value::Object(object),
    }
}

/// Calls `serde_json::Map::into_iter`, which hands out every member once.
#[verifier::external_body]
fn object_entries(
    object: serde_json::Map<String, serde_json::Value>,
) -> (entries: Vec<(String, serde_json::Value)>)
    ensures
        value_members(entries@) == object_members(object),
        distinct_names(entries@),
{
    object.into_iter().collect()
}

/// Calls `serde_json::Map::new`, which makes an object without members.
#[verifier::external_body]
fn empty_object() -> (object: serde_json::Map<String, serde_json::Value>)
    ensures
        object_members(object) == value_members(Seq::empty()),
{
    serde_json::Map::new()
}

/// Calls `serde_json::Map::insert`, which sets the member `name`.
#[verifier::external_body]
fn object_insert(
    object: &mut serde_json::Map<String, serde_json::Value>,
    name: String,
    value: serde_json::Value,
)
    ensures
        object_members(*final(object)) == object_members(*old(object)).insert(
            name@,
            value_tree(value),
        ),
{
    object.insert(name, value);
}

// ---- facts on trees and members ----

/// A list of values is, item by item, what its items are.
pub proof fn lemma_trees_index(items: Seq<Json>)
    ensures
        trees(items).len() == items.len(),
        forall|i: int| 0 <= i < items.len() ==> #[trigger] trees(items)[i] == items[i]@,
    decreases items.len(),
{
    if items.len() > 0 {
        lemma_trees_index(items.drop_last());
        assert forall|i: int| 0 <= i < items.len() implies #[trigger] trees(items)[i]
            == items[i]@ by {
            if i < items.len() - 1 {
                assert(trees(items)[i] == trees(items.drop_last())[i]);
            }
        }
    }
}

proof fn lemma_value_members_finite(entries: Seq<(String, serde_json::Value)>)
    ensures
        value_members(entries).dom().finite(),
    decreases entries.len(),
{
    if entries.len() > 0 {
        lemma_value_members_finite(entries.drop_last());
    }
}

proof fn lemma_value_member(entries: Seq<(String, serde_json::Value)>, i: int)
    requires
        distinct_names(entries),
        0 <= i < entries.len(),
    ensures
        value_members(entries).contains_key(entries[i].0@),
        value_members(entries)[entries[i].0@] == value_tree(entries[i].1),
    decreases entries.len(),
{
    if i < entries.len() - 1 {
        lemma_value_member(entries.drop_last(), i);
    }
}

proof fn lemma_same_members(
    entries: Seq<(String, Json)>,
    values: Seq<(String, serde_json::Value)>,
)
    requires
        entries.len() == values.len(),
        forall|i: int|
            0 <= i < entries.len() ==> (#[trigger] entries[i]).0@ == values[i].0@ && entries[i].1@
                == value_tree(values[i].1),
    ensures
        members(entries) == value_members(values),
    decreases entries.len(),
{
    if entries.len() > 0 {
        assert(entries.last() == entries[entries.len() - 1]);
        lemma_same_members(entries.drop_last(), values.drop_last());
    }
}

/// The last entry of a name gives that member.
proof fn lemma_member_found(entries: Seq<(String, Json)>, i: int)
    requires
        0 <= i < entries.len(),
        forall|j: int| i < j < entries.len() ==> (#[trigger] entries[j]).0@ != entries[i].0@,
    ensures
        members(entries).contains_key(entries[i].0@),
        members(entries)[entries[i].0@] == entries[i].1@,
    decreases entries.len(),
{
    if i < entries.len() - 1 {
        assert(entries.last() == entries[entries.len() - 1]);
        lemma_member_found(entries.drop_last(), i);
    }
}

/// A name without entry is no member.
proof fn lemma_member_absent(entries: Seq<(String, Json)>, name: Seq<char>)
    requires
        forall|j: int| 0 <= j < entries.len() ==> (#[trigger] entries[j]).0@ != name,
    ensures
        !members(entries).contains_key(name),
    decreases entries.len(),
{
    if entries.len() > 0 {
        assert(entries.last() == entries[entries.len() - 1]);
        lemma_member_absent(entries.drop_last(), name);
    }
}

/// The members of values that agree agree, and where one is a string so is the other, with the
/// same text.
pub proof fn lemma_members_agree(a: JsonView, b: JsonView, name: Seq<char>)
    requires
        a.agrees(b),
    ensures
        a.member(name).agrees(b.member(name)),
        a.member(name).text() == b.member(name).text(),
{
    assert(a.agrees_to(b, 0));
    assert forall|depth: nat| #[trigger]
        a.member(name).agrees_to(b.member(name), depth) by {
        assert(a.agrees_to(b, depth + 1));
        if let JsonView::Object(members) = a {
            assert(members.contains_key(name) <==> members.dom().contains(name));
        }
    }
    assert(a.member(name).agrees_to(b.member(name), 0));
}

// ---- reading and writing ----

/// Reads a JSON text.
pub fn parse_json(text: &str) -> (r: Result<Json, serde_json::Error>)
    ensures
        match r {
            Ok(json) => json_of_text(text@) == Some(json@),
            Err(_) => json_of_text(text@) is None,
        },
{
    match value_from_text(text) {
        Ok(value) => Ok(json_from_value(value)),
        Err(error) => Err(error),
    }
}

/// Reads JSON from bytes.
pub fn parse_json_bytes(bytes: &[u8]) -> (r: Result<Json, serde_json::Error>)
    ensures
        match r {
            Ok(json) => json_of_bytes(bytes@) == Some(json@),
            Err(_) => json_of_bytes(bytes@) is None,
        },
{
    match value_from_bytes(bytes) {
        Ok(value) => Ok(json_from_value(value)),
        Err(error) => Err(error),
    }
}

/// Takes a value of `serde_json` over, layer by layer.
fn json_from_value(value: serde_json::Value) -> (json: Json)
    ensures
        json@ == value_tree(value),
    decreases value_tree(value),
{
    let ghost tree = value_tree(value);
    match open_value(value) {
        Layer::Null => Json::Null,
        Layer::Bool(b) => Json::Bool(b),
        Layer::Number(n) => Json::Number(n),
        Layer::Text(t) => Json::Text(t),
        Layer::Array(values) => {
            let ghost all = values@;
            let mut items: Vec<Json> = Vec::new();
            for v in it: values
                invariant
                    it.seq() == all,
                    items@.len() == it.index(),
                    tree == value_tree(value),
                    tree == JsonView::Array(all.map_values(|v: serde_json::Value| value_tree(v))),
                    forall|i: int|
                        0 <= i < items@.len() ==> (#[trigger] items@[i])@ == value_tree(all[i]),
            {
                assert(decreases_to!(tree => tree->Array_0));
                assert(decreases_to!(tree->Array_0 => tree->Array_0[it.index() as int]));
                items.push(json_from_value(v));
            }
            proof {
                lemma_trees_index(items@);
                assert(trees(items@) =~= tree->Array_0);
            }
            Json::Array(items)
        },
        Layer::Object(object) => {
            let values = object_entries(object);
            let ghost all = values@;
            let mut entries: Vec<(String, Json)> = Vec::new();
            for entry in it: values
                invariant
                    it.seq() == all,
                    entries@.len() == it.index(),
                    tree == value_tree(value),
                    tree == JsonView::Object(value_members(all)),
                    distinct_names(all),
                    forall|i: int|
                        0 <= i < entries@.len() ==> (#[trigger] entries@[i]).0@ == all[i].0@
                            && entries@[i].1@ == value_tree(all[i].1),
            {
                proof {
                    lemma_value_members_finite(all);
                    lemma_value_member(all, it.index() as int);
                    assert(decreases_to!(tree => tree->Object_0));
                    assert(decreases_to!(tree->Object_0 => tree->Object_0[entry.0@]));
                }
                let (name, child) = entry;
                entries.push((name, json_from_value(child)));
            }
            proof {
                lemma_same_members(entries@, all);
            }
            Json::Object(entries)
        },
    }
}

/// Makes a value of `serde_json`, layer by layer.
fn value_from_json(json: Json) -> (value: serde_json::Value)
    ensures
        value_tree(value) == json@,
    decreases json,
{
    match json {
        Json::Null => close_value(Layer::Null),
        Json::Bool(b) => close_value(Layer::Bool(b)),
        Json::Number(n) => close_value(Layer::Number(n)),
        Json::Text(t) => close_value(Layer::Text(t)),
        Json::Array(items) => {
            let ghost all = items@;
            let mut values: Vec<serde_json::Value> = Vec::new();
            for item in it: items
                invariant
                    it.seq() == all,
                    all == items@,
                    json == Json::Array(items),
                    values@.len() == it.index(),
                    forall|i: int|
                        0 <= i < values@.len() ==> value_tree(#[trigger] values@[i]) == all[i]@,
            {
                assert(decreases_to!(json => json->Array_0));
                assert(decreases_to!(items => items@));
                assert(decreases_to!(items@ => items@[it.index() as int]));
                values.push(value_from_json(item));
            }
            proof {
                lemma_trees_index(all);
                assert(values@.map_values(|v: serde_json::Value| value_tree(v)) =~= trees(all));
            }
            close_value(Layer::Array(values))
        },
        Json::Object(entries) => {
            let ghost all = entries@;
            let mut object = empty_object();
            assert(all.take(0) =~= Seq::empty());
            for entry in it: entries
                invariant
                    it.seq() == all,
                    all == entries@,
                    json == Json::Object(entries),
                    object_members(object) == members(all.take(it.index() as int)),
            {
                assert(decreases_to!(json => json->Object_0));
                assert(decreases_to!(entries => entries@));
                assert(decreases_to!(entries@ => entries@[it.index() as int]));
                assert(decreases_to!(entry => entry.1));
                assert(all.take(it.index() + 1).drop_last() =~= all.take(it.index() as int));
                let (name, child) = entry;
                let value = value_from_json(child);
                object_insert(&mut object, name, value);
            }
            assert(all.take(all.len() as int) =~= all);
            close_value(Layer::Object(object))
        },
    }
}

impl Json {
    /// What the value is.
    pub open spec fn tree(self) -> JsonView
        decreases self,
    {
        match self {
            Json::Null => JsonView::Null,
            Json::Bool(b) => JsonView::Bool(b),
            Json::Number(n) => JsonView::Number(n),
            Json::Text(t) => JsonView::Text(t@),
            Json::Array(items) => JsonView::Array(trees(items@)),
            Json::Object(entries) => JsonView::Object(members(entries@)),
        }
    }

    /// Writes the value as compact text.
    pub fn print(self) -> (text: String)
        ensures
            text@ == text_of_json(self@),
            trimmed(text@) == text@,
            is_one_line(text@),
            reads_back(text@, self@),
    {
        let value = value_from_json(self);
        text_from_value(&value).unwrap()
    }

    /// A string.
    pub fn string(text: &str) -> (json: Json)
        ensures
            json@ == JsonView::Text(text@),
    {
        Json::Text(text.to_owned())
    }

    /// A string, or null for no text.
    pub fn optional_string(text: Option<&str>) -> (json: Json)
        ensures
            json@ == optional_view(optional_str(text)),
    {
        match text {
            Some(t) => Json::string(t),
            None => Json::Null,
        }
    }

    /// An object without members.
    pub fn object() -> (json: Json)
        ensures
            json@ == JsonView::Object(Map::empty()),
    {
        Json::Object(Vec::new())
    }

    /// The member `name`, if the value is an object that has one.
    pub fn get(&self, name: &str) -> (r: Option<&Json>)
        ensures
            match r {
                Some(value) => self@.get(name@) == Some(value@),
                None => self@.get(name@) is None,
            },
    {
        match self {
            Json::Object(entries) => {
                let mut i: usize = entries.len();
                while i > 0
                    invariant
                        i <= entries@.len(),
                        self == Json::Object(*entries),
                        forall|j: int|
                            i <= j < entries@.len() ==> (#[trigger] entries@[j]).0@ != name@,
                    decreases i,
                {
                    i = i - 1;
                    if same_text(entries[i].0.as_str(), name) {
                        proof {
                            lemma_member_found(entries@, i as int);
                        }
                        return Some(&entries[i].1);
                    }
                }
                proof {
                    lemma_member_absent(entries@, name@);
                }
                None
            },
            _ => None,
        }
    }

    /// The text of the member `name`, if it is a string.
    pub fn member_text(&self, name: &str) -> (r: Option<&str>)
        ensures
            optional_str(r) == self@.member(name@).text(),
    {
        match self.get(name) {
            Some(Json::Text(text)) => Some(text.as_str()),
            _ => None,
        }
    }

    /// The text of the member `name`, or the empty text where it is no string.
    pub fn text_or_empty(&self, name: &str) -> (r: &str)
        ensures
            r@ == self@.text_or_empty(name@),
    {
        match self.member_text(name) {
            Some(text) => text,
            None => {
                proof {
                    reveal_strlit("");
                }
                assert(""@ =~= Seq::empty());
                ""
            },
        }
    }

    /// The member `name`, or null where there is none.
    pub fn into_member(self, name: &str) -> (r: Json)
        ensures
            r@ == self@.member(name@),
    {
        match self {
            Json::Object(entries) => {
                let ghost all = entries@;
                let mut found: Json = Json::Null;
                assert(all.take(0) =~= Seq::empty());
                for entry in it: entries
                    invariant
                        it.seq() == all,
                        found@ == JsonView::Object(members(all.take(it.index() as int))).member(
                            name@,
                        ),
                {
                    assert(all.take(it.index() + 1).drop_last() =~= all.take(it.index() as int));
                    if same_text(entry.0.as_str(), name) {
                        found = entry.1;
                    }
                }
                assert(all.take(all.len() as int) =~= all);
                found
            },
            _ => Json::Null,
        }
    }

    /// The value with the member `name` set; a value that is no object stays as it is.
    pub fn with(self, name: &str, value: Json) -> (r: Json)
        ensures
            r@ == self@.with(name@, value@),
    {
        match self.without(name) {
            Json::Object(entries) => {
                let mut all = entries;
                all.push((name.to_owned(), value));
                assert(all@.drop_last() =~= entries@);
                assert(members(all@) =~= self@->Object_0.insert(name@, value@));
                Json::Object(all)
            },
            other => other,
        }
    }

    /// The value without the member `name`; a value that is no object stays as it is.
    pub fn without(self, name: &str) -> (r: Json)
        ensures
            r@ == self@.without(name@),
    {
        match self {
            Json::Object(entries) => {
                let ghost all = entries@;
                let mut kept: Vec<(String, Json)> = Vec::new();
                assert(all.take(0) =~= Seq::empty());
                assert(members(kept@) =~= members(all.take(0)).remove(name@));
                for entry in it: entries
                    invariant
                        it.seq() == all,
                        members(kept@) == members(all.take(it.index() as int)).remove(name@),
                {
                    assert(all.take(it.index() + 1).drop_last() =~= all.take(it.index() as int));
                    let ghost before = kept@;
                    if !same_text(entry.0.as_str(), name) {
                        kept.push(entry);
                        assert(kept@.drop_last() =~= before);
                    }
                    assert(members(kept@) =~= members(all.take(it.index() + 1)).remove(name@));
                }
                assert(all.take(all.len() as int) =~= all);
                Json::Object(kept)
            },
            other => other,
        }
    }
}

// ---- laws ----

/// A value is, variant by variant, what it holds.
pub proof fn law_value_is_what_it_holds(b: bool, n: serde_json::Number, t: String, items: Vec<Json>)
    ensures
        Json::Null@ == JsonView::Null,
        Json::Bool(b)@ == JsonView::Bool(b),
        Json::Number(n)@ == JsonView::Number(n),
        Json::Text(t)@ == JsonView::Text(t@),
        Json::Array(items)@ matches JsonView::Array(views) && views.len() == items@.len()
            && forall|i: int| 0 <= i < items@.len() ==> #[trigger] views[i] == items@[i]@,
{
    lemma_trees_index(items@);
}

/// An object has a member exactly where it has an entry of that name, and the last such entry
/// counts.
pub proof fn law_last_entry_counts(entries: Vec<(String, Json)>, name: Seq<char>)
    ensures
        Json::Object(entries)@.get(name) is Some <==> exists|i: int|
            0 <= i < entries@.len() && (#[trigger] entries@[i]).0@ == name,
        forall|i: int|
            0 <= i < entries@.len() && (#[trigger] entries@[i]).0@ == name && (forall|j: int|
                i < j < entries@.len() ==> (#[trigger] entries@[j]).0@ != name)
                ==> Json::Object(entries)@.get(name) == Some(entries@[i].1@),
    decreases entries@.len(),
{
    assert forall|i: int|
        0 <= i < entries@.len() && (#[trigger] entries@[i]).0@ == name && (forall|j: int|
            i < j < entries@.len() ==> (#[trigger] entries@[j]).0@ != name) implies Json::Object(
        entries,
    )@.get(name) == Some(entries@[i].1@) by {
        lemma_member_found(entries@, i);
    }
    if exists|i: int| 0 <= i < entries@.len() && (#[trigger] entries@[i]).0@ == name {
        lemma_some_entry_is_member(entries@, name);
    } else {
        lemma_member_absent(entries@, name);
    }
}

proof fn lemma_some_entry_is_member(entries: Seq<(String, Json)>, name: Seq<char>)
    requires
        exists|i: int| 0 <= i < entries.len() && (#[trigger] entries[i]).0@ == name,
    ensures
        members(entries).contains_key(name),
    decreases entries.len(),
{
    let i = choose|i: int| 0 <= i < entries.len() && (#[trigger] entries[i]).0@ == name;
    if entries.last().0@ != name {
        assert(entries.last() == entries[entries.len() - 1]);
        assert(entries.drop_last()[i].0@ == name);
        lemma_some_entry_is_member(entries.drop_last(), name);
    }
}

/// Only an object has members.
pub proof fn law_only_objects_have_members(json: Json, name: Seq<char>)
    requires
        json !is Object,
    ensures
        json@.get(name) is None,
        json@ !is Object,
{
}

/// A member is found exactly where there is one, and its text exactly where it is a string.
pub proof fn law_members_are_found(
    json: &Json,
    name: &str,
    found: Option<&Json>,
    text: Option<&str>,
    filled: &str,
)
    requires
        call_ensures(Json::get, (json, name), found),
        call_ensures(Json::member_text, (json, name), text),
        call_ensures(Json::text_or_empty, (json, name), filled),
    ensures
        found is Some <==> json@.get(name@) is Some,
        found is Some ==> json@.get(name@) == Some((found->0)@),
        text is Some <==> (json@.get(name@) matches Some(value) && value is Text),
        text is Some ==> json@.get(name@) == Some(JsonView::Text((text->0)@)),
        text is Some ==> filled@ == (text->0)@,
        text is None ==> filled@.len() == 0,
{
}

/// A member that is taken out is the one that was there; where there was none it is null.
pub proof fn law_taken_member_is_the_member(json: Json, name: &str, r: Json)
    requires
        call_ensures(Json::into_member, (json, name), r),
    ensures
        json@.get(name@) matches Some(value) ==> r@ == value,
        json@.get(name@) is None ==> r@ == JsonView::Null,
{
}

/// A member that was set is there, and all others are as before; a value that is no object is
/// left alone.
pub proof fn law_set_member_is_there(json: Json, name: &str, value: Json, r: Json, other: Seq<char>)
    requires
        call_ensures(Json::with, (json, name, value), r),
    ensures
        json is Object ==> r is Object && r@.get(name@) == Some(value@),
        other != name@ ==> r@.get(other) == json@.get(other),
        json !is Object ==> r@ == json@,
{
}

/// A member that was removed is gone, and all others are as before; a value that is no object is
/// left alone.
pub proof fn law_removed_member_is_gone(json: Json, name: &str, r: Json, other: Seq<char>)
    requires
        call_ensures(Json::without, (json, name), r),
    ensures
        r@.get(name@) is None,
        json is Object ==> r is Object,
        other != name@ ==> r@.get(other) == json@.get(other),
        json !is Object ==> r@ == json@,
{
}

/// Text makes a string, no text makes null, and a new object has no member.
pub proof fn law_new_values(
    text: &str,
    string: Json,
    some: Json,
    none: Json,
    object: Json,
    name: Seq<char>,
)
    requires
        call_ensures(Json::string, (text,), string),
        call_ensures(Json::optional_string, (Some(text),), some),
        call_ensures(Json::optional_string, (None,), none),
        call_ensures(Json::object, (), object),
    ensures
        string@ == JsonView::Text(text@),
        some@ == JsonView::Text(text@),
        none@ == JsonView::Null,
        object is Object,
        object@.get(name) is None,
{
}

/// What was printed is read again, exactly where it holds no number and does not nest too deep,
/// and in all but its numbers wherever it is read: with the same members, and the same texts.
pub proof fn law_printed_value_is_read(
    json: Json,
    printed: String,
    text: &str,
    r: Result<Json, serde_json::Error>,
    name: Seq<char>,
)
    requires
        call_ensures(Json::print, (json,), printed),
        call_ensures(parse_json, (text,), r),
        text@ == printed@,
    ensures
        json@.is_plain(127) ==> r is Ok && (r->Ok_0)@ == json@,
        r matches Ok(back) ==> back@.agrees(json@) && back@.member(name).text()
            == json@.member(name).text() && (back@.get(name) is Some <==> json@.get(name) is Some),
{
    if let Ok(back) = r {
        assert(back@.agrees_to(json@, 0));
        lemma_members_agree(back@, json@, name);
    }
}


/// Text and bytes are read exactly where they are JSON, and as the value that they hold.
pub proof fn law_json_is_read(
    text: &str,
    bytes: &[u8],
    from_text: Result<Json, serde_json::Error>,
    from_bytes: Result<Json, serde_json::Error>,
)
    requires
        call_ensures(parse_json, (text,), from_text),
        call_ensures(parse_json_bytes, (bytes,), from_bytes),
    ensures
        from_text is Ok <==> json_of_text(text@) is Some,
        from_text is Ok ==> json_of_text(text@) == Some((from_text->Ok_0)@),
        from_bytes is Ok <==> json_of_bytes(bytes@) is Some,
        from_bytes is Ok ==> json_of_bytes(bytes@) == Some((from_bytes->Ok_0)@),
{
}

} // verus!
