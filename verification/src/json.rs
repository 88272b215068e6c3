//! JSON values as plain trees, with `serde_json` behind the reading and writing of
//! their text.

use vstd::prelude::*;

use crate::text::same;

verus! {

/// A JSON value of `serde_json`.
#[verifier::external_type_specification]
#[verifier::external_body]
pub struct ExValue(serde_json::Value);

/// A JSON number of `serde_json`: an integer or a floating-point number, carried
/// as it came.
#[verifier::external_type_specification]
#[verifier::external_body]
pub struct ExNumber(serde_json::Number);

/// The tree that a `serde_json::Value` holds, each object's entries in the order in
/// which the object is walked.
pub uninterp spec fn value_json(value: serde_json::Value) -> JsonView;

/// What `serde_json::from_str` reads from a text: the value, or the text of the
/// error.
pub uninterp spec fn json_parse(text: Seq<char>) -> Result<JsonView, Seq<char>>;

/// The tree as a `serde_json::Value` arranges it: `serde_json` decides in which order an
/// object is walked, and which of two entries of one name stays.
pub uninterp spec fn arranged(tree: JsonView) -> JsonView;

/// What `serde_json::to_string` writes for a value that holds a tree: the text, or the
/// text of the error.
pub uninterp spec fn json_text(value: JsonView) -> Result<Seq<char>, Seq<char>>;

/// The number that `serde_json::Number` makes of an `i64`.
pub uninterp spec fn int_number(n: i64) -> serde_json::Number;

/// The number that `serde_json::Number` makes of a `u64`.
pub uninterp spec fn uint_number(n: u64) -> serde_json::Number;

/// A JSON value.
#[derive(Debug, PartialEq)]
pub enum Json {
    Null,
    Bool(bool),
    Number(serde_json::Number),
    Text(String),
    Array(Vec<Json>),
    Object(Fields),
}

/// The entries of a JSON object, in order.
#[derive(Debug, PartialEq)]
pub struct Fields {
    pub entries: Vec<(String, Json)>,
}

/// A JSON value as a mathematical tree.
pub enum JsonView {
    Null,
    Bool(bool),
    Number(serde_json::Number),
    Text(Seq<char>),
    Array(Seq<JsonView>),
    Object(Seq<(Seq<char>, JsonView)>),
}

/// The tree of a JSON value.
pub open spec fn json_view(json: Json) -> JsonView
    decreases json,
{
    match json {
        Json::Null => JsonView::Null,
        Json::Bool(b) => JsonView::Bool(b),
        Json::Number(n) => JsonView::Number(n),
        Json::Text(s) => JsonView::Text(s@),
        Json::Array(items) => JsonView::Array(
            Seq::new(
                items@.len(),
                |i: int|
                    if 0 <= i < items@.len() {
                        json_view(items@[i])
                    } else {
                        JsonView::Null
                    },
            ),
        ),
        Json::Object(fields) => JsonView::Object(
            Seq::new(
                fields.entries@.len(),
                |i: int|
                    if 0 <= i < fields.entries@.len() {
                        (fields.entries@[i].0@, json_view(fields.entries@[i].1))
                    } else {
                        (Seq::empty(), JsonView::Null)
                    },
            ),
        ),
    }
}

impl View for Json {
    type V = JsonView;

    open spec fn view(&self) -> JsonView {
        json_view(*self)
    }
}

impl View for Fields {
    type V = Seq<(Seq<char>, JsonView)>;

    open spec fn view(&self) -> Seq<(Seq<char>, JsonView)> {
        entries_view(self.entries@)
    }
}

/// The trees of a row of JSON values.
pub open spec fn items_view(items: Seq<Json>) -> Seq<JsonView> {
    items.map_values(|item: Json| item@)
}

/// The entries of an object, as names and trees.
pub open spec fn entries_view(entries: Seq<(String, Json)>) -> Seq<(Seq<char>, JsonView)> {
    entries.map_values(|entry: (String, Json)| (entry.0@, entry.1@))
}

/// An object without entries.
pub open spec fn no_fields() -> Seq<(Seq<char>, JsonView)> {
    Seq::empty()
}

/// The position of the first entry named `key`; the number of entries where there is
/// none.
pub open spec fn position_of(entries: Seq<(Seq<char>, JsonView)>, key: Seq<char>) -> int
    decreases entries.len(),
{
    if entries.len() == 0 || entries[0].0 == key {
        0
    } else {
        1 + position_of(entries.drop_first(), key)
    }
}

/// The value of the entry named `key`.
pub open spec fn lookup(entries: Seq<(Seq<char>, JsonView)>, key: Seq<char>) -> Option<JsonView> {
    let at = position_of(entries, key);
    if at < entries.len() {
        Some(entries[at].1)
    } else {
        None
    }
}

/// The entries with the value of `key` set: in its place where there is one, else
/// behind the others.
pub open spec fn with_entry(
    entries: Seq<(Seq<char>, JsonView)>,
    key: Seq<char>,
    value: JsonView,
) -> Seq<(Seq<char>, JsonView)> {
    let at = position_of(entries, key);
    if at < entries.len() {
        entries.update(at, (key, value))
    } else {
        entries.push((key, value))
    }
}

/// The text that a tree holds, where it is one.
pub open spec fn as_text(value: Option<JsonView>) -> Option<Seq<char>> {
    match value {
        Some(JsonView::Text(s)) => Some(s),
        _ => None,
    }
}

/// The value of a field of an object.
pub open spec fn field(tree: JsonView, name: Seq<char>) -> Option<JsonView> {
    match tree {
        JsonView::Object(entries) => lookup(entries, name),
        _ => None,
    }
}

/// The text of a field of an object.
pub open spec fn text_field(tree: JsonView, name: Seq<char>) -> Option<Seq<char>> {
    as_text(field(tree, name))
}

/// A JSON value that may be missing, as a tree.
pub open spec fn maybe_json(json: Option<Json>) -> Option<JsonView> {
    match json {
        Some(json) => Some(json@),
        None => None,
    }
}

/// What is known of `position_of`.
pub proof fn lemma_position_of(entries: Seq<(Seq<char>, JsonView)>, key: Seq<char>)
    ensures
        0 <= position_of(entries, key) <= entries.len(),
        forall|j: int| 0 <= j < position_of(entries, key) ==> (#[trigger] entries[j]).0 != key,
        position_of(entries, key) < entries.len() ==> entries[position_of(entries, key)].0 == key,
    decreases entries.len(),
{
    if entries.len() > 0 && entries[0].0 != key {
        let rest = entries.drop_first();
        lemma_position_of(rest, key);
        assert forall|j: int| 0 <= j < position_of(entries, key) implies (
        #[trigger] entries[j]).0 != key by {
            if j > 0 {
                assert(entries[j] == rest[j - 1]);
            }
        }
    }
}

/// The first entry named `key` stands where no earlier one is so named.
proof fn lemma_position_is(entries: Seq<(Seq<char>, JsonView)>, key: Seq<char>, at: int)
    requires
        0 <= at <= entries.len(),
        forall|j: int| 0 <= j < at ==> (#[trigger] entries[j]).0 != key,
        at < entries.len() ==> entries[at].0 == key,
    ensures
        position_of(entries, key) == at,
{
    lemma_position_of(entries, key);
}

/// A value that was set is the value that is found, and no other value changes.
pub proof fn law_set_then_get(
    entries: Seq<(Seq<char>, JsonView)>,
    key: Seq<char>,
    value: JsonView,
    other: Seq<char>,
)
    ensures
        lookup(with_entry(entries, key, value), key) == Some(value),
        other != key ==> lookup(with_entry(entries, key, value), other) == lookup(entries, other),
{
    let after = with_entry(entries, key, value);
    lemma_position_of(entries, key);
    lemma_position_is(after, key, position_of(entries, key));
    if other != key {
        lemma_position_of(entries, other);
        let at = position_of(entries, other);
        if at < entries.len() {
            lemma_position_is(after, other, at);
        } else {
            lemma_position_is(after, other, after.len() as int);
        }
    }
}

/// The value of a name is that of the first entry of the name; a name that no entry has
/// has none.
pub proof fn law_first_entry_is_found(entries: Seq<(Seq<char>, JsonView)>, key: Seq<char>)
    ensures
        match lookup(entries, key) {
            Some(value) => exists|i: int|
                0 <= i < entries.len() && #[trigger] entries[i] == (key, value) && forall|j: int|
                    0 <= j < i ==> (#[trigger] entries[j]).0 != key,
            None => forall|i: int| 0 <= i < entries.len() ==> (#[trigger] entries[i]).0 != key,
        },
{
    lemma_position_of(entries, key);
    let at = position_of(entries, key);
    if at < entries.len() {
        assert(entries[at] == (key, entries[at].1));
    }
}

/// What is found once an entry stands behind the others.
pub broadcast proof fn lemma_lookup_pushed(
    entries: Seq<(Seq<char>, JsonView)>,
    entry: (Seq<char>, JsonView),
    key: Seq<char>,
)
    ensures
        #[trigger] lookup(entries.push(entry), key) == (if lookup(entries, key) is Some {
            lookup(entries, key)
        } else if entry.0 == key {
            Some(entry.1)
        } else {
            None
        }),
{
    let longer = entries.push(entry);
    let at = position_of(entries, key);
    lemma_position_of(entries, key);
    if at < entries.len() || entry.0 == key {
        lemma_position_is(longer, key, at);
    } else {
        lemma_position_is(longer, key, longer.len() as int);
    }
}

/// Nothing is found where there are no entries.
pub broadcast proof fn lemma_lookup_nothing(key: Seq<char>)
    ensures
        #[trigger] lookup(no_fields(), key) == None::<JsonView>,
{
}

/// The tree of an array is the row of its items' trees.
pub proof fn lemma_array_view(items: Vec<Json>)
    ensures
        Json::Array(items)@ == JsonView::Array(items_view(items@)),
{
    assert(Json::Array(items)@->Array_0 =~= items_view(items@));
}

/// The tree of an object is the row of its entries.
pub proof fn lemma_object_view(fields: Fields)
    ensures
        Json::Object(fields)@ == JsonView::Object(fields@),
{
    assert(Json::Object(fields)@->Object_0 =~= fields@);
}

/// `serde_json::Number::clone` gives back the same number.
pub assume_specification[ <serde_json::Number as Clone>::clone ](n: &serde_json::Number) -> (r:
    serde_json::Number)
    ensures
        r == *n,
;

/// The conversion of an `i64` to a `serde_json::Number`, named `int_number`.
#[verifier::external_body]
fn number_of_int(n: i64) -> (r: serde_json::Number)
    ensures
        r == int_number(n),
{
    serde_json::Number::from(n)
}

/// The conversion of a `u64` to a `serde_json::Number`, named `uint_number`.
#[verifier::external_body]
fn number_of_uint(n: u64) -> (r: serde_json::Number)
    ensures
        r == uint_number(n),
{
    serde_json::Number::from(n)
}

/// Takes a `serde_json::Value` apart into a tree, variant by variant: the tree is the
/// one that the value holds. The entries of its objects come in the order in which a
/// `serde_json::Value` walks them, each name once, so a value built from it holds the same
/// tree.
#[verifier::external_body]
fn json_of_value(value: serde_json::Value) -> (r: Json)
    ensures
        r@ == value_json(value),
        arranged(r@) == r@,
{
    match value {
        serde_json::Value::Null => Json::Null,
        serde_json::Value::Bool(b) => Json::Bool(b),
        serde_json::Value::Number(n) => Json::Number(n),
        serde_json::Value::String(s) => Json::Text(s),
        serde_json::Value::Array(items) => Json::Array(items.into_iter().map(json_of_value).collect()),
        serde_json::Value::Object(map) => Json::Object(Fields {
            entries: map.into_iter().map(|(key, item)| (key, json_of_value(item))).collect(),
        }),
    }
}

/// `serde_json::from_str` into a `serde_json::Value`: what it reads is a function of
/// the text, named `json_parse`, and so is the text of its error.
#[verifier::external_body]
fn value_of_text(text: &str) -> (r: Result<serde_json::Value, String>)
    ensures
        match r {
            Ok(value) => json_parse(text@) == Ok::<JsonView, Seq<char>>(value_json(value)),
            Err(error) => json_parse(text@) == Err::<JsonView, Seq<char>>(error@),
        },
{
    serde_json::from_str::<serde_json::Value>(text).map_err(|error| error.to_string())
}

/// Builds a `serde_json::Value` from a tree, variant by variant: what the value holds is
/// a function of the tree, named `arranged`. In which order the entries of an object are
/// walked, and which of two entries of one name stays, is up to how `serde_json` keeps
/// them and is not stated.
#[verifier::external_body]
fn value_of_json(json: &Json) -> (r: serde_json::Value)
    ensures
        value_json(r) == arranged(json@),
{
    match json {
        Json::Null => serde_json::Value::Null,
        Json::Bool(b) => serde_json::Value::Bool(*b),
        Json::Number(n) => serde_json::Value::Number(n.clone()),
        Json::Text(s) => serde_json::Value::String(s.clone()),
        Json::Array(items) => items.iter().map(value_of_json).collect(),
        Json::Object(fields) => fields.entries.iter()
            .map(|(key, item)| (key.clone(), value_of_json(item)))
            .collect(),
    }
}

/// `serde_json::to_string` on a `serde_json::Value`: the text is a function of what the
/// value holds, named `json_text`, and so is the text of its error.
#[verifier::external_body]
fn text_of_value(value: &serde_json::Value) -> (r: Result<String, String>)
    ensures
        match r {
            Ok(text) => json_text(value_json(*value)) == Ok::<Seq<char>, Seq<char>>(text@),
            Err(error) => json_text(value_json(*value)) == Err::<Seq<char>, Seq<char>>(error@),
        },
{
    serde_json::to_string(value).map_err(|error| error.to_string())
}

/// Reads a JSON text: the value, or what is wrong with the text.
pub fn parse(text: &str) -> (r: Result<Json, String>)
    ensures
        match r {
            Ok(json) => json_parse(text@) == Ok::<JsonView, Seq<char>>(json@) && arranged(json@)
                == json@,
            Err(error) => json_parse(text@) == Err::<JsonView, Seq<char>>(error@),
        },
{
    match value_of_text(text) {
        Ok(value) => Ok(json_of_value(value)),
        Err(error) => Err(error),
    }
}

/// Writes a JSON value as text.
pub fn to_text(json: &Json) -> (r: Result<String, String>)
    ensures
        match r {
            Ok(text) => json_text(arranged(json@)) == Ok::<Seq<char>, Seq<char>>(text@),
            Err(error) => json_text(arranged(json@)) == Err::<Seq<char>, Seq<char>>(error@),
        },
{
    text_of_value(&value_of_json(json))
}

/// A text as a JSON value.
pub fn text(s: &str) -> (r: Json)
    ensures
        r@ == JsonView::Text(s@),
{
    Json::Text(s.to_owned())
}

/// A signed number as a JSON value.
pub fn signed(n: i64) -> (r: Json)
    ensures
        r@ == JsonView::Number(int_number(n)),
{
    Json::Number(number_of_int(n))
}

/// An unsigned number as a JSON value.
pub fn unsigned(n: u64) -> (r: Json)
    ensures
        r@ == JsonView::Number(uint_number(n)),
{
    Json::Number(number_of_uint(n))
}

/// An array of JSON values.
pub fn array(items: Vec<Json>) -> (r: Json)
    ensures
        r@ == JsonView::Array(items_view(items@)),
{
    proof {
        lemma_array_view(items);
    }
    Json::Array(items)
}

/// An array of one JSON value.
pub fn array_of_one(item: Json) -> (r: Json)
    ensures
        r@ == JsonView::Array(seq![item@]),
{
    let items = vec![item];
    assert(items_view(items@) =~= seq![item@]);
    array(items)
}

/// The tree that a `serde_json::Value` holds. A value built from it holds the same tree.
pub fn from_value(value: serde_json::Value) -> (r: Json)
    ensures
        r@ == value_json(value),
        arranged(r@) == r@,
{
    json_of_value(value)
}

/// A tree as a `serde_json::Value`.
pub fn to_value(json: &Json) -> (r: serde_json::Value)
    ensures
        value_json(r) == arranged(json@),
{
    value_of_json(json)
}

impl Json {
    /// The entries, where the value is an object.
    pub fn as_object(&self) -> (r: Option<&Fields>)
        ensures
            match self@ {
                JsonView::Object(entries) => r matches Some(fields) && fields@ == entries,
                _ => r is None,
            },
    {
        match self {
            Json::Object(fields) => {
                proof {
                    lemma_object_view(*fields);
                }
                Some(fields)
            },
            _ => None,
        }
    }

    /// The items, where the value is an array.
    pub fn as_array(&self) -> (r: Option<&Vec<Json>>)
        ensures
            match self@ {
                JsonView::Array(items) => r matches Some(found) && items_view(found@) == items,
                _ => r is None,
            },
    {
        match self {
            Json::Array(items) => {
                proof {
                    lemma_array_view(*items);
                }
                Some(items)
            },
            _ => None,
        }
    }

    /// The text, where the value is one.
    pub fn as_str(&self) -> (r: Option<&str>)
        ensures
            match self@ {
                JsonView::Text(s) => r matches Some(found) && found@ == s,
                _ => r is None,
            },
    {
        match self {
            Json::Text(s) => Some(s.as_str()),
            _ => None,
        }
    }

    /// Whether the value is null.
    pub fn is_null(&self) -> (r: bool)
        ensures
            r == (self@ == JsonView::Null),
    {
        match self {
            Json::Null => true,
            _ => false,
        }
    }

    /// A copy of the value.
    pub fn duplicate(&self) -> (r: Json)
        ensures
            r@ == self@,
        decreases self,
    {
        match self {
            Json::Null => Json::Null,
            Json::Bool(b) => Json::Bool(*b),
            Json::Number(n) => Json::Number(n.clone()),
            Json::Text(s) => Json::Text(s.clone()),
            Json::Array(items) => {
                let mut out: Vec<Json> = Vec::new();
                for i in 0..items.len()
                    invariant
                        *self == Json::Array(*items),
                        out@.len() == i,
                        forall|k: int| 0 <= k < i ==> (#[trigger] out@[k])@ == items@[k]@,
                {
                    assert(decreases_to!(*self => self->Array_0@[i as int]));
                    out.push(items[i].duplicate());
                }
                proof {
                    lemma_array_view(*items);
                    assert(items_view(out@) =~= items_view(items@));
                }
                array(out)
            },
            Json::Object(fields) => {
                let mut out = Fields { entries: Vec::new() };
                for i in 0..fields.entries.len()
                    invariant
                        *self == Json::Object(*fields),
                        out.entries@.len() == i,
                        forall|k: int|
                            0 <= k < i ==> (#[trigger] out.entries@[k]).0@ == fields.entries@[k].0@
                                && out.entries@[k].1@ == fields.entries@[k].1@,
                {
                    assert(decreases_to!(*self => self->Object_0.entries@[i as int].1));
                    out.entries.push((fields.entries[i].0.clone(), fields.entries[i].1.duplicate()));
                }
                proof {
                    lemma_object_view(*fields);
                    assert(out@ =~= fields@);
                }
                out.into_object()
            },
        }
    }
}

impl Fields {
    /// No entries.
    pub fn new() -> (r: Fields)
        ensures
            r@ == no_fields(),
    {
        let r = Fields { entries: Vec::new() };
        assert(r@ =~= no_fields());
        r
    }

    /// One more entry, behind the others.
    pub fn with(self, key: &str, value: Json) -> (r: Fields)
        ensures
            r@ == self@.push((key@, value@)),
    {
        let mut entries = self.entries;
        entries.push((key.to_owned(), value));
        let r = Fields { entries };
        assert(r@ =~= self@.push((key@, value@)));
        r
    }

    /// The entries as a JSON object.
    pub fn into_object(self) -> (r: Json)
        ensures
            r@ == JsonView::Object(self@),
    {
        proof {
            lemma_object_view(self);
        }
        Json::Object(self)
    }

    /// The position of the first entry named `key`; the number of entries where there
    /// is none.
    fn position(&self, key: &str) -> (r: usize)
        ensures
            r == position_of(self@, key@),
    {
        for i in 0..self.entries.len()
            invariant
                forall|j: int| 0 <= j < i ==> (#[trigger] self@[j]).0 != key@,
        {
            assert(self@[i as int].0 == self.entries@[i as int].0@);
            if same(self.entries[i].0.as_str(), key) {
                proof {
                    lemma_position_is(self@, key@, i as int);
                }
                return i;
            }
        }
        proof {
            lemma_position_is(self@, key@, self@.len() as int);
        }
        self.entries.len()
    }

    /// The value of the entry named `key`.
    pub fn get(&self, key: &str) -> (r: Option<&Json>)
        ensures
            r is Some == lookup(self@, key@) is Some,
            r matches Some(json) ==> lookup(self@, key@) == Some(json@),
    {
        let at = self.position(key);
        if at < self.entries.len() {
            Some(&self.entries[at].1)
        } else {
            None
        }
    }

    /// The text of the entry named `key`, where that is a text.
    pub fn get_text(&self, key: &str) -> (r: Option<&str>)
        ensures
            r is Some == as_text(lookup(self@, key@)) is Some,
            r matches Some(s) ==> as_text(lookup(self@, key@)) == Some(s@),
    {
        match self.get(key) {
            Some(Json::Text(s)) => Some(s.as_str()),
            _ => None,
        }
    }

    /// The entries with the value of `key` set: in its place where there is one, else
    /// behind the others.
    pub fn set(self, key: &str, value: Json) -> (r: Fields)
        ensures
            r@ == with_entry(self@, key@, value@),
    {
        let at = self.position(key);
        let mut entries = self.entries;
        if at < entries.len() {
            entries.set(at, (key.to_owned(), value));
        } else {
            entries.push((key.to_owned(), value));
        }
        let r = Fields { entries };
        assert(r@ =~= with_entry(self@, key@, value@));
        r
    }
}

} // verus!
