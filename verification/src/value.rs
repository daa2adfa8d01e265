//! JSON text and serde_json's own values, read and written through serde_json.

use serde_json::{Number, Value};
use vstd::prelude::*;

use crate::json::{put, Json, JsonView};
use crate::text::text_eq;

verus! {

/// `serde_json::Value`.
#[verifier::external_type_specification]
#[verifier::external_body]
pub struct ExValue(serde_json::Value);

/// The JSON tree that a `serde_json::Value` holds.
pub uninterp spec fn json_of(value: Value) -> JsonView;

/// What [`serde_json::from_str`] makes of a text: the tree, where the text is JSON.
pub uninterp spec fn text_json(text: Seq<char>) -> Option<JsonView>;

/// What [`serde_json::from_slice`] makes of a byte string: the tree, or what its error says.
pub uninterp spec fn bytes_json(bytes: Seq<u8>) -> Result<JsonView, Seq<char>>;

/// What [`serde_json::to_string`] makes of a value: the text, or what its error says.
pub uninterp spec fn json_text(tree: JsonView) -> Result<Seq<char>, Seq<char>>;

/// One level of a `serde_json::Value`: its variant, with the values below it left as they are.
pub enum Layer {
    Null,
    Bool(bool),
    Number(Number),
    Str(String),
    Array(Vec<Value>),
    Object(Vec<(String, Value)>),
}

/// The JSON tree that one level stands for.
pub open spec fn layer_view(layer: Layer) -> JsonView {
    match layer {
        Layer::Null => JsonView::Null,
        Layer::Bool(value) => JsonView::Bool(value),
        Layer::Number(number) => JsonView::Number(crate::json::number_of(number)),
        Layer::Str(text) => JsonView::Str(text@),
        Layer::Array(values) => JsonView::Array(values_view(values@)),
        Layer::Object(entries) => JsonView::Object(entries_view(entries@)),
    }
}

/// The trees of a list of values.
pub open spec fn values_view(values: Seq<Value>) -> Seq<JsonView> {
    values.map_values(|value: Value| json_of(value))
}

/// The map that a list of named values stands for: the last entry of a name counts.
pub open spec fn entries_view(entries: Seq<(String, Value)>) -> Map<Seq<char>, JsonView>
    decreases entries.len(),
{
    if entries.len() == 0 {
        Map::empty()
    } else {
        entries_view(entries.drop_last()).insert(entries.last().0@, json_of(entries.last().1))
    }
}

/// No two entries have the same name.
pub open spec fn names_differ(entries: Seq<(String, Value)>) -> bool {
    forall|i: int, j: int|
        0 <= i < j < entries.len() ==> (#[trigger] entries[i]).0@ != (#[trigger] entries[j]).0@
}

/// A tree that serde_json reads back as it was after writing it out: it nests at most `depth`
/// levels of arrays and objects, and every number in it is an integer.
pub open spec fn reads_back(tree: JsonView, depth: nat) -> bool
    decreases depth,
{
    match tree {
        JsonView::Null | JsonView::Bool(_) | JsonView::Str(_) => true,
        JsonView::Number(number) => !(number is Float),
        JsonView::Array(items) => depth > 0 && forall|i: int|
            0 <= i < items.len() ==> reads_back(#[trigger] items[i], (depth - 1) as nat),
        JsonView::Object(fields) => depth > 0 && forall|name: Seq<char>|
            fields.contains_key(name) ==> reads_back(#[trigger] fields[name], (depth - 1) as nat),
    }
}

/// The levels of arrays and objects that serde_json's reader goes down.
pub const READ_DEPTH: u64 = 127;

/// Takes a `serde_json::Value` apart by its variants. The entries of a `serde_json::Map` come out
/// through its `IntoIterator`, each name once.
#[verifier::external_body]
fn open_value(value: Value) -> (layer: Layer)
    ensures
        layer_view(layer) == json_of(value),
        layer matches Layer::Object(entries) ==> names_differ(entries@),
{
    match value {
        Value::Null => Layer::Null,
        Value::Bool(value) => Layer::Bool(value),
        Value::Number(number) => Layer::Number(number),
        Value::String(text) => Layer::Str(text),
        Value::Array(values) => Layer::Array(values),
        Value::Object(map) => Layer::Object(map.into_iter().collect()),
    }
}

/// Puts a `serde_json::Value` together. The entries go into a `serde_json::Map` through its
/// `FromIterator`. Which entry stays where two have the same name is left open there, so no two may.
#[verifier::external_body]
fn close_value(layer: Layer) -> (value: Value)
    requires
        layer matches Layer::Object(entries) ==> names_differ(entries@),
    ensures
        json_of(value) == layer_view(layer),
{
    match layer {
        Layer::Null => Value::Null,
        Layer::Bool(value) => Value::Bool(value),
        Layer::Number(number) => Value::Number(number),
        Layer::Str(text) => Value::String(text),
        Layer::Array(values) => Value::Array(values),
        Layer::Object(entries) => Value::Object(entries.into_iter().collect()),
    }
}

/// Calls [`serde_json::from_str`] for a `serde_json::Value`; why a text is not JSON is dropped.
#[verifier::external_body]
fn value_from_text(text: &str) -> (value: Option<Value>)
    ensures
        text_json(text@) == (match value {
            Some(value) => Some(json_of(value)),
            None => None,
        }),
{
    serde_json::from_str(text).ok()
}

/// Calls [`serde_json::from_slice`] for a `serde_json::Value`; of an error, what it says is kept.
#[verifier::external_body]
fn value_from_bytes(bytes: &[u8]) -> (value: Result<Value, String>)
    ensures
        bytes_json(bytes@) == (match value {
            Ok(value) => Ok(json_of(value)),
            Err(reason) => Err(reason@),
        }),
{
    match serde_json::from_slice(bytes) {
        Ok(value) => Ok(value),
        Err(error) => Err(error.to_string()),
    }
}

/// Calls [`serde_json::to_string`] on a `serde_json::Value`; of an error, what it says is kept.
/// There is none: the names in a `Value` are strings and the text is written to memory. Where the reader's limit on nesting is kept and every number is an integer, the text that was
/// written reads back as the same tree. Of floating-point numbers that is left unsaid: without its
/// `float_roundtrip` feature the reader may round them.
#[verifier::external_body]
fn value_to_text(value: &Value) -> (text: Result<String, String>)
    ensures
        json_text(json_of(*value)) == (match text {
            Ok(text) => Ok(text@),
            Err(reason) => Err(reason@),
        }),
        text is Ok,
        text matches Ok(text) ==> reads_back(json_of(*value), READ_DEPTH as nat) ==> text_json(
            text@,
        ) == Some(json_of(*value)),
{
    match serde_json::to_string(value) {
        Ok(text) => Ok(text),
        Err(error) => Err(error.to_string()),
    }
}

/// The map of a list of entries has finitely many names.
proof fn lemma_entries_view_finite(entries: Seq<(String, Value)>)
    ensures
        entries_view(entries).dom().finite(),
    decreases entries.len(),
{
    if entries.len() > 0 {
        lemma_entries_view_finite(entries.drop_last());
    }
}

/// Where the names differ, every entry is in the map.
proof fn lemma_entries_view_has(entries: Seq<(String, Value)>, i: int)
    requires
        names_differ(entries),
        0 <= i < entries.len(),
    ensures
        entries_view(entries).contains_key(entries[i].0@),
        entries_view(entries)[entries[i].0@] == json_of(entries[i].1),
    decreases entries.len(),
{
    if i < entries.len() - 1 {
        assert(entries[i].0@ != entries[entries.len() - 1].0@);
        assert forall|a: int, b: int| 0 <= a < b < entries.len() - 1 implies (
        #[trigger] entries.drop_last()[a]).0@ != (#[trigger] entries.drop_last()[b]).0@ by {
            assert(entries[a].0@ != entries[b].0@);
        }
        lemma_entries_view_has(entries.drop_last(), i);
    }
}

/// One more entry at the end of a list sets its name in the map.
proof fn lemma_entries_view_push(entries: Seq<(String, Value)>, entry: (String, Value))
    ensures
        entries_view(entries.push(entry)) == entries_view(entries).insert(
            entry.0@,
            json_of(entry.1),
        ),
{
    assert(entries.push(entry).drop_last() =~= entries);
}

/// Without one of its entries, a list whose names differ stands for the map without that name.
proof fn lemma_entries_view_remove(entries: Seq<(String, Value)>, i: int)
    requires
        names_differ(entries),
        0 <= i < entries.len(),
    ensures
        entries_view(entries.remove(i)) == entries_view(entries).remove(entries[i].0@),
    decreases entries.len(),
{
    let name = entries[i].0@;
    let head = entries.drop_last();
    if i == entries.len() - 1 {
        assert(entries.remove(i) =~= head);
        lemma_entries_view_absent(head, name);
        assert(entries_view(head) =~= entries_view(entries).remove(name));
    } else {
        assert(entries[i].0@ != entries[entries.len() - 1].0@);
        assert forall|a: int, b: int| 0 <= a < b < head.len() implies (#[trigger] head[a]).0@ != (
        #[trigger] head[b]).0@ by {
            assert(entries[a].0@ != entries[b].0@);
        }
        lemma_entries_view_remove(head, i);
        assert(entries.remove(i).drop_last() =~= head.remove(i));
        assert(entries.remove(i).last() == entries.last());
        assert(entries_view(entries.remove(i)) =~= entries_view(entries).remove(name));
    }
}

/// A name without an entry is not in the map.
proof fn lemma_entries_view_absent(entries: Seq<(String, Value)>, name: Seq<char>)
    requires
        forall|i: int| 0 <= i < entries.len() ==> (#[trigger] entries[i]).0@ != name,
    ensures
        !entries_view(entries).contains_key(name),
    decreases entries.len(),
{
    if entries.len() > 0 {
        assert(entries[entries.len() - 1].0@ != name);
        lemma_entries_view_absent(entries.drop_last(), name);
    }
}

/// Sets a name in a list of entries whose names differ.
fn set_entry(entries: &mut Vec<(String, Value)>, name: String, value: Value)
    requires
        names_differ(old(entries)@),
    ensures
        names_differ(final(entries)@),
        entries_view(final(entries)@) == entries_view(old(entries)@).insert(name@, json_of(value)),
{
    let ghost before = entries@;
    let mut i: usize = 0;
    while i < entries.len() && !text_eq(entries[i].0.as_str(), name.as_str())
        invariant
            i <= entries@.len(),
            entries@ == before,
            forall|j: int| 0 <= j < i ==> (#[trigger] before[j]).0@ != name@,
        decreases entries@.len() - i,
    {
        i += 1;
    }
    if i < entries.len() {
        proof {
            lemma_entries_view_remove(before, i as int);
            assert forall|j: int| 0 <= j < before.len() && j != i implies (#[trigger] before[j]).0@
                != name@ by {
                assert(before[j].0@ != before[i as int].0@);
            }
        }
        entries.remove(i);
    }
    let ghost kept = entries@;
    assert(entries_view(kept).insert(name@, json_of(value)) =~= entries_view(before).insert(
        name@,
        json_of(value),
    ));
    entries.push((name, value));
    proof {
        lemma_entries_view_push(kept, (name, value));
    }
}

impl Json {
    /// The library's form of a `serde_json::Value`.
    pub fn from_value(root: Value) -> (json: Json)
        ensures
            json@ == json_of(root),
        decreases json_of(root),
    {
        let ghost tree = json_of(root);
        match open_value(root) {
            Layer::Null => Json::Null,
            Layer::Bool(value) => Json::Bool(value),
            Layer::Number(number) => Json::Number(number),
            Layer::Str(text) => Json::Str(text),
            Layer::Array(values) => {
                let mut items: Vec<Json> = Vec::new();
                let ghost all = values@;
                for value in it: values
                    invariant
                        it.seq() == all,
                        tree == json_of(root),
                        tree == JsonView::Array(values_view(all)),
                        crate::json::items_model(items@) == values_view(
                            all.take(it.index() as int),
                        ),
                {
                    proof {
                        assert(values_view(all)[it.index() as int] == json_of(value));
                        assert(decreases_to!(tree => tree->Array_0));
                        assert(decreases_to!(tree->Array_0 => tree->Array_0[it.index() as int]));
                    }
                    let item: Json = Json::from_value(value);
                    proof {
                        crate::json::lemma_items_model_push(items@, item);
                        assert(values_view(all.take(it.index() + 1)) =~= values_view(
                            all.take(it.index() as int),
                        ).push(json_of(value)));
                    }
                    items.push(item);
                }
                assert(all.take(all.len() as int) =~= all);
                Json::Array(items)
            },
            Layer::Object(entries) => {
                let mut fields: Vec<(String, Json)> = Vec::new();
                let ghost all = entries@;
                for entry in it: entries
                    invariant
                        it.seq() == all,
                        names_differ(all),
                        tree == json_of(root),
                        tree == JsonView::Object(entries_view(all)),
                        crate::json::fields_model(fields@) == entries_view(
                            all.take(it.index() as int),
                        ),
                {
                    let (name, value) = entry;
                    proof {
                        lemma_entries_view_finite(all);
                        lemma_entries_view_has(all, it.index() as int);
                        assert(decreases_to!(tree => tree->Object_0));
                        assert(decreases_to!(tree->Object_0 => tree->Object_0[name@]));
                    }
                    let item: Json = Json::from_value(value);
                    proof {
                        assert(all.take(it.index() + 1).drop_last() =~= all.take(it.index() as int));
                    }
                    put(&mut fields, name.as_str(), item);
                }
                assert(all.take(all.len() as int) =~= all);
                Json::Object(fields)
            },
        }
    }

    /// The `serde_json::Value` that holds the same tree.
    pub fn to_value(&self) -> (value: Value)
        ensures
            json_of(value) == self@,
        decreases *self,
    {
        match self {
            Json::Null => close_value(Layer::Null),
            Json::Bool(value) => close_value(Layer::Bool(*value)),
            Json::Number(number) => close_value(Layer::Number(number.clone())),
            Json::Str(text) => close_value(Layer::Str(text.clone())),
            Json::Array(items) => {
                let mut values: Vec<Value> = Vec::new();
                let mut i: usize = 0;
                while i < items.len()
                    invariant
                        i <= items@.len(),
                        *self == Json::Array(*items),
                        values_view(values@) == crate::json::items_model(items@.take(i as int)),
                    decreases items@.len() - i,
                {
                    proof {
                        assert(decreases_to!(*self => self->Array_0));
                        assert(decreases_to!(*items => items@));
                        assert(decreases_to!(items@ => items@[i as int]));
                    }
                    let value: Value = items[i].to_value();
                    proof {
                        crate::json::lemma_items_model_push(
                            items@.take(i as int),
                            items@[i as int],
                        );
                        assert(items@.take(i + 1) =~= items@.take(i as int).push(items@[i as int]));
                        assert(values_view(values@.push(value)) =~= values_view(values@).push(
                            json_of(value),
                        ));
                    }
                    values.push(value);
                    i += 1;
                }
                assert(items@.take(items@.len() as int) =~= items@);
                close_value(Layer::Array(values))
            },
            Json::Object(entries) => {
                let mut values: Vec<(String, Value)> = Vec::new();
                let mut i: usize = 0;
                while i < entries.len()
                    invariant
                        i <= entries@.len(),
                        *self == Json::Object(*entries),
                        names_differ(values@),
                        entries_view(values@) == crate::json::fields_model(entries@.take(i as int)),
                    decreases entries@.len() - i,
                {
                    proof {
                        assert(decreases_to!(*self => self->Object_0));
                        assert(decreases_to!(*entries => entries@));
                        assert(decreases_to!(entries@ => entries@[i as int]));
                        assert(decreases_to!(entries@[i as int] => entries@[i as int].1));
                    }
                    let value: Value = entries[i].1.to_value();
                    let name: String = entries[i].0.clone();
                    proof {
                        crate::json::lemma_fields_model_push(
                            entries@.take(i as int),
                            entries@[i as int],
                        );
                        assert(entries@.take(i + 1) =~= entries@.take(i as int).push(
                            entries@[i as int],
                        ));
                    }
                    set_entry(&mut values, name, value);
                    i += 1;
                }
                assert(entries@.take(entries@.len() as int) =~= entries@);
                close_value(Layer::Object(values))
            },
        }
    }

    /// Reads a text as JSON.
    pub fn from_json_text(text: &str) -> (json: Option<Json>)
        ensures
            text_json(text@) == (match json {
                Some(json) => Some(json@),
                None => None,
            }),
    {
        match value_from_text(text) {
            Some(value) => Some(Json::from_value(value)),
            None => None,
        }
    }

    /// Reads a byte string as JSON. The error is what the reader says of it.
    pub fn from_json_bytes(bytes: &[u8]) -> (json: Result<Json, String>)
        ensures
            bytes_json(bytes@) == (match json {
                Ok(json) => Ok(json@),
                Err(reason) => Err(reason@),
            }),
    {
        match value_from_bytes(bytes) {
            Ok(value) => Ok(Json::from_value(value)),
            Err(reason) => Err(reason),
        }
    }

    /// Writes the value out as JSON text. The error is what the writer says of it. A value that
    /// [`reads_back`] describes is read from the text again.
    pub fn to_json_text(&self) -> (text: Result<String, String>)
        ensures
            json_text(self@) == (match text {
                Ok(text) => Ok(text@),
                Err(reason) => Err(reason@),
            }),
            text is Ok,
            text matches Ok(text) ==> reads_back(self@, READ_DEPTH as nat) ==> text_json(text@)
                == Some(self@),
    {
        value_to_text(&self.to_value())
    }
}

} // verus!
