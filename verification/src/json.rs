//! JSON values as the library holds them, and their mathematical model.
//!
//! A number is carried as serde_json's own `Number`, so that nothing is lost of a value that the
//! library only passes on. All that the library reads of a number is whether it is an unsigned
//! integer, and which.

use serde_json::Number;
use vstd::prelude::*;

use crate::text::text_eq;

verus! {

/// `serde_json::Number`, carried without a look inside.
#[verifier::external_type_specification]
#[verifier::external_body]
pub struct ExNumber(serde_json::Number);

/// The three kinds of number that serde_json tells apart.
pub enum NumberView {
    /// An integer from zero to `u64::MAX`.
    Unsigned(u64),
    /// An integer below zero, from `i64::MIN`.
    Negative(i64),
    /// A binary floating-point number, given by its 64 bits.
    Float(u64),
}

/// What a `serde_json::Number` holds.
pub uninterp spec fn number_of(number: Number) -> NumberView;

/// Calls [`serde_json::Number::as_u64`]: the integer, where the number is one that is not negative.
#[verifier::external_body]
fn number_as_u64(number: &Number) -> (value: Option<u64>)
    ensures
        value == (match number_of(*number) {
            NumberView::Unsigned(value) => Some(value),
            _ => None,
        }),
{
    number.as_u64()
}

/// Calls serde_json's `From<u64>` for `Number`.
#[verifier::external_body]
fn number_from_u64(value: u64) -> (number: Number)
    ensures
        number_of(number) == NumberView::Unsigned(value),
{
    Number::from(value)
}

/// `Clone` of `serde_json::Number`: the copy is the same number.
pub assume_specification[ <serde_json::Number as Clone>::clone ](number: &Number) -> (copy: Number)
    ensures
        copy == *number,
;

/// The model of a JSON value. An object is a finite map: it has no order and no repeated name.
#[verifier::ext_equal]
pub enum JsonView {
    Null,
    Bool(bool),
    Number(NumberView),
    Str(Seq<char>),
    Array(Seq<JsonView>),
    Object(Map<Seq<char>, JsonView>),
}

impl JsonView {
    /// The field called `name`, where the value is an object that has one.
    pub open spec fn field(self, name: Seq<char>) -> Option<JsonView> {
        match self {
            JsonView::Object(fields) => if fields.contains_key(name) {
                Some(fields[name])
            } else {
                None
            },
            _ => None,
        }
    }

    /// The text, where the value is a string.
    pub open spec fn text(self) -> Option<Seq<char>> {
        match self {
            JsonView::Str(text) => Some(text),
            _ => None,
        }
    }

    /// The items, where the value is an array.
    pub open spec fn items(self) -> Option<Seq<JsonView>> {
        match self {
            JsonView::Array(items) => Some(items),
            _ => None,
        }
    }

    /// The integer, where the value is an unsigned integer.
    pub open spec fn unsigned(self) -> Option<u64> {
        match self {
            JsonView::Number(NumberView::Unsigned(value)) => Some(value),
            _ => None,
        }
    }

    /// The text of the field called `name`, where there is such a field and it is a string.
    pub open spec fn text_field(self, name: Seq<char>) -> Option<Seq<char>> {
        match self.field(name) {
            Some(value) => value.text(),
            None => None,
        }
    }

    /// The field called `name`, where there is such a field and it is an unsigned integer.
    pub open spec fn unsigned_field(self, name: Seq<char>) -> Option<u64> {
        match self.field(name) {
            Some(value) => value.unsigned(),
            None => None,
        }
    }
}

/// A JSON value. Where an object lists a name more than once, the last entry counts.
#[derive(Debug)]
pub enum Json {
    Null,
    Bool(bool),
    Number(Number),
    Str(String),
    Array(Vec<Json>),
    Object(Vec<(String, Json)>),
}

/// The model of a value.
pub open spec fn json_model(value: Json) -> JsonView
    decreases value,
{
    match value {
        Json::Null => JsonView::Null,
        Json::Bool(value) => JsonView::Bool(value),
        Json::Number(number) => JsonView::Number(number_of(number)),
        Json::Str(text) => JsonView::Str(text@),
        Json::Array(items) => JsonView::Array(items_model(items@)),
        Json::Object(entries) => JsonView::Object(fields_model(entries@)),
    }
}

/// The models of a list of values.
pub open spec fn items_model(items: Seq<Json>) -> Seq<JsonView>
    decreases items,
{
    if items.len() == 0 {
        Seq::empty()
    } else {
        items_model(items.drop_last()).push(json_model(items.last()))
    }
}

/// The map that a list of entries stands for.
pub open spec fn fields_model(entries: Seq<(String, Json)>) -> Map<Seq<char>, JsonView>
    decreases entries,
{
    if entries.len() == 0 {
        Map::empty()
    } else {
        fields_model(entries.drop_last()).insert(entries.last().0@, json_model(entries.last().1))
    }
}

impl View for Json {
    type V = JsonView;

    open spec fn view(&self) -> JsonView {
        json_model(*self)
    }
}

/// The models of a list of values stand in the order of the values.
pub proof fn lemma_items_model(items: Seq<Json>)
    ensures
        items_model(items).len() == items.len(),
        forall|i: int| 0 <= i < items.len() ==> #[trigger] items_model(items)[i] == json_model(
            items[i],
        ),
    decreases items.len(),
{
    if items.len() > 0 {
        lemma_items_model(items.drop_last());
    }
}

/// One more value at the end of a list is one more model at the end.
pub proof fn lemma_items_model_push(items: Seq<Json>, item: Json)
    ensures
        items_model(items.push(item)) == items_model(items).push(json_model(item)),
{
    assert(items.push(item).drop_last() =~= items);
}

/// One more entry at the end of a list sets its name in the map.
pub proof fn lemma_fields_model_push(entries: Seq<(String, Json)>, entry: (String, Json))
    ensures
        fields_model(entries.push(entry)) == fields_model(entries).insert(
            entry.0@,
            json_model(entry.1),
        ),
{
    assert(entries.push(entry).drop_last() =~= entries);
}

/// The last entry of a name is its value in the map.
pub proof fn lemma_fields_model_last(entries: Seq<(String, Json)>, name: Seq<char>, at: int)
    requires
        0 <= at < entries.len(),
        entries[at].0@ == name,
        forall|i: int| at < i < entries.len() ==> (#[trigger] entries[i]).0@ != name,
    ensures
        fields_model(entries).contains_key(name),
        fields_model(entries)[name] == json_model(entries[at].1),
    decreases entries.len(),
{
    if at < entries.len() - 1 {
        assert(entries[entries.len() - 1].0@ != name);
        lemma_fields_model_last(entries.drop_last(), name, at);
    }
}

/// A name without an entry is not in the map.
pub proof fn lemma_fields_model_absent(entries: Seq<(String, Json)>, name: Seq<char>)
    requires
        forall|i: int| 0 <= i < entries.len() ==> (#[trigger] entries[i]).0@ != name,
    ensures
        !fields_model(entries).contains_key(name),
    decreases entries.len(),
{
    if entries.len() > 0 {
        assert(entries[entries.len() - 1].0@ != name);
        lemma_fields_model_absent(entries.drop_last(), name);
    }
}

/// Sets a field in the entries of an object.
pub fn put(entries: &mut Vec<(String, Json)>, name: &str, value: Json)
    ensures
        fields_model(final(entries)@) == fields_model(old(entries)@).insert(name@, value@),
{
    proof {
        assert forall|key: String| key@ == name@ implies #[trigger] fields_model(
            entries@.push((key, value)),
        ) == fields_model(entries@).insert(name@, value@) by {
            lemma_fields_model_push(entries@, (key, value));
        }
    }
    entries.push((name.to_owned(), value));
}

impl Json {
    /// A string value.
    pub fn from_text(text: &str) -> (value: Json)
        ensures
            value@ == JsonView::Str(text@),
    {
        Json::Str(text.to_owned())
    }

    /// An unsigned integer.
    pub fn from_u64(value: u64) -> (number: Json)
        ensures
            number@ == JsonView::Number(NumberView::Unsigned(value)),
    {
        Json::Number(number_from_u64(value))
    }

    /// The field called `name`, where the value is an object that has one.
    pub fn get(&self, name: &str) -> (found: Option<&Json>)
        ensures
            self@.field(name@) == (match found {
                Some(value) => Some(value@),
                None => None,
            }),
    {
        match self {
            Json::Object(entries) => {
                let mut i: usize = entries.len();
                while i > 0
                    invariant
                        i <= entries@.len(),
                        forall|j: int| i <= j < entries@.len() ==> (#[trigger] entries@[j]).0@
                            != name@,
                        *self == Json::Object(*entries),
                    decreases i,
                {
                    i -= 1;
                    if text_eq(entries[i].0.as_str(), name) {
                        proof {
                            lemma_fields_model_last(entries@, name@, i as int);
                        }
                        return Some(&entries[i].1);
                    }
                }
                proof {
                    lemma_fields_model_absent(entries@, name@);
                }
                None
            },
            _ => None,
        }
    }

    /// The text, where the value is a string.
    pub fn as_str(&self) -> (text: Option<&str>)
        ensures
            self@.text() == (match text {
                Some(text) => Some(text@),
                None => None,
            }),
    {
        match self {
            Json::Str(text) => Some(text.as_str()),
            _ => None,
        }
    }

    /// The items, where the value is an array.
    pub fn as_array(&self) -> (items: Option<&Vec<Json>>)
        ensures
            self@.items() == (match items {
                Some(items) => Some(items_model(items@)),
                None => None,
            }),
    {
        match self {
            Json::Array(items) => Some(items),
            _ => None,
        }
    }

    /// The integer, where the value is an unsigned integer.
    pub fn as_u64(&self) -> (value: Option<u64>)
        ensures
            self@.unsigned() == value,
    {
        match self {
            Json::Number(number) => number_as_u64(number),
            _ => None,
        }
    }

    /// The text of the field called `name`, where there is such a field and it is a string.
    pub fn get_str(&self, name: &str) -> (text: Option<&str>)
        ensures
            self@.text_field(name@) == (match text {
                Some(text) => Some(text@),
                None => None,
            }),
    {
        match self.get(name) {
            Some(value) => value.as_str(),
            None => None,
        }
    }

    /// The field called `name`, where there is such a field and it is an unsigned integer.
    pub fn get_u64(&self, name: &str) -> (value: Option<u64>)
        ensures
            self@.unsigned_field(name@) == value,
    {
        match self.get(name) {
            Some(value) => value.as_u64(),
            None => None,
        }
    }
}

impl Clone for Json {
    fn clone(&self) -> (copy: Json)
        ensures
            copy@ == self@,
        decreases *self,
    {
        match self {
            Json::Null => Json::Null,
            Json::Bool(value) => Json::Bool(*value),
            Json::Number(number) => Json::Number(number.clone()),
            Json::Str(text) => Json::Str(text.clone()),
            Json::Array(items) => {
                let mut copies: Vec<Json> = Vec::new();
                let mut i: usize = 0;
                while i < items.len()
                    invariant
                        i <= items@.len(),
                        *self == Json::Array(*items),
                        items_model(copies@) == items_model(items@.take(i as int)),
                    decreases items@.len() - i,
                {
                    proof {
                        assert(decreases_to!(*self => self->Array_0));
                        assert(decreases_to!(*items => items@));
                        assert(decreases_to!(items@ => items@[i as int]));
                    }
                    let copy: Json = items[i].clone();
                    proof {
                        lemma_items_model_push(copies@, copy);
                        lemma_items_model_push(items@.take(i as int), items@[i as int]);
                        assert(items@.take(i + 1) =~= items@.take(i as int).push(items@[i as int]));
                    }
                    copies.push(copy);
                    i += 1;
                }
                assert(items@.take(items@.len() as int) =~= items@);
                Json::Array(copies)
            },
            Json::Object(entries) => {
                let mut copies: Vec<(String, Json)> = Vec::new();
                let mut i: usize = 0;
                while i < entries.len()
                    invariant
                        i <= entries@.len(),
                        *self == Json::Object(*entries),
                        fields_model(copies@) == fields_model(entries@.take(i as int)),
                    decreases entries@.len() - i,
                {
                    proof {
                        assert(decreases_to!(*self => self->Object_0));
                        assert(decreases_to!(*entries => entries@));
                        assert(decreases_to!(entries@ => entries@[i as int]));
                        assert(decreases_to!(entries@[i as int] => entries@[i as int].1));
                    }
                    let copy: Json = entries[i].1.clone();
                    proof {
                        lemma_fields_model_push(entries@.take(i as int), entries@[i as int]);
                        assert(entries@.take(i + 1) =~= entries@.take(i as int).push(
                            entries@[i as int],
                        ));
                    }
                    put(&mut copies, entries[i].0.as_str(), copy);
                    i += 1;
                }
                assert(entries@.take(entries@.len() as int) =~= entries@);
                Json::Object(copies)
            },
        }
    }
}

} // verus!
