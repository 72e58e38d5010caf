//! JSON values as the library reads and builds them, and the two places where
//! text becomes a value and a value becomes text.

use crate::error::EncodingFailure;
use crate::error::EsError;
use crate::limits::check_limits;
use crate::limits::within_limits;
use crate::text::slices;
use rustc_serialize::json::EncoderError;
use rustc_serialize::json::Json;
use rustc_serialize::json::ParserError;
use vstd::prelude::*;

verus! {

/// `rustc_serialize::json::Json`. The library carries such a value and never
/// looks inside.
#[verifier::external_type_specification]
#[verifier::external_body]
pub struct ExJson(Json);

/// The mathematical value of a JSON document.
///
/// An object is an ordered list of fields; a lookup returns the first field
/// with the requested name.
#[verifier::ext_equal]
pub ghost enum JsonModel {
    Null,
    Boolean(bool),
    I64(i64),
    U64(u64),
    Float(Json),
    String(Seq<char>),
    Array(Seq<JsonModel>),
    Object(Seq<(Seq<char>, JsonModel)>),
}

/// The value of the first field called `key` at or after position `from`.
pub open spec fn lookup_from(fields: Seq<(Seq<char>, JsonModel)>, key: Seq<char>, from: int) -> Option<JsonModel>
    decreases fields.len() - from,
{
    if from < 0 || from >= fields.len() {
        None
    } else if fields[from].0 == key {
        Some(fields[from].1)
    } else {
        lookup_from(fields, key, from + 1)
    }
}

/// No two fields of the list have the same name.
pub open spec fn names_differ(fields: Seq<(Seq<char>, JsonModel)>) -> bool {
    forall|i: int, j: int|
        0 <= i < j < fields.len() ==> (#[trigger] fields[i]).0 != (#[trigger] fields[j]).0
}

impl JsonModel {
    /// The field `key` of an object; `None` for a missing field or a non-object.
    pub open spec fn get(self, key: Seq<char>) -> Option<JsonModel> {
        match self {
            JsonModel::Object(fields) => lookup_from(fields, key, 0),
            _ => None,
        }
    }

    /// Follows `keys` through nested objects, starting at position `from` of `keys`.
    pub open spec fn find_path_from(self, keys: Seq<Seq<char>>, from: int) -> Option<JsonModel>
        decreases keys.len() - from,
    {
        if from < 0 || from >= keys.len() {
            Some(self)
        } else {
            match self.get(keys[from]) {
                Some(inner) => inner.find_path_from(keys, from + 1),
                None => None,
            }
        }
    }

    /// Follows `keys` through nested objects.
    pub open spec fn find_path(self, keys: Seq<Seq<char>>) -> Option<JsonModel> {
        self.find_path_from(keys, 0)
    }

    pub open spec fn as_string(self) -> Option<Seq<char>> {
        match self {
            JsonModel::String(s) => Some(s),
            _ => None,
        }
    }

    pub open spec fn as_boolean(self) -> Option<bool> {
        match self {
            JsonModel::Boolean(b) => Some(b),
            _ => None,
        }
    }

    /// A number that fits an unsigned 64-bit integer.
    pub open spec fn as_u64(self) -> Option<u64> {
        match self {
            JsonModel::U64(n) => Some(n),
            JsonModel::I64(n) => if n >= 0 { Some(n as u64) } else { None },
            _ => None,
        }
    }

    /// A number below the largest signed 64-bit integer.
    pub open spec fn as_i64(self) -> Option<i64> {
        match self {
            JsonModel::I64(n) => Some(n),
            JsonModel::U64(n) => if n < i64::MAX as u64 { Some(n as i64) } else { None },
            _ => None,
        }
    }

    pub open spec fn as_array(self) -> Option<Seq<JsonModel>> {
        match self {
            JsonModel::Array(items) => Some(items),
            _ => None,
        }
    }

    pub open spec fn as_object(self) -> Option<Seq<(Seq<char>, JsonModel)>> {
        match self {
            JsonModel::Object(fields) => Some(fields),
            _ => None,
        }
    }

    /// Whether no object of the document, at any depth, has two fields of
    /// the same name.
    pub open spec fn distinct_names(self) -> bool
        decreases self,
    {
        match self {
            JsonModel::Array(items) => forall|i: int|
                0 <= i < items.len() ==> (#[trigger] items[i]).distinct_names(),
            JsonModel::Object(fields) => names_differ(fields) && forall|i: int|
                0 <= i < fields.len() ==> (#[trigger] fields[i]).1.distinct_names(),
            _ => true,
        }
    }

    pub open spec fn has_key(self, key: Seq<char>) -> bool {
        self.get(key) is Some
    }

    /// The string in field `key`.
    pub open spec fn string_at(self, key: Seq<char>) -> Option<Seq<char>> {
        match self.get(key) {
            Some(v) => v.as_string(),
            None => None,
        }
    }

    /// The unsigned integer in field `key`.
    pub open spec fn u64_at(self, key: Seq<char>) -> Option<u64> {
        match self.get(key) {
            Some(v) => v.as_u64(),
            None => None,
        }
    }

    /// The boolean in field `key`.
    pub open spec fn boolean_at(self, key: Seq<char>) -> Option<bool> {
        match self.get(key) {
            Some(v) => v.as_boolean(),
            None => None,
        }
    }

    /// The array in field `key`.
    pub open spec fn array_at(self, key: Seq<char>) -> Option<Seq<JsonModel>> {
        match self.get(key) {
            Some(v) => v.as_array(),
            None => None,
        }
    }
}

/// A JSON value held in memory.
#[derive(Debug, PartialEq)]
pub enum JsonValue {
    Null,
    Boolean(bool),
    I64(i64),
    U64(u64),
    /// A number with a fraction or an exponent, kept as the parser produced it.
    Float(Json),
    String(String),
    Array(Vec<JsonValue>),
    Object(Vec<(String, JsonValue)>),
}

impl JsonValue {
    /// The mathematical value that this value stands for.
    pub open spec fn model(&self) -> JsonModel
        decreases self,
    {
        match self {
            JsonValue::Null => JsonModel::Null,
            JsonValue::Boolean(b) => JsonModel::Boolean(*b),
            JsonValue::I64(n) => JsonModel::I64(*n),
            JsonValue::U64(n) => JsonModel::U64(*n),
            JsonValue::Float(j) => JsonModel::Float(*j),
            JsonValue::String(s) => JsonModel::String(s@),
            JsonValue::Array(items) => JsonModel::Array(
                Seq::new(
                    items@.len(),
                    |i: int|
                        if 0 <= i < items@.len() {
                            items@[i].model()
                        } else {
                            JsonModel::Null
                        },
                ),
            ),
            JsonValue::Object(fields) => JsonModel::Object(
                Seq::new(
                    fields@.len(),
                    |i: int|
                        if 0 <= i < fields@.len() {
                            (fields@[i].0@, fields@[i].1.model())
                        } else {
                            (Seq::empty(), JsonModel::Null)
                        },
                ),
            ),
        }
    }
}

impl View for JsonValue {
    type V = JsonModel;

    open spec fn view(&self) -> JsonModel {
        self.model()
    }
}

/// The views of a list of values, in order.
pub open spec fn items_model(items: Seq<JsonValue>) -> Seq<JsonModel> {
    Seq::new(items.len(), |i: int| items[i]@)
}

/// The views of a list of fields, in order.
pub open spec fn fields_model(fields: Seq<(String, JsonValue)>) -> Seq<(Seq<char>, JsonModel)> {
    Seq::new(fields.len(), |i: int| (fields[i].0@, fields[i].1@))
}

/// An array's view is the list of its items' views.
pub proof fn lemma_array_view(items: Vec<JsonValue>)
    ensures
        JsonValue::Array(items)@ == JsonModel::Array(items_model(items@)),
{
    assert(JsonValue::Array(items)@->Array_0 =~= items_model(items@));
}

/// An object's view is the list of its fields' views.
pub proof fn lemma_object_view(fields: Vec<(String, JsonValue)>)
    ensures
        JsonValue::Object(fields)@ == JsonModel::Object(fields_model(fields@)),
{
    assert(JsonValue::Object(fields)@->Object_0 =~= fields_model(fields@));
}

/// `Json::clone`, as `derive(Clone)` wrote it: the copy equals the value it was made from.
pub assume_specification[ <Json as Clone>::clone ](j: &Json) -> (r: Json)
    ensures
        r == *j,
;

impl JsonValue {
    /// A string value with the characters of `s`.
    pub fn string(s: &str) -> (r: JsonValue)
        ensures
            r@ == JsonModel::String(s@),
    {
        JsonValue::String(String::from_str(s))
    }

    /// The field `key` of an object.
    pub fn find(&self, key: &str) -> (r: Option<&JsonValue>)
        ensures
            match r {
                Some(v) => self@.get(key@) == Some(v@),
                None => self@.get(key@) is None,
            },
    {
        match self {
            JsonValue::Object(fields) => {
                proof {
                    lemma_object_view(*fields);
                }
                let probe = String::from_str(key);
                let mut i: usize = 0;
                while i < fields.len()
                    invariant
                        i <= fields.len(),
                        probe@ == key@,
                        self@ == JsonModel::Object(fields_model(fields@)),
                        lookup_from(fields_model(fields@), key@, 0) == lookup_from(
                            fields_model(fields@),
                            key@,
                            i as int,
                        ),
                    decreases fields.len() - i,
                {
                    if fields[i].0 == probe {
                        return Some(&fields[i].1);
                    }
                    i += 1;
                }
                None
            },
            _ => None,
        }
    }

    /// Follows `keys` through nested objects.
    pub fn find_path(&self, keys: &[&str]) -> (r: Option<&JsonValue>)
        ensures
            match r {
                Some(v) => self@.find_path(slices(keys@)) == Some(v@),
                None => self@.find_path(slices(keys@)) is None,
            },
    {
        let mut target: &JsonValue = self;
        let mut i: usize = 0;
        while i < keys.len()
            invariant
                i <= keys.len(),
                self@.find_path_from(slices(keys@), 0) == target@.find_path_from(
                    slices(keys@),
                    i as int,
                ),
            decreases keys.len() - i,
        {
            match target.find(keys[i]) {
                Some(inner) => {
                    target = inner;
                },
                None => {
                    return None;
                },
            }
            i += 1;
        }
        Some(target)
    }

    pub fn as_string(&self) -> (r: Option<&str>)
        ensures
            match r {
                Some(s) => self@.as_string() == Some(s@),
                None => self@.as_string() is None,
            },
    {
        match self {
            JsonValue::String(s) => Some(s.as_str()),
            _ => None,
        }
    }

    pub fn as_boolean(&self) -> (r: Option<bool>)
        ensures
            r == self@.as_boolean(),
    {
        match self {
            JsonValue::Boolean(b) => Some(*b),
            _ => None,
        }
    }

    /// The number as an unsigned integer, where it is one.
    pub fn as_u64(&self) -> (r: Option<u64>)
        ensures
            r == self@.as_u64(),
    {
        match self {
            JsonValue::U64(n) => Some(*n),
            JsonValue::I64(n) => if *n >= 0 {
                Some(*n as u64)
            } else {
                None
            },
            _ => None,
        }
    }

    /// The number as a signed integer, where it is below `i64::MAX`.
    pub fn as_i64(&self) -> (r: Option<i64>)
        ensures
            r == self@.as_i64(),
    {
        match self {
            JsonValue::I64(n) => Some(*n),
            JsonValue::U64(n) => if *n < i64::MAX as u64 {
                Some(*n as i64)
            } else {
                None
            },
            _ => None,
        }
    }

    pub fn as_object(&self) -> (r: Option<&Vec<(String, JsonValue)>>)
        ensures
            match r {
                Some(fields) => self@.as_object() == Some(fields_model(fields@)),
                None => self@.as_object() is None,
            },
    {
        match self {
            JsonValue::Object(fields) => {
                proof {
                    lemma_object_view(*fields);
                }
                Some(fields)
            },
            _ => None,
        }
    }

    pub fn as_array(&self) -> (r: Option<&Vec<JsonValue>>)
        ensures
            match r {
                Some(items) => self@.as_array() == Some(items_model(items@)),
                None => self@.as_array() is None,
            },
    {
        match self {
            JsonValue::Array(items) => {
                proof {
                    lemma_array_view(*items);
                }
                Some(items)
            },
            _ => None,
        }
    }
}

impl JsonValue {
    /// The string in field `key`, or a `DecodeShapeError` that names the field.
    pub fn read_string(&self, key: &str) -> (r: Result<String, EsError>)
        ensures
            match r {
                Ok(s) => self@.string_at(key@) == Some(s@),
                Err(e) => self@.string_at(key@) is None && e.is_shape_error(key@),
            },
    {
        match self.find(key) {
            Some(v) => match v.as_string() {
                Some(s) => Ok(String::from_str(s)),
                None => Err(EsError::shape(key)),
            },
            None => Err(EsError::shape(key)),
        }
    }

    /// The unsigned integer in field `key`, or a `DecodeShapeError` that names
    /// the field.
    pub fn read_u64(&self, key: &str) -> (r: Result<u64, EsError>)
        ensures
            match r {
                Ok(n) => self@.u64_at(key@) == Some(n),
                Err(e) => self@.u64_at(key@) is None && e.is_shape_error(key@),
            },
    {
        match self.find(key) {
            Some(v) => match v.as_u64() {
                Some(n) => Ok(n),
                None => Err(EsError::shape(key)),
            },
            None => Err(EsError::shape(key)),
        }
    }

    /// The boolean in field `key`, or a `DecodeShapeError` that names the field.
    pub fn read_boolean(&self, key: &str) -> (r: Result<bool, EsError>)
        ensures
            match r {
                Ok(b) => self@.boolean_at(key@) == Some(b),
                Err(e) => self@.boolean_at(key@) is None && e.is_shape_error(key@),
            },
    {
        match self.find(key) {
            Some(v) => match v.as_boolean() {
                Some(b) => Ok(b),
                None => Err(EsError::shape(key)),
            },
            None => Err(EsError::shape(key)),
        }
    }

    /// The array in field `key`, or a `DecodeShapeError` that names the field.
    pub fn read_array(&self, key: &str) -> (r: Result<&Vec<JsonValue>, EsError>)
        ensures
            match r {
                Ok(items) => self@.array_at(key@) == Some(items_model(items@)),
                Err(e) => self@.array_at(key@) is None && e.is_shape_error(key@),
            },
    {
        match self.find(key) {
            Some(v) => match v.as_array() {
                Some(items) => Ok(items),
                None => Err(EsError::shape(key)),
            },
            None => Err(EsError::shape(key)),
        }
    }

    /// The object in field `key`, or a `DecodeShapeError` that names the field.
    pub fn read_member(&self, key: &str) -> (r: Result<&JsonValue, EsError>)
        ensures
            match r {
                Ok(v) => self@.get(key@) == Some(v@),
                Err(e) => self@.get(key@) is None && e.is_shape_error(key@),
            },
    {
        match self.find(key) {
            Some(v) => Ok(v),
            None => Err(EsError::shape(key)),
        }
    }

    /// The unsigned integer in field `key`, where the field holds one.
    pub fn read_optional_u64(&self, key: &str) -> (r: Option<u64>)
        ensures
            r == self@.u64_at(key@),
    {
        match self.find(key) {
            Some(v) => v.as_u64(),
            None => None,
        }
    }

    /// The string in field `key`, where the field holds one.
    pub fn read_optional_string(&self, key: &str) -> (r: Option<String>)
        ensures
            match r {
                Some(s) => self@.string_at(key@) == Some(s@),
                None => self@.string_at(key@) is None,
            },
    {
        match self.find(key) {
            Some(v) => match v.as_string() {
                Some(s) => Some(String::from_str(s)),
                None => None,
            },
            None => None,
        }
    }
}

/// An array names no field twice exactly if none of its items does.
pub proof fn lemma_array_distinct(items: Seq<JsonModel>)
    ensures
        JsonModel::Array(items).distinct_names() <==> forall|k: int|
            0 <= k < items.len() ==> (#[trigger] items[k]).distinct_names(),
{
    assert(JsonModel::Array(items)->Array_0 == items);
}

/// An object names no field twice exactly if its fields' names differ and
/// none of their values does.
pub proof fn lemma_object_distinct(fields: Seq<(Seq<char>, JsonModel)>)
    ensures
        JsonModel::Object(fields).distinct_names() <==> names_differ(fields) && forall|k: int|
            0 <= k < fields.len() ==> (#[trigger] fields[k]).1.distinct_names(),
{
    assert(JsonModel::Object(fields)->Object_0 == fields);
}

/// Whether the name of the field at `at` also stands before it.
fn name_repeats(fields: &Vec<(String, JsonValue)>, at: usize) -> (r: bool)
    requires
        at < fields.len(),
    ensures
        r == exists|j: int|
            0 <= j < at && (#[trigger] fields_model(fields@)[j]).0 == fields_model(fields@)[at as int].0,
{
    let mut j: usize = 0;
    while j < at
        invariant
            j <= at,
            at < fields.len(),
            forall|k: int|
                0 <= k < j ==> (#[trigger] fields_model(fields@)[k]).0 != fields_model(
                    fields@,
                )[at as int].0,
        decreases at - j,
    {
        if fields[j].0 == fields[at].0 {
            assert(fields_model(fields@)[j as int].0 == fields_model(fields@)[at as int].0);
            return true;
        }
        j += 1;
    }
    false
}

impl JsonValue {
    /// Tests whether no object of the document names a field twice.
    pub fn has_distinct_names(&self) -> (r: bool)
        ensures
            r == self@.distinct_names(),
        decreases self,
    {
        match self {
            JsonValue::Array(items) => {
                proof {
                    lemma_array_view(*items);
                    lemma_array_distinct(items_model(items@));
                }
                let mut i: usize = 0;
                while i < items.len()
                    invariant
                        i <= items.len(),
                        *self == JsonValue::Array(*items),
                        self@ == JsonModel::Array(items_model(items@)),
                        self@.distinct_names() <==> forall|k: int|
                            0 <= k < items_model(items@).len() ==> (#[trigger] items_model(
                                items@,
                            )[k]).distinct_names(),
                        forall|k: int| 0 <= k < i ==> (#[trigger] items_model(items@)[k]).distinct_names(),
                    decreases items.len() - i,
                {
                    proof {
                        assert(decreases_to!(*self => self->Array_0));
                    }
                    if !items[i].has_distinct_names() {
                        assert(!items_model(items@)[i as int].distinct_names());
                        return false;
                    }
                    i += 1;
                }
                true
            },
            JsonValue::Object(fields) => {
                proof {
                    lemma_object_view(*fields);
                    lemma_object_distinct(fields_model(fields@));
                }
                let mut i: usize = 0;
                while i < fields.len()
                    invariant
                        i <= fields.len(),
                        *self == JsonValue::Object(*fields),
                        self@ == JsonModel::Object(fields_model(fields@)),
                        self@.distinct_names() <==> names_differ(fields_model(fields@)) && forall|k: int|
                            0 <= k < fields_model(fields@).len() ==> (#[trigger] fields_model(
                                fields@,
                            )[k]).1.distinct_names(),
                        forall|a: int, b: int|
                            0 <= a < b < i ==> (#[trigger] fields_model(fields@)[a]).0 != (
                            #[trigger] fields_model(fields@)[b]).0,
                        forall|k: int|
                            0 <= k < i ==> (#[trigger] fields_model(fields@)[k]).1.distinct_names(),
                    decreases fields.len() - i,
                {
                    proof {
                        assert(decreases_to!(*self => self->Object_0));
                    }
                    if name_repeats(fields, i) {
                        proof {
                            let j = choose|j: int|
                                0 <= j < i && (#[trigger] fields_model(fields@)[j]).0 == fields_model(
                                    fields@,
                                )[i as int].0;
                            assert(fields_model(fields@)[j].0 == fields_model(fields@)[i as int].0);
                            assert(!names_differ(fields_model(fields@)));
                        }
                        return false;
                    }
                    if !fields[i].1.has_distinct_names() {
                        assert(!fields_model(fields@)[i as int].1.distinct_names());
                        return false;
                    }
                    i += 1;
                }
                true
            },
            _ => true,
        }
    }
}

impl Clone for JsonValue {
    /// A deep copy with the same view.
    fn clone(&self) -> (r: JsonValue)
        ensures
            r@ == self@,
    {
        self.deep_copy()
    }
}

impl JsonValue {
    /// A deep copy with the same view.
    pub fn deep_copy(&self) -> (r: JsonValue)
        ensures
            r@ == self@,
        decreases self,
    {
        match self {
            JsonValue::Null => JsonValue::Null,
            JsonValue::Boolean(b) => JsonValue::Boolean(*b),
            JsonValue::I64(n) => JsonValue::I64(*n),
            JsonValue::U64(n) => JsonValue::U64(*n),
            JsonValue::Float(j) => JsonValue::Float(j.clone()),
            JsonValue::String(s) => JsonValue::String(s.clone()),
            JsonValue::Array(items) => {
                let mut out: Vec<JsonValue> = Vec::new();
                let mut i: usize = 0;
                while i < items.len()
                    invariant
                        i <= items.len(),
                        out@.len() == i,
                        *self == JsonValue::Array(*items),
                        forall|k: int| 0 <= k < i ==> out@[k]@ == items@[k]@,
                    decreases items.len() - i,
                {
                    proof {
                        assert(decreases_to!(*self => self->Array_0));
                    }
                    out.push(items[i].deep_copy());
                    i += 1;
                }
                proof {
                    lemma_array_view(*items);
                    lemma_array_view(out);
                    assert(items_model(out@) =~= items_model(items@));
                }
                JsonValue::Array(out)
            },
            JsonValue::Object(fields) => {
                let mut out: Vec<(String, JsonValue)> = Vec::new();
                let mut i: usize = 0;
                while i < fields.len()
                    invariant
                        i <= fields.len(),
                        out@.len() == i,
                        *self == JsonValue::Object(*fields),
                        forall|k: int|
                            0 <= k < i ==> out@[k].0@ == fields@[k].0@ && out@[k].1@
                                == fields@[k].1@,
                    decreases fields.len() - i,
                {
                    proof {
                        assert(decreases_to!(*self => self->Object_0));
                    }
                    out.push((fields[i].0.clone(), fields[i].1.deep_copy()));
                    i += 1;
                }
                proof {
                    lemma_object_view(*fields);
                    lemma_object_view(out);
                    assert(fields_model(out@) =~= fields_model(fields@));
                }
                JsonValue::Object(out)
            },
        }
    }
}

/// An object with the one field `key`.
pub open spec fn single(key: Seq<char>, value: JsonModel) -> JsonModel {
    JsonModel::Object(seq![(key, value)])
}

/// The field `key` where a value is given, and no field where none is.
pub open spec fn optional_field(key: Seq<char>, value: Option<JsonModel>) -> Seq<(Seq<char>, JsonModel)> {
    match value {
        Some(v) => seq![(key, v)],
        None => Seq::empty(),
    }
}

/// Whether some field of the list is called `key`.
pub open spec fn names_key(fields: Seq<(Seq<char>, JsonModel)>, key: Seq<char>) -> bool {
    exists|i: int| 0 <= i < fields.len() && (#[trigger] fields[i]).0 == key
}

/// A lookup finds a field exactly if the list names the key at or after the
/// starting position.
pub proof fn lemma_lookup_names(fields: Seq<(Seq<char>, JsonModel)>, key: Seq<char>, from: int)
    requires
        0 <= from,
    ensures
        lookup_from(fields, key, from) is Some <==> exists|i: int|
            from <= i < fields.len() && (#[trigger] fields[i]).0 == key,
    decreases fields.len() - from,
{
    if from < fields.len() {
        if fields[from].0 != key {
            lemma_lookup_names(fields, key, from + 1);
        }
    }
}

/// An object has a key exactly if one of its fields is called so.
pub proof fn lemma_has_key(fields: Seq<(Seq<char>, JsonModel)>, key: Seq<char>)
    ensures
        JsonModel::Object(fields).has_key(key) <==> names_key(fields, key),
{
    lemma_lookup_names(fields, key, 0);
}

/// A list names a key exactly if one of its two parts does.
pub proof fn lemma_names_key_concat(
    a: Seq<(Seq<char>, JsonModel)>,
    b: Seq<(Seq<char>, JsonModel)>,
    key: Seq<char>,
)
    ensures
        names_key(a + b, key) <==> names_key(a, key) || names_key(b, key),
{
    if names_key(a + b, key) {
        let i = choose|i: int| 0 <= i < (a + b).len() && (#[trigger] (a + b)[i]).0 == key;
        if i < a.len() {
            assert(a[i].0 == key);
        } else {
            assert(b[i - a.len()].0 == key);
        }
    }
    if names_key(a, key) {
        let i = choose|i: int| 0 <= i < a.len() && (#[trigger] a[i]).0 == key;
        assert((a + b)[i].0 == key);
    }
    if names_key(b, key) {
        let i = choose|i: int| 0 <= i < b.len() && (#[trigger] b[i]).0 == key;
        assert((a + b)[i + a.len()].0 == key);
    }
}

/// An optional field is named exactly if its value is given and the name is
/// its own.
pub proof fn lemma_names_optional_field(key: Seq<char>, value: Option<JsonModel>, probe: Seq<char>)
    ensures
        names_key(optional_field(key, value), probe) <==> value is Some && key == probe,
{
    if value is Some && key == probe {
        assert(optional_field(key, value)[0].0 == probe);
    }
}

/// The names that a list of two parts holds are those of its parts.
pub proof fn lemma_names_of_concat(a: Seq<(Seq<char>, JsonModel)>, b: Seq<(Seq<char>, JsonModel)>)
    ensures
        forall|key: Seq<char>| #[trigger]
            names_key(a + b, key) <==> names_key(a, key) || names_key(b, key),
{
    assert forall|key: Seq<char>| #[trigger]
        names_key(a + b, key) <==> names_key(a, key) || names_key(b, key) by {
        lemma_names_key_concat(a, b, key);
    }
}

/// An optional field holds its own name where its value is given, and no
/// other name.
pub proof fn lemma_names_of_optional(key: Seq<char>, value: Option<JsonModel>)
    ensures
        forall|probe: Seq<char>| #[trigger]
            names_key(optional_field(key, value), probe) <==> value is Some && key == probe,
{
    assert forall|probe: Seq<char>| #[trigger]
        names_key(optional_field(key, value), probe) <==> value is Some && key == probe by {
        lemma_names_optional_field(key, value, probe);
    }
}

/// Whether the fields can stand in one object: no name stands twice, and no
/// value names a field twice.
pub open spec fn sound_fields(fields: Seq<(Seq<char>, JsonModel)>) -> bool {
    JsonModel::Object(fields).distinct_names()
}

/// Whether an optional value, where it is given, names no field twice.
pub open spec fn fits(value: Option<JsonModel>) -> bool {
    value matches Some(v) ==> v.distinct_names()
}

/// An optional field can stand in an object if its value names no field twice.
pub proof fn lemma_sound_optional(key: Seq<char>, value: Option<JsonModel>)
    requires
        fits(value),
    ensures
        sound_fields(optional_field(key, value)),
{
}

/// Two lists that can each stand in an object and share no name can stand
/// in one object together.
pub proof fn lemma_sound_concat(a: Seq<(Seq<char>, JsonModel)>, b: Seq<(Seq<char>, JsonModel)>)
    requires
        sound_fields(a),
        sound_fields(b),
        forall|key: Seq<char>| !(names_key(a, key) && names_key(b, key)),
    ensures
        sound_fields(a + b),
{
    assert forall|i: int, j: int| 0 <= i < j < (a + b).len() implies (#[trigger] (a + b)[i]).0 != (
    #[trigger] (a + b)[j]).0 by {
        if j < a.len() {
            assert(a[i].0 != a[j].0);
        } else if i >= a.len() {
            assert(b[i - a.len()].0 != b[j - a.len()].0);
        } else {
            let key = a[i].0;
            assert(names_key(a, key));
            if b[j - a.len()].0 == key {
                assert(names_key(b, key));
            }
        }
    }
    assert forall|i: int| 0 <= i < (a + b).len() implies (#[trigger] (a + b)[i]).1.distinct_names() by {
        if i < a.len() {
            assert(a[i].1.distinct_names());
        } else {
            assert(b[i - a.len()].1.distinct_names());
        }
    }
}

/// An object with one field names no field twice if the field's value does
/// not.
pub proof fn lemma_single_distinct(key: Seq<char>, value: JsonModel)
    requires
        value.distinct_names(),
    ensures
        single(key, value).distinct_names(),
{
}

/// Appends the field `key` to a list of fields.
pub fn push_field(fields: &mut Vec<(String, JsonValue)>, key: &str, value: JsonValue)
    ensures
        fields_model(final(fields)@) == fields_model(old(fields)@).push((key@, value@)),
{
    fields.push((String::from_str(key), value));
}

/// Appends the field `key` to a list of fields where a value is given.
pub fn push_optional(fields: &mut Vec<(String, JsonValue)>, key: &str, value: Option<JsonValue>)
    ensures
        fields_model(final(fields)@) == fields_model(old(fields)@) + optional_field(
            key@,
            match value {
                Some(v) => Some(v@),
                None => None,
            },
        ),
{
    match value {
        Some(v) => fields.push((String::from_str(key), v)),
        None => {},
    }
}

/// The object with the given fields.
pub fn object(fields: Vec<(String, JsonValue)>) -> (r: JsonValue)
    ensures
        r@ == JsonModel::Object(fields_model(fields@)),
{
    proof {
        lemma_object_view(fields);
    }
    JsonValue::Object(fields)
}

/// The array with the given items.
pub fn array(items: Vec<JsonValue>) -> (r: JsonValue)
    ensures
        r@ == JsonModel::Array(items_model(items@)),
{
    proof {
        lemma_array_view(items);
    }
    JsonValue::Array(items)
}

/// The object with the one field `key`.
pub fn single_field(key: &str, value: JsonValue) -> (r: JsonValue)
    ensures
        r@ == single(key@, value@),
{
    let mut fields: Vec<(String, JsonValue)> = Vec::new();
    push_field(&mut fields, key, value);
    assert(fields_model(fields@) =~= seq![(key@, value@)]);
    object(fields)
}

/// The compact JSON text that the encoder writes for a value. It is spoken
/// of only for values in which no object names a field twice.
pub uninterp spec fn json_text(v: JsonModel) -> Seq<char>;

/// The value that reading `bytes` as one JSON document yields, or `None` where
/// the bytes are not UTF-8 or not one well-formed JSON value. It is spoken of
/// only for bodies within the bounds of `within_limits`.
pub uninterp spec fn json_parse(bytes: Seq<u8>) -> Option<JsonModel>;

/// Rebuilds a value as the JSON type of `rustc_serialize`, variant by variant.
/// Nothing is claimed of the result.
#[verifier::external_body]
fn to_outside(v: &JsonValue) -> Json {
    match v {
        JsonValue::Null => Json::Null,
        JsonValue::Boolean(b) => Json::Boolean(*b),
        JsonValue::I64(n) => Json::I64(*n),
        JsonValue::U64(n) => Json::U64(*n),
        JsonValue::Float(j) => j.clone(),
        JsonValue::String(s) => Json::String(s.clone()),
        JsonValue::Array(a) => Json::Array(a.iter().map(to_outside).collect()),
        JsonValue::Object(o) => Json::Object(o.iter().map(|f| (f.0.clone(), to_outside(&f.1))).collect()),
    }
}

/// Takes a value of the JSON type of `rustc_serialize` apart, variant by
/// variant; the fields of an object come in the order of their names.
/// Nothing is claimed of the result.
#[verifier::external_body]
fn from_outside(j: Json) -> JsonValue {
    match j {
        Json::Null => JsonValue::Null,
        Json::Boolean(b) => JsonValue::Boolean(b),
        Json::I64(n) => JsonValue::I64(n),
        Json::U64(n) => JsonValue::U64(n),
        Json::F64(_) => JsonValue::Float(j),
        Json::String(s) => JsonValue::String(s),
        Json::Array(a) => JsonValue::Array(a.into_iter().map(from_outside).collect()),
        Json::Object(o) => JsonValue::Object(o.into_iter().map(|f| (f.0, from_outside(f.1))).collect()),
    }
}

/// `rustc_serialize::json::encode` on the value. Claimed: the call
/// succeeds, its result depends on the value alone, and the compact form that
/// the encoder writes holds no line feed.
///
/// The encoder fails only where its writer fails or where the name of a
/// field is not text; here the writer is a `String` and every name is one.
/// It writes no white space, and escapes control characters inside strings.
/// Names are distinct, so the object that is encoded holds every field.
#[verifier::external_body]
fn encode_value(v: &JsonValue) -> (r: Result<String, EncoderError>)
    requires
        v@.distinct_names(),
    ensures
        r is Ok,
        r->Ok_0@ == json_text(v@),
        !r->Ok_0@.contains('\n'),
{
    rustc_serialize::json::encode(&to_outside(v))
}

/// `Json::from_reader` on a byte slice. Claimed: on a body within the bounds
/// the call returns, and its outcome depends on the bytes alone.
///
/// The bounds leave out the bodies on which the parser does not return
/// properly. It stores the names of the enclosing objects in one buffer and
/// keeps each name's start and length as 16-bit numbers: with at most
/// `MAX_DEPTH` names of at most `MAX_NAME` bytes each, start and length
/// together stay below 65536. It multiplies an exponent's value by ten for
/// every digit: nine digits fit a 32-bit word. It takes a comma before a
/// closing brace for the end of the enclosing value and then fails on the
/// next value: no such comma is let through. It counts the items of an array
/// in 32 bits: a body of less than 2^32 bytes has fewer items.
#[verifier::external_body]
fn parse_bytes(bytes: &[u8]) -> (r: Result<JsonValue, ParserError>)
    requires
        within_limits(bytes@),
    ensures
        match r {
            Ok(v) => json_parse(bytes@) == Some(v@),
            Err(_) => json_parse(bytes@) is None,
        },
{
    let mut reader = bytes;
    match Json::from_reader(&mut reader) {
        Ok(j) => Ok(from_outside(j)),
        Err(e) => Err(e),
    }
}

/// Serializes a value as compact JSON text. A value in which an object
/// names a field twice is refused; every other value is serialized.
pub fn encode(v: &JsonValue) -> (r: Result<String, EsError>)
    ensures
        match r {
            Ok(s) => v@.distinct_names() && s@ == json_text(v@) && !s@.contains('\n'),
            Err(e) => !v@.distinct_names() && e matches EsError::EncodingError(
                EncodingFailure::RepeatedName,
            ),
        },
{
    if !v.has_distinct_names() {
        return Err(EsError::EncodingError(EncodingFailure::RepeatedName));
    }
    match encode_value(v) {
        Ok(s) => Ok(s),
        Err(e) => Err(EsError::EncodingError(EncodingFailure::Request(e))),
    }
}

/// Reads a byte string as one JSON document. A body beyond the bounds of
/// `within_limits` is refused without being parsed.
pub fn parse(bytes: &[u8]) -> (r: Result<JsonValue, EsError>)
    ensures
        match r {
            Ok(v) => within_limits(bytes@) && json_parse(bytes@) == Some(v@),
            Err(e) => if within_limits(bytes@) {
                json_parse(bytes@) is None && e matches EsError::EncodingError(
                    EncodingFailure::Response(_),
                )
            } else {
                e matches EsError::EncodingError(EncodingFailure::BeyondLimits)
            },
        },
{
    if !check_limits(bytes) {
        return Err(EsError::EncodingError(EncodingFailure::BeyondLimits));
    }
    match parse_bytes(bytes) {
        Ok(v) => Ok(v),
        Err(e) => Err(EsError::EncodingError(EncodingFailure::Response(e))),
    }
}

} // verus!
