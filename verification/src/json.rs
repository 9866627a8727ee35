//! A JSON document tree.
//!
//! The metadata payload is carried as a [`JsonValue`]: a tree of nulls,
//! booleans, numbers, strings, arrays and objects.  Numbers keep their
//! decimal text as written, so a document round-trips without committing to a
//! numeric representation.  The free-form `package.metadata` section is also
//! carried as a [`JsonValue`], to be reinterpreted by downstream tooling.
use vstd::prelude::*;
use vstd::string::StrSliceExecFns;

verus! {

/// One JSON value: the unit of the decoded payload.
#[derive(Debug, PartialEq)]
pub enum JsonValue {
    /// `null`.
    Null,
    /// `true` or `false`.
    Bool(bool),
    /// A number, kept as its decimal text.
    Num(String),
    /// A string.
    Str(String),
    /// An array of values.
    Arr(Vec<JsonValue>),
    /// An object: a list of key/value pairs, in the order they were
    /// assembled.
    Obj(Vec<(String, JsonValue)>),
}

/// The mathematical value of a [`JsonValue`].
pub enum JsonModel {
    /// `null`.
    Null,
    /// `true` or `false`.
    Bool(bool),
    /// A number, as its decimal text.
    Num(Seq<char>),
    /// A string.
    Str(Seq<char>),
    /// An array of values.
    Arr(Seq<JsonModel>),
    /// An object: key/value pairs, in order.
    Obj(Seq<(Seq<char>, JsonModel)>),
}

/// Maps a JSON tree to its mathematical value, node by node.
pub open spec fn json_model(j: JsonValue) -> JsonModel
    decreases j,
    via json_model_decreases
{
    match j {
        JsonValue::Null => JsonModel::Null,
        JsonValue::Bool(b) => JsonModel::Bool(b),
        JsonValue::Num(s) => JsonModel::Num(s@),
        JsonValue::Str(s) => JsonModel::Str(s@),
        JsonValue::Arr(items) => JsonModel::Arr(arr_model(items@)),
        JsonValue::Obj(fields) => JsonModel::Obj(obj_model(fields@)),
    }
}

#[via_fn]
proof fn json_model_decreases(j: JsonValue) {
    match j {
        JsonValue::Arr(items) => {
            assert(decreases_to!(j => items));
            assert(decreases_to!(items => items@));
        },
        JsonValue::Obj(fields) => {
            assert(decreases_to!(j => fields));
            assert(decreases_to!(fields => fields@));
        },
        _ => {},
    }
}

/// The mathematical value of each element of an array, in order.
pub open spec fn arr_model(items: Seq<JsonValue>) -> Seq<JsonModel>
    decreases items,
{
    if items.len() == 0 {
        Seq::empty()
    } else {
        seq![json_model(items.first())] + arr_model(items.drop_first())
    }
}

/// The mathematical value of each field of an object, in order.
pub open spec fn obj_model(fields: Seq<(String, JsonValue)>) -> Seq<(Seq<char>, JsonModel)>
    decreases fields,
{
    if fields.len() == 0 {
        Seq::empty()
    } else {
        seq![(fields.first().0@, json_model(fields.first().1))] + obj_model(fields.drop_first())
    }
}

/// An array's model has one entry per element, each the element's model.
pub proof fn lemma_arr_model(items: Seq<JsonValue>)
    ensures
        arr_model(items).len() == items.len(),
        forall|i: int|
            0 <= i < items.len() ==> #[trigger] arr_model(items)[i] == json_model(items[i]),
    decreases items.len(),
{
    if items.len() > 0 {
        lemma_arr_model(items.drop_first());
        assert forall|i: int|
            0 <= i < items.len() implies #[trigger] arr_model(items)[i] == json_model(
            items[i],
        ) by {
            if i > 0 {
                assert(arr_model(items)[i] == arr_model(items.drop_first())[i - 1]);
                assert(items.drop_first()[i - 1] == items[i]);
            }
        }
    }
}

/// An object's model has one entry per field, each the key with the value's
/// model.
pub proof fn lemma_obj_model(fields: Seq<(String, JsonValue)>)
    ensures
        obj_model(fields).len() == fields.len(),
        forall|i: int|
            0 <= i < fields.len() ==> #[trigger] obj_model(fields)[i] == (
                fields[i].0@,
                json_model(fields[i].1),
            ),
    decreases fields.len(),
{
    if fields.len() > 0 {
        lemma_obj_model(fields.drop_first());
        assert forall|i: int|
            0 <= i < fields.len() implies #[trigger] obj_model(fields)[i] == (
            fields[i].0@,
            json_model(fields[i].1),
        ) by {
            if i > 0 {
                assert(obj_model(fields)[i] == obj_model(fields.drop_first())[i - 1]);
                assert(fields.drop_first()[i - 1] == fields[i]);
            }
        }
    }
}

impl View for JsonValue {
    type V = JsonModel;

    open spec fn view(&self) -> JsonModel {
        json_model(*self)
    }
}

impl DeepView for JsonValue {
    type V = JsonModel;

    open spec fn deep_view(&self) -> JsonModel {
        json_model(*self)
    }
}

/// The value under `key` in an object's field list: the first pair whose key
/// matches, as JSON readers conventionally take duplicate keys.
pub open spec fn obj_lookup(fields: Seq<(Seq<char>, JsonModel)>, key: Seq<char>) -> Option<
    JsonModel,
>
    decreases fields.len(),
{
    if fields.len() == 0 {
        None
    } else if fields[0].0 == key {
        Some(fields[0].1)
    } else {
        obj_lookup(fields.drop_first(), key)
    }
}

/// The value under `key`, if `j` is an object that has that key.
pub open spec fn json_get(j: JsonModel, key: Seq<char>) -> Option<JsonModel> {
    match j {
        JsonModel::Obj(fields) => obj_lookup(fields, key),
        _ => None,
    }
}

/// Character-by-character string equality.
pub fn str_eq(a: &str, b: &str) -> (r: bool)
    ensures
        r == (a@ == b@),
{
    let a_len = a.unicode_len();
    let b_len = b.unicode_len();
    if a_len != b_len {
        proof {
            assert(a@ != b@) by {
                assert(a@.len() != b@.len());
            }
        }
        return false;
    }
    let mut i: usize = 0;
    while i < a_len
        invariant
            i <= a_len,
            a_len == a@.len(),
            b_len == b@.len(),
            a_len == b_len,
            forall|k: int| 0 <= k < i ==> a@[k] == b@[k],
        decreases a_len - i,
    {
        if a.get_char(i) != b.get_char(i) {
            proof {
                assert(a@[i as int] != b@[i as int]);
            }
            return false;
        }
        i = i + 1;
    }
    proof {
        assert(a@ =~= b@);
    }
    true
}

/// Declares `serde_json::Value` to the verifier; a value of it is opaque
/// here and only carried between the trusted calls below.
#[verifier::external_type_specification]
#[verifier::external_body]
pub struct ExValue(serde_json::Value);

/// What `serde_json` parses the characters as: the document tree, or
/// nothing where they are not one complete JSON value.
pub uninterp spec fn parsed_json(s: Seq<char>) -> Option<JsonModel>;

/// The document tree a `serde_json::Value` holds.
pub uninterp spec fn value_model(v: serde_json::Value) -> JsonModel;

/// Relies on `serde_json::from_str`: whether the text is one complete JSON
/// value, and which, depend on the text alone.
#[verifier::external_body]
fn parse_value(chars: &Vec<char>) -> (r: Result<serde_json::Value, String>)
    ensures
        match r {
            Ok(v) => parsed_json(chars@) == Some(value_model(v)),
            Err(_) => parsed_json(chars@) is None,
        },
{
    let text: String = chars.iter().collect();
    match serde_json::from_str::<serde_json::Value>(&text) {
        Ok(v) => Ok(v),
        Err(e) => Err(e.to_string()),
    }
}

/// Relies on matching `serde_json::Value`'s variants apart, and on
/// `serde_json::Number`'s display for a number's decimal text.
#[verifier::external_body]
fn value_to_json(v: serde_json::Value) -> (r: JsonValue)
    ensures
        r@ == value_model(v),
{
    match v {
        serde_json::Value::Null => JsonValue::Null,
        serde_json::Value::Bool(b) => JsonValue::Bool(b),
        serde_json::Value::Number(n) => JsonValue::Num(n.to_string()),
        serde_json::Value::String(s) => JsonValue::Str(s),
        serde_json::Value::Array(a) => JsonValue::Arr(
            a.into_iter().map(value_to_json).collect(),
        ),
        serde_json::Value::Object(m) => JsonValue::Obj(
            m.into_iter().map(|(k, x)| (k, value_to_json(x))).collect(),
        ),
    }
}

/// Parses one complete JSON value out of the characters.
pub fn parse_json(chars: &Vec<char>) -> (r: Result<JsonValue, crate::Error>)
    ensures
        match r {
            Ok(j) => parsed_json(chars@) == Some(j@),
            Err(e) => parsed_json(chars@) is None && e is Json,
        },
{
    match parse_value(chars) {
        Ok(v) => Ok(value_to_json(v)),
        Err(msg) => Err(crate::Error::Json(msg)),
    }
}

impl JsonValue {
    /// The value stored under `key`, if this value is an object that has
    /// that key; the first occurrence wins when a key repeats.
    pub fn get<'a>(&'a self, key: &str) -> (r: Option<&'a JsonValue>)
        ensures
            match r {
                Some(v) => json_get(self@, key@) == Some(v@),
                None => json_get(self@, key@) is None,
            },
    {
        match self {
            JsonValue::Obj(fields) => {
                proof {
                    lemma_obj_model(fields@);
                    assert(self@->Obj_0.skip(0) =~= self@->Obj_0);
                }
                let n = fields.len();
                let mut i: usize = 0;
                while i < n
                    invariant
                        i <= n,
                        n == fields@.len(),
                        self is Obj,
                        fields == self->Obj_0,
                        self@->Obj_0 == obj_model(fields@),
                        obj_model(fields@).len() == fields@.len(),
                        forall|k: int|
                            0 <= k < fields@.len() ==> #[trigger] obj_model(fields@)[k] == (
                                fields@[k].0@,
                                json_model(fields@[k].1),
                            ),
                        obj_lookup(self@->Obj_0, key@) == obj_lookup(
                            self@->Obj_0.skip(i as int),
                            key@,
                        ),
                    decreases n - i,
                {
                    if str_eq(fields[i].0.as_str(), key) {
                        proof {
                            assert(self@->Obj_0.skip(i as int)[0] == self@->Obj_0[i as int]);
                        }
                        return Some(&fields[i].1);
                    }
                    proof {
                        assert(self@->Obj_0.skip(i as int)[0] == self@->Obj_0[i as int]);
                        assert(self@->Obj_0.skip(i as int).drop_first() =~= self@->Obj_0.skip(
                            i + 1,
                        ));
                    }
                    i = i + 1;
                }
                proof {
                    assert(self@->Obj_0.skip(n as int) =~= Seq::empty());
                }
                None
            },
            _ => None,
        }
    }
}

/// Where `key` sits at position `p` and nowhere earlier, the lookup finds
/// exactly the value at `p`.
pub proof fn lemma_obj_lookup_found(
    fields: Seq<(Seq<char>, JsonModel)>,
    key: Seq<char>,
    p: int,
)
    requires
        0 <= p < fields.len(),
        fields[p].0 == key,
        forall|k: int| 0 <= k < p ==> (#[trigger] fields[k]).0 != key,
    ensures
        obj_lookup(fields, key) == Some(fields[p].1),
    decreases p,
{
    if p == 0 {
    } else {
        assert(fields.drop_first()[p - 1] == fields[p]);
        assert(forall|k: int|
            0 <= k < p - 1 ==> (#[trigger] fields.drop_first()[k]) == fields[k + 1]);
        lemma_obj_lookup_found(fields.drop_first(), key, p - 1);
    }
}

/// Where no field carries `key`, the lookup finds nothing.
pub proof fn lemma_obj_lookup_none(fields: Seq<(Seq<char>, JsonModel)>, key: Seq<char>)
    requires
        forall|k: int| 0 <= k < fields.len() ==> (#[trigger] fields[k]).0 != key,
    ensures
        obj_lookup(fields, key) is None,
    decreases fields.len(),
{
    if fields.len() == 0 {
    } else {
        assert(forall|k: int|
            0 <= k < fields.drop_first().len() ==> (#[trigger] fields.drop_first()[k]) == fields[k
                + 1]);
        lemma_obj_lookup_none(fields.drop_first(), key);
    }
}

} // verus!
