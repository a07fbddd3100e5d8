//! A plain JSON value tree, the mathematical view of such a tree, and the
//! trusted bridge that obtains one from raw request text.
use vstd::prelude::*;

verus! {

broadcast use vstd::std_specs::vec::axiom_vec_index_decreases;

/// The mathematical shape of a JSON document: what contracts and proofs
/// speak of.  Numbers that do not fit a signed 64-bit integer (floats,
/// huge unsigned integers) are collapsed into `OtherNum`: no field of the
/// bid-request model may hold one, so their exact value never matters.
pub enum JsonSpec {
    Null,
    Bool(bool),
    Int(int),
    OtherNum,
    Str(Seq<char>),
    Arr(Seq<JsonSpec>),
    Obj(Seq<(Seq<char>, JsonSpec)>),
}

/// A JSON document as executable data.  Object members come from
/// `serde_json`'s map, so their keys are unique; lookups take the first
/// member with a matching key either way.
pub enum JsonValue {
    Null,
    Bool(bool),
    Int(i64),
    OtherNum,
    Str(String),
    Arr(Vec<JsonValue>),
    Obj(Vec<(String, JsonValue)>),
}

/// The mathematical value of each element of a JSON array.
pub open spec fn arr_deep(a: Vec<JsonValue>) -> Seq<JsonSpec>
    decreases a,
{
    Seq::new(
        a.len() as nat,
        |i: int|
            if 0 <= i < a.len() {
                a[i].deep()
            } else {
                JsonSpec::Null
            },
    )
}

/// The mathematical value of each member of a JSON object.
pub open spec fn fields_deep(fields: Vec<(String, JsonValue)>) -> Seq<(Seq<char>, JsonSpec)>
    decreases fields,
{
    Seq::new(
        fields.len() as nat,
        |i: int|
            if 0 <= i < fields.len() {
                (fields[i].0@, fields[i].1.deep())
            } else {
                (Seq::<char>::empty(), JsonSpec::Null)
            },
    )
}

impl JsonValue {
    /// The mathematical value of this tree.
    pub open spec fn deep(self) -> JsonSpec
        decreases self,
    {
        match self {
            JsonValue::Null => JsonSpec::Null,
            JsonValue::Bool(b) => JsonSpec::Bool(b),
            JsonValue::Int(n) => JsonSpec::Int(n as int),
            JsonValue::OtherNum => JsonSpec::OtherNum,
            JsonValue::Str(s) => JsonSpec::Str(s@),
            JsonValue::Arr(a) => JsonSpec::Arr(arr_deep(a)),
            JsonValue::Obj(fields) => JsonSpec::Obj(fields_deep(fields)),
        }
    }
}

impl View for JsonValue {
    type V = JsonSpec;

    open spec fn view(&self) -> JsonSpec {
        self.deep()
    }
}

/// Each variant of a tree maps to the matching variant of its
/// mathematical value.
pub proof fn lemma_deep_variant(j: JsonValue)
    ensures
        (j.deep() is Null <==> j is Null),
        (j.deep() is Bool <==> j is Bool),
        (j.deep() is Int <==> j is Int),
        (j.deep() is OtherNum <==> j is OtherNum),
        (j.deep() is Str <==> j is Str),
        (j.deep() is Arr <==> j is Arr),
        (j.deep() is Obj <==> j is Obj),
{
    match j {
        JsonValue::Null => {},
        JsonValue::Bool(_) => {},
        JsonValue::Int(_) => {},
        JsonValue::OtherNum => {},
        JsonValue::Str(_) => {},
        JsonValue::Arr(_) => {},
        JsonValue::Obj(_) => {},
    }
}

/// The first member of `fields` whose key is `key`, if any.
pub open spec fn spec_obj_get(fields: Seq<(Seq<char>, JsonSpec)>, key: Seq<char>) -> Option<
    JsonSpec,
>
    decreases fields.len(),
{
    if fields.len() == 0 {
        None
    } else if fields[0].0 == key {
        Some(fields[0].1)
    } else {
        spec_obj_get(fields.drop_first(), key)
    }
}

proof fn lemma_obj_get_step(fields: Seq<(Seq<char>, JsonSpec)>, key: Seq<char>, i: int)
    requires
        0 <= i < fields.len(),
        fields[i].0 != key,
    ensures
        spec_obj_get(fields.skip(i), key) == spec_obj_get(fields.skip(i + 1), key),
{
    assert(fields.skip(i)[0] == fields[i]);
    assert(fields.skip(i).drop_first() =~= fields.skip(i + 1));
}

/// Looks up `key` among the members of a JSON object.
pub fn obj_get<'a>(fields: &'a Vec<(String, JsonValue)>, key: &String) -> (r: Option<
    &'a JsonValue,
>)
    ensures
        match r {
            Some(v) => spec_obj_get(fields_deep(*fields), key@) == Some(v.deep()),
            None => spec_obj_get(fields_deep(*fields), key@) is None,
        },
{
    let ghost all = fields_deep(*fields);
    let n = fields.len();
    let mut i: usize = 0;
    assert(all.skip(0) =~= all);
    while i < n
        invariant
            n == fields.len(),
            i <= n,
            all == fields_deep(*fields),
            spec_obj_get(all, key@) == spec_obj_get(all.skip(i as int), key@),
        decreases n - i,
    {
        let pair = &fields[i];
        proof {
            assert(all[i as int] == (fields[i as int].0@, fields[i as int].1.deep()));
        }
        if pair.0 == *key {
            proof {
                assert(all.skip(i as int)[0] == all[i as int]);
            }
            return Some(&pair.1);
        }
        proof {
            lemma_obj_get_step(all, key@, i as int);
        }
        i += 1;
    }
    proof {
        assert(all.skip(n as int).len() == 0);
    }
    None
}

/// The JSON value that a piece of text denotes, if it is well-formed
/// JSON: the combined result of `serde_json::from_str` and the node-wise
/// reshaping done by `conv`.
pub uninterp spec fn spec_parse_json(s: Seq<char>) -> Option<JsonSpec>;

/// Declares `serde_json::Value`, the parser's own document tree, so that
/// `conv` can take one apart; it never crosses into verified code.
#[verifier::external_type_specification]
#[verifier::external_body]
pub struct ExValue(serde_json::Value);

/// Reshapes one node of `serde_json`'s value tree into the library's own:
/// one arm per variant of `serde_json::Value`, moving the fields across,
/// with `serde_json::Number::as_i64` deciding whether a number is a
/// signed 64-bit integer.  Called only by `parse_json_text`, whose
/// contract covers the combined result.
#[verifier::external_body]
fn conv(v: serde_json::Value) -> JsonValue {
    match v {
        serde_json::Value::Null => JsonValue::Null,
        serde_json::Value::Bool(b) => JsonValue::Bool(b),
        serde_json::Value::Number(n) => match n.as_i64() {
            Some(i) => JsonValue::Int(i),
            None => JsonValue::OtherNum,
        },
        serde_json::Value::String(s) => JsonValue::Str(s),
        serde_json::Value::Array(a) => JsonValue::Arr(a.into_iter().map(conv).collect()),
        serde_json::Value::Object(m) => JsonValue::Obj(
            m.into_iter().map(|(k, w)| (k, conv(w))).collect(),
        ),
    }
}

/// Relies on `serde_json::from_str`: the text parses exactly when it is
/// well-formed JSON, the result is a deterministic function of the text
/// alone, and on failure `serde_json::Error`'s display form describes the
/// fault.  `spec_parse_json` names the parsed value after `conv` has
/// reshaped it.
#[verifier::external_body]
pub(crate) fn parse_json_text(text: &str) -> (r: Result<JsonValue, String>)
    ensures
        match r {
            Ok(v) => spec_parse_json(text@) == Some(v.deep()),
            Err(_) => spec_parse_json(text@) is None,
        },
{
    match serde_json::from_str::<serde_json::Value>(text) {
        Ok(v) => Ok(conv(v)),
        Err(e) => Err(e.to_string()),
    }
}

} // verus!
