//! JSON documents as plain data.

use vstd::prelude::*;

verus! {

/// A JSON number. A number with a fraction or an exponent is kept as the
/// text of its literal.
#[derive(Debug, PartialEq, Eq)]
pub enum JsonNumber {
    PosInt(u64),
    NegInt(i64),
    Decimal(String),
}

/// A JSON document. An object keeps its members in the order in which they
/// were added.
#[derive(Debug, PartialEq, Eq)]
pub enum JsonValue {
    Null,
    Bool(bool),
    Number(JsonNumber),
    Text(String),
    Array(Vec<JsonValue>),
    Object(Vec<(String, JsonValue)>),
}

/// What a [`JsonNumber`] stands for.
pub enum NumberModel {
    PosInt(nat),
    NegInt(int),
    Decimal(Seq<char>),
}

/// What a [`JsonValue`] stands for.
pub enum JsonModel {
    Null,
    Bool(bool),
    Number(NumberModel),
    Text(Seq<char>),
    Array(Seq<JsonModel>),
    Object(Seq<(Seq<char>, JsonModel)>),
}

impl View for JsonNumber {
    type V = NumberModel;

    open spec fn view(&self) -> NumberModel {
        match *self {
            JsonNumber::PosInt(n) => NumberModel::PosInt(n as nat),
            JsonNumber::NegInt(n) => NumberModel::NegInt(n as int),
            JsonNumber::Decimal(s) => NumberModel::Decimal(s@),
        }
    }
}

impl Clone for JsonNumber {
    fn clone(&self) -> (r: JsonNumber)
        ensures
            r@ == self@,
    {
        match self {
            JsonNumber::PosInt(n) => JsonNumber::PosInt(*n),
            JsonNumber::NegInt(n) => JsonNumber::NegInt(*n),
            JsonNumber::Decimal(s) => JsonNumber::Decimal(s.clone()),
        }
    }
}

impl JsonValue {
    /// The document that `self` stands for.
    pub open spec fn model(self) -> JsonModel
        decreases self,
    {
        match self {
            JsonValue::Null => JsonModel::Null,
            JsonValue::Bool(b) => JsonModel::Bool(b),
            JsonValue::Number(n) => JsonModel::Number(n@),
            JsonValue::Text(s) => JsonModel::Text(s@),
            JsonValue::Array(items) => JsonModel::Array(
                Seq::new(
                    items@.len(),
                    |i: int|
                        if 0 <= i < items@.len() {
                            items@[i].model()
                        } else {
                            JsonModel::Null
                        },
                ),
            ),
            JsonValue::Object(members) => JsonModel::Object(
                Seq::new(
                    members@.len(),
                    |i: int|
                        if 0 <= i < members@.len() {
                            (members@[i].0@, members@[i].1.model())
                        } else {
                            (Seq::empty(), JsonModel::Null)
                        },
                ),
            ),
        }
    }

    /// A deep copy.
    #[verifier::loop_isolation(false)]
    pub fn duplicate(&self) -> (r: JsonValue)
        ensures
            r@ == self@,
        decreases self,
    {
        match self {
            JsonValue::Null => JsonValue::Null,
            JsonValue::Bool(b) => JsonValue::Bool(*b),
            JsonValue::Number(n) => JsonValue::Number(n.clone()),
            JsonValue::Text(s) => JsonValue::Text(s.clone()),
            JsonValue::Array(items) => {
                let mut out: Vec<JsonValue> = Vec::new();
                let mut i: usize = 0;
                while i < items.len()
                    invariant
                        i <= items.len(),
                        out.len() == i,
                        forall|k: int| 0 <= k < i ==> out@[k]@ == items@[k]@,
                    decreases items.len() - i,
                {
                    assert(decreases_to!(items => items[i as int]));
                    out.push(items[i].duplicate());
                    i = i + 1;
                }
                let r = JsonValue::Array(out);
                assert(r@->Array_0 =~= self@->Array_0);
                r
            },
            JsonValue::Object(members) => {
                let mut out: Vec<(String, JsonValue)> = Vec::new();
                let mut i: usize = 0;
                while i < members.len()
                    invariant
                        i <= members.len(),
                        out.len() == i,
                        forall|k: int|
                            0 <= k < i ==> out@[k].0@ == members@[k].0@ && out@[k].1@
                                == members@[k].1@,
                    decreases members.len() - i,
                {
                    assert(decreases_to!(members => members[i as int]));
                    out.push((members[i].0.clone(), members[i].1.duplicate()));
                    i = i + 1;
                }
                let r = JsonValue::Object(out);
                assert(r@->Object_0 =~= self@->Object_0);
                r
            },
        }
    }

    /// The JSON string with the characters of `s`.
    pub fn text(s: &str) -> (r: JsonValue)
        ensures
            r@ == JsonModel::Text(s@),
    {
        JsonValue::Text(s.to_string())
    }

    /// The JSON number `n`.
    pub fn integer(n: i64) -> (r: JsonValue)
        ensures
            r@ == integer_model(n as int),
    {
        if n >= 0 {
            JsonValue::Number(JsonNumber::PosInt(n as u64))
        } else {
            JsonValue::Number(JsonNumber::NegInt(n))
        }
    }

    /// The JSON array of the strings in `items`, in their order.
    pub fn strings(items: &Vec<String>) -> (r: JsonValue)
        ensures
            r@ == text_array(items@),
    {
        let mut out: Vec<JsonValue> = Vec::new();
        let mut i: usize = 0;
        while i < items.len()
            invariant
                i <= items.len(),
                out.len() == i,
                forall|k: int| 0 <= k < i ==> out@[k]@ == JsonModel::Text(items@[k]@),
            decreases items.len() - i,
        {
            out.push(JsonValue::Text(items[i].clone()));
            i = i + 1;
        }
        let r = JsonValue::Array(out);
        assert(r@->Array_0 =~= text_array(items@)->Array_0);
        r
    }

    /// The JSON object with one member.
    pub fn object1(key: &str, value: JsonValue) -> (r: JsonValue)
        ensures
            r@ == object1(key@, value@),
    {
        let mut members: Vec<(String, JsonValue)> = Vec::new();
        members.push((key.to_string(), value));
        let r = JsonValue::Object(members);
        assert(r@->Object_0 =~= seq![(key@, value@)]);
        r
    }

    /// The JSON object with two members, in the order given.
    pub fn object2(key1: &str, value1: JsonValue, key2: &str, value2: JsonValue) -> (r: JsonValue)
        ensures
            r@ == object2(key1@, value1@, key2@, value2@),
    {
        let mut members: Vec<(String, JsonValue)> = Vec::new();
        members.push((key1.to_string(), value1));
        members.push((key2.to_string(), value2));
        let r = JsonValue::Object(members);
        assert(r@->Object_0 =~= seq![(key1@, value1@), (key2@, value2@)]);
        r
    }

    /// The JSON object with three members, in the order given.
    pub fn object3(
        key1: &str,
        value1: JsonValue,
        key2: &str,
        value2: JsonValue,
        key3: &str,
        value3: JsonValue,
    ) -> (r: JsonValue)
        ensures
            r@ == object3(key1@, value1@, key2@, value2@, key3@, value3@),
    {
        let mut members: Vec<(String, JsonValue)> = Vec::new();
        members.push((key1.to_string(), value1));
        members.push((key2.to_string(), value2));
        members.push((key3.to_string(), value3));
        let r = JsonValue::Object(members);
        assert(r@->Object_0 =~= seq![(key1@, value1@), (key2@, value2@), (key3@, value3@)]);
        r
    }
}

/// The JSON array of the strings in `items`.
pub open spec fn text_array(items: Seq<String>) -> JsonModel {
    JsonModel::Array(Seq::new(items.len(), |i: int| JsonModel::Text(items[i]@)))
}

/// The model of an optional document: `null` where there is none.
pub open spec fn optional_model(value: Option<JsonValue>) -> JsonModel {
    match value {
        Some(v) => v@,
        None => JsonModel::Null,
    }
}

/// The JSON object with one member.
pub open spec fn object1(key: Seq<char>, value: JsonModel) -> JsonModel {
    JsonModel::Object(seq![(key, value)])
}

/// The JSON object with two members.
pub open spec fn object2(
    key1: Seq<char>,
    value1: JsonModel,
    key2: Seq<char>,
    value2: JsonModel,
) -> JsonModel {
    JsonModel::Object(seq![(key1, value1), (key2, value2)])
}

/// The JSON object with three members.
pub open spec fn object3(
    key1: Seq<char>,
    value1: JsonModel,
    key2: Seq<char>,
    value2: JsonModel,
    key3: Seq<char>,
    value3: JsonModel,
) -> JsonModel {
    JsonModel::Object(seq![(key1, value1), (key2, value2), (key3, value3)])
}

/// The model of the whole number `n`: non-negative numbers and negative
/// numbers are kept apart, as JSON libraries do.
pub open spec fn integer_model(n: int) -> JsonModel {
    if n >= 0 {
        JsonModel::Number(NumberModel::PosInt(n as nat))
    } else {
        JsonModel::Number(NumberModel::NegInt(n))
    }
}

impl View for JsonValue {
    type V = JsonModel;

    open spec fn view(&self) -> JsonModel {
        self.model()
    }
}

impl Clone for JsonValue {
    fn clone(&self) -> (r: JsonValue)
        ensures
            r@ == self@,
    {
        self.duplicate()
    }
}

} // verus!
