//! The dynamically typed values of a JSON document.
use vstd::prelude::*;

verus! {

broadcast use vstd::std_specs::vec::group_vec_axioms;

/// A JSON number as the parser read it: its value where it is an integer within `i64`, and
/// the text that the parser prints for it.
#[derive(Debug)]
pub struct JsonNumber {
    pub int: Option<i64>,
    pub text: String,
}

/// A JSON value. An object keeps its members in the order the parser handed them out.
#[derive(Debug)]
pub enum JsonValue {
    Null,
    Bool(bool),
    Number(JsonNumber),
    Str(String),
    Array(Vec<JsonValue>),
    Object(Vec<(String, JsonValue)>),
}

/// The mathematical form of a `JsonValue`.
pub enum JsonView {
    Null,
    Bool(bool),
    Number(Option<i64>, Seq<char>),
    Str(Seq<char>),
    Array(Seq<JsonView>),
    Object(Seq<(Seq<char>, JsonView)>),
}

impl JsonValue {
    pub open spec fn model(self) -> JsonView
        decreases self,
    {
        match self {
            JsonValue::Null => JsonView::Null,
            JsonValue::Bool(b) => JsonView::Bool(b),
            JsonValue::Number(n) => JsonView::Number(n.int, n.text@),
            JsonValue::Str(s) => JsonView::Str(s@),
            JsonValue::Array(items) => JsonView::Array(
                Seq::new(
                    items.len() as nat,
                    |i: int|
                        if 0 <= i < items.len() {
                            items[i].model()
                        } else {
                            JsonView::Null
                        },
                ),
            ),
            JsonValue::Object(fields) => JsonView::Object(
                Seq::new(
                    fields.len() as nat,
                    |i: int|
                        if 0 <= i < fields.len() {
                            (fields[i].0@, fields[i].1.model())
                        } else {
                            (Seq::empty(), JsonView::Null)
                        },
                ),
            ),
        }
    }
}

/// The value of the first member of `fields` named `key`.
pub open spec fn member_of(fields: Seq<(Seq<char>, JsonView)>, key: Seq<char>) -> Option<JsonView>
    decreases fields.len(),
{
    if fields.len() == 0 {
        None
    } else if fields[0].0 == key {
        Some(fields[0].1)
    } else {
        member_of(fields.drop_first(), key)
    }
}

/// The member `key` of `v`, when `v` is an object that has one.
pub open spec fn field_of(v: JsonView, key: Seq<char>) -> Option<JsonView> {
    match v {
        JsonView::Object(fields) => member_of(fields, key),
        _ => None,
    }
}

/// The items of `v`, when `v` is an array.
pub open spec fn items_of(v: JsonView) -> Option<Seq<JsonView>> {
    match v {
        JsonView::Array(items) => Some(items),
        _ => None,
    }
}

/// The text of `v`, when `v` is a string.
pub open spec fn text_of(v: JsonView) -> Option<Seq<char>> {
    match v {
        JsonView::Str(s) => Some(s),
        _ => None,
    }
}

/// serde_json's own tree of a document, handed from the reader to the conversion below.
#[verifier::external_type_specification]
#[verifier::external_body]
pub struct ExSerdeValue(serde_json::Value);

/// The document that serde_json reads from `text`, or `None` where `text` is no JSON.
pub uninterp spec fn json_document(text: Seq<char>) -> Option<JsonView>;

/// Relies on serde_json::from_str::<serde_json::Value>: reads `text` as one JSON document.
/// Each node of the result is moved into the variant of `JsonValue` of the same name.
#[verifier::external_body]
pub(crate) fn read_document(text: &str) -> (r: Option<JsonValue>)
    ensures
        match r {
            Some(v) => json_document(text@) == Some(v@),
            None => json_document(text@) is None,
        },
{
    serde_json::from_str::<serde_json::Value>(text).ok().map(JsonValue::from_serde)
}

/// Reads `text` as one JSON document.
pub fn parse_json(text: &str) -> (r: Option<JsonValue>)
    ensures
        match r {
            Some(v) => json_document(text@) == Some(v@),
            None => json_document(text@) is None,
        },
{
    read_document(text)
}

impl JsonValue {
    /// Relies on the variants of serde_json::Value, and on serde_json::Number's `as_i64` and
    /// `Display`: moves each node into the variant of the same name, keeping array order and
    /// the order in which the object's map hands out its members.
    #[verifier::external_body]
    fn from_serde(v: serde_json::Value) -> JsonValue {
        match v {
            serde_json::Value::Null => JsonValue::Null,
            serde_json::Value::Bool(b) => JsonValue::Bool(b),
            serde_json::Value::Number(n) => JsonValue::Number(JsonNumber { int: n.as_i64(), text: n.to_string() }),
            serde_json::Value::String(s) => JsonValue::Str(s),
            serde_json::Value::Array(a) => JsonValue::Array(a.into_iter().map(JsonValue::from_serde).collect()),
            serde_json::Value::Object(m) => JsonValue::Object(m.into_iter().map(|(k, x)| (k, JsonValue::from_serde(x))).collect()),
        }
    }

    /// A copy of the whole tree.
    pub fn duplicate(&self) -> (r: JsonValue)
        ensures
            r@ == self@,
        decreases self,
    {
        match self {
            JsonValue::Null => JsonValue::Null,
            JsonValue::Bool(b) => JsonValue::Bool(*b),
            JsonValue::Number(n) => JsonValue::Number(JsonNumber { int: n.int, text: n.text.clone() }),
            JsonValue::Str(s) => JsonValue::Str(s.clone()),
            JsonValue::Array(items) => {
                let mut out: Vec<JsonValue> = Vec::new();
                let mut i: usize = 0;
                assert(decreases_to!(*self => *items));
                while i < items.len()
                    invariant
                        *self == JsonValue::Array(*items),
                        decreases_to!(*self => *items),
                        i <= items.len(),
                        out.len() == i,
                        forall|k: int| 0 <= k < i ==> out[k]@ == items[k]@,
                    decreases items.len() - i,
                {
                    proof {
                        assert(decreases_to!(*items => items[i as int]));
                    }
                    out.push(items[i].duplicate());
                    i = i + 1;
                }
                proof {
                    let a = Seq::new(out.len() as nat, |k: int| if 0 <= k < out.len() { out[k].model() } else { JsonView::Null });
                    let b = Seq::new(items.len() as nat, |k: int| if 0 <= k < items.len() { items[k].model() } else { JsonView::Null });
                    assert forall|k: int| 0 <= k < a.len() implies a[k] == b[k] by {
                        assert(out[k]@ == items[k]@);
                    }
                    assert(a =~= b);
                    assert(JsonValue::Array(out)@->Array_0 =~= a);
                    assert(self@->Array_0 =~= b);
                }
                JsonValue::Array(out)
            },
            JsonValue::Object(fields) => {
                let mut out: Vec<(String, JsonValue)> = Vec::new();
                let mut i: usize = 0;
                assert(decreases_to!(*self => *fields));
                while i < fields.len()
                    invariant
                        *self == JsonValue::Object(*fields),
                        decreases_to!(*self => *fields),
                        i <= fields.len(),
                        out.len() == i,
                        forall|k: int| 0 <= k < i ==> out[k].0@ == fields[k].0@ && out[k].1@ == fields[k].1@,
                    decreases fields.len() - i,
                {
                    proof {
                        assert(decreases_to!(*fields => fields[i as int]));
                    }
                    let v = fields[i].1.duplicate();
                    out.push((fields[i].0.clone(), v));
                    i = i + 1;
                }
                proof {
                    let a = Seq::new(out.len() as nat, |k: int| if 0 <= k < out.len() { (out[k].0@, out[k].1.model()) } else { (Seq::empty(), JsonView::Null) });
                    let b = Seq::new(fields.len() as nat, |k: int| if 0 <= k < fields.len() { (fields[k].0@, fields[k].1.model()) } else { (Seq::empty(), JsonView::Null) });
                    assert forall|k: int| 0 <= k < a.len() implies a[k] == b[k] by {
                        assert(out[k].1@ == fields[k].1@);
                    }
                    assert(a =~= b);
                    assert(JsonValue::Object(out)@->Object_0 =~= a);
                    assert(self@->Object_0 =~= b);
                }
                JsonValue::Object(out)
            },
        }
    }

    /// The member `key`, when `self` is an object that has one.
    pub fn get(&self, key: &str) -> (r: Option<&JsonValue>)
        ensures
            match r {
                Some(v) => field_of(self@, key@) == Some(v@),
                None => field_of(self@, key@) is None,
            },
    {
        match self {
            JsonValue::Object(fields) => {
                let mut i: usize = 0;
                assert(self@->Object_0.subrange(0, fields.len() as int) =~= self@->Object_0);
                while i < fields.len()
                    invariant
                        i <= fields.len(),
                        self@ == JsonValue::Object(*fields)@,
                        member_of(self@->Object_0.subrange(i as int, fields.len() as int), key@)
                            == member_of(self@->Object_0, key@),
                    decreases fields.len() - i,
                {
                    let ghost rest = self@->Object_0.subrange(i as int, fields.len() as int);
                    assert(rest.drop_first() =~= self@->Object_0.subrange(i + 1, fields.len() as int));
                    if crate::text::str_eq(fields[i].0.as_str(), key) {
                        return Some(&fields[i].1);
                    }
                    i = i + 1;
                }
                None
            },
            _ => None,
        }
    }

    /// The items, when `self` is an array.
    pub fn as_array(&self) -> (r: Option<&Vec<JsonValue>>)
        ensures
            match r {
                Some(items) => items_of(self@) == Some(items@.map_values(|x: JsonValue| x@)),
                None => items_of(self@) is None,
            },
    {
        match self {
            JsonValue::Array(items) => {
                assert(items@.map_values(|x: JsonValue| x@) =~= self@->Array_0);
                Some(items)
            },
            _ => None,
        }
    }

    /// The text, when `self` is a string.
    pub fn as_str(&self) -> (r: Option<&str>)
        ensures
            match r {
                Some(s) => text_of(self@) == Some(s@),
                None => text_of(self@) is None,
            },
    {
        match self {
            JsonValue::Str(s) => Some(s.as_str()),
            _ => None,
        }
    }
}

impl View for JsonValue {
    type V = JsonView;

    open spec fn view(&self) -> JsonView {
        self.model()
    }
}

} // verus!
