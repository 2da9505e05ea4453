//! JSON text.
use vstd::prelude::*;

verus! {

/// A value in a JSON object.
#[derive(Debug, Clone, PartialEq, Eq)]
pub enum JsonValue {
    Text(String),
    Number(u8),
}

/// A named value in a JSON object.
#[derive(Debug, Clone, PartialEq, Eq)]
pub struct JsonField {
    pub name: String,
    pub value: JsonValue,
}

/// A [`JsonValue`] with its text as a sequence.
pub enum JsonValueView {
    Text(Seq<char>),
    Number(u8),
}

impl View for JsonValue {
    type V = JsonValueView;

    open spec fn view(&self) -> JsonValueView {
        match *self {
            JsonValue::Text(text) => JsonValueView::Text(text@),
            JsonValue::Number(number) => JsonValueView::Number(number),
        }
    }
}

impl View for JsonField {
    type V = (Seq<char>, JsonValueView);

    open spec fn view(&self) -> (Seq<char>, JsonValueView) {
        (self.name@, self.value@)
    }
}

/// No two of these fields have one name.
pub open spec fn names_differ(fields: Seq<(Seq<char>, JsonValueView)>) -> bool {
    forall|i: int, j: int|
        0 <= i < j < fields.len() ==> (#[trigger] fields[i]).0 != (#[trigger] fields[j]).0
}

/// What `to_vec_pretty` of the serde_json crate writes for an object with these fields in this
/// order.
pub uninterp spec fn pretty_json(fields: Seq<(Seq<char>, JsonValueView)>) -> Seq<u8>;

/// What serde_json reports of a value that it cannot write.
#[verifier::external_type_specification]
#[verifier::external_body]
pub struct ExJsonError(serde_json::Error);

/// Calls `serde_json::to_vec_pretty` for an object with these fields. It fails only where an
/// impl of `Serialize` fails or a key is no string, and neither is so here. The text is a
/// function of the fields and their order; what it looks like is left unsaid, except that names
/// and texts are quoted and escaped without loss: where names differ, the text tells the fields
/// and their order.
#[verifier::external_body]
pub(crate) fn to_vec_pretty(fields: Vec<JsonField>) -> (text: Result<Vec<u8>, serde_json::Error>)
    ensures
        text is Ok,
        text->Ok_0@ == pretty_json(fields@.map_values(|f: JsonField| f@)),
        names_differ(fields@.map_values(|f: JsonField| f@)) ==> forall|
            other: Seq<(Seq<char>, JsonValueView)>,
        |
            names_differ(other) && #[trigger] pretty_json(other) == text->Ok_0@ ==> other
                == fields@.map_values(|f: JsonField| f@),
{
    let value = |value: JsonValue| match value {
        JsonValue::Text(text) => serde_json::Value::from(text),
        JsonValue::Number(number) => serde_json::Value::from(number),
    };
    let object: serde_json::Map<String, serde_json::Value> =
        fields.into_iter().map(|field| (field.name, value(field.value))).collect();
    serde_json::to_vec_pretty(&object)
}

} // verus!
