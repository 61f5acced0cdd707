//! Flat JSON objects.
use vstd::prelude::*;

verus! {

/// A value of a flat JSON object.
pub enum JsonScalar {
    Text(String),
    Number(u64),
}

/// What a [`JsonScalar`] stands for.
pub enum JsonScalarView {
    Text(Seq<char>),
    Number(u64),
}

impl View for JsonScalar {
    type V = JsonScalarView;

    open spec fn view(&self) -> JsonScalarView {
        match self {
            JsonScalar::Text(text) => JsonScalarView::Text(text@),
            JsonScalar::Number(number) => JsonScalarView::Number(*number),
        }
    }
}

/// One named value of a flat JSON object.
pub struct JsonMember {
    pub name: String,
    pub value: JsonScalar,
}

impl View for JsonMember {
    type V = (Seq<char>, JsonScalarView);

    open spec fn view(&self) -> (Seq<char>, JsonScalarView) {
        (self.name@, self.value@)
    }
}

/// What the members of an object stand for, in order.
pub open spec fn members_view(members: Seq<JsonMember>) -> Seq<(Seq<char>, JsonScalarView)> {
    members.map_values(|m: JsonMember| m@)
}

/// The text that `serde_json` prints for the object that holds these members.
pub uninterp spec fn json_object_text(members: Seq<(Seq<char>, JsonScalarView)>) -> Seq<char>;

/// Calls `serde_json::Value::to_string` on the object made of the members, put
/// in one after the other. Nothing but the members decides the text, which is
/// given the name [`json_object_text`].
#[verifier::external_body]
pub(crate) fn json_object(members: Vec<JsonMember>) -> (r: String)
    ensures
        r@ == json_object_text(members_view(members@)),
{
    let mut map = serde_json::Map::new();
    for member in members {
        let value = match member.value {
            JsonScalar::Text(text) => serde_json::Value::String(text),
            JsonScalar::Number(number) => serde_json::Value::from(number),
        };
        map.insert(member.name, value);
    }
    serde_json::Value::Object(map).to_string()
}

/// A member with a text.
pub fn text_member(name: &str, text: &str) -> (r: JsonMember)
    ensures
        r@ == (name@, JsonScalarView::Text(text@)),
{
    JsonMember { name: name.to_owned(), value: JsonScalar::Text(text.to_owned()) }
}

/// A member with a number.
pub fn number_member(name: &str, number: u64) -> (r: JsonMember)
    ensures
        r@ == (name@, JsonScalarView::Number(number)),
{
    JsonMember { name: name.to_owned(), value: JsonScalar::Number(number) }
}

}
