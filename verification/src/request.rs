//! Requests to a bridge, described and not sent.

use vstd::prelude::*;

verus! {

/// How a request is made.
#[derive(Debug, Clone, Copy, PartialEq, Eq, Structural)]
pub enum Method {
    Get,
    Post,
    Put,
}

/// A request to send: how, where, and with what JSON text as its body.
#[derive(Debug, PartialEq, Eq)]
pub struct Request {
    pub method: Method,
    pub url: String,
    pub body: Option<String>,
}

/// Mathematical content of a [`Request`].
pub struct RequestView {
    pub method: Method,
    pub url: Seq<char>,
    pub body: Option<Seq<char>>,
}

impl View for Request {
    type V = RequestView;

    open spec fn view(&self) -> RequestView {
        RequestView {
            method: self.method,
            url: self.url@,
            body: match self.body {
                Some(text) => Some(text@),
                None => None,
            },
        }
    }
}

/// A value that an attribute of a lamp can be set to.
#[derive(Debug, PartialEq, Eq)]
pub enum AttributeValue {
    Bool(bool),
    Integer(i64),
    Text(String),
}

/// Mathematical content of an [`AttributeValue`].
pub enum AttributeView {
    Bool(bool),
    Integer(int),
    Text(Seq<char>),
}

impl View for AttributeValue {
    type V = AttributeView;

    open spec fn view(&self) -> AttributeView {
        match *self {
            AttributeValue::Bool(flag) => AttributeView::Bool(flag),
            AttributeValue::Integer(number) => AttributeView::Integer(number as int),
            AttributeValue::Text(text) => AttributeView::Text(text@),
        }
    }
}

/// The compact JSON text of the object with the one member `key`, whose value is `value`.
pub uninterp spec fn json_object(key: Seq<char>, value: AttributeView) -> Seq<char>;

/// Builds the JSON object with the one member `key` out of the values of
/// `serde_json` and has `serde_json` write it as text, by `to_string` of
/// `serde_json::Value`. The contract only gives that text a name: it is a
/// function of the key and the value alone.
#[verifier::external_body]
pub(crate) fn write_json_object(key: &str, value: &AttributeValue) -> (text: String)
    ensures
        text@ == json_object(key@, value@),
{
    let member = match value {
        AttributeValue::Bool(flag) => serde_json::Value::Bool(*flag),
        AttributeValue::Integer(number) => serde_json::Value::from(*number),
        AttributeValue::Text(text) => serde_json::Value::String(text.clone()),
    };
    let mut object = serde_json::Map::new();
    object.insert(key.to_string(), member);
    serde_json::Value::Object(object).to_string()
}

} // verus!
