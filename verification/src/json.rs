//! Reading the JSON replies of the computing service.
use vstd::prelude::*;

use crate::text::opt_text;

verus! {

/// What a JSON value holds, as far as the replies are read.
pub enum Json {
    /// A string.
    Text(Seq<char>),
    /// An object, by its keys.
    Object(Map<Seq<char>, Json>),
    /// Null, a boolean, a number or an array.
    Other,
}

impl Json {
    /// The string, where the value is one.
    pub open spec fn text(self) -> Option<Seq<char>> {
        match self {
            Json::Text(s) => Some(s),
            _ => None,
        }
    }

    /// The member under `key`, where the value is an object that has it.
    pub open spec fn member(self, key: Seq<char>) -> Option<Json> {
        match self {
            Json::Object(m) => if m.contains_key(key) {
                Some(m[key])
            } else {
                None
            },
            _ => None,
        }
    }

    /// The string under `key` of an object.
    pub open spec fn text_at(self, key: Seq<char>) -> Option<Seq<char>> {
        match self.member(key) {
            Some(v) => v.text(),
            None => None,
        }
    }

    /// The id of a submitted job: the reply itself, or its member `SubmitJob`, where
    /// it is a string.
    pub open spec fn task_id(self) -> Option<Seq<char>> {
        match self {
            Json::Object(_) => self.text_at("SubmitJob"@),
            _ => self.text(),
        }
    }

    /// The status of a job: `unknown` where the reply tells none.
    pub open spec fn status(self) -> Seq<char> {
        text_or(self.text_at("status"@), "unknown"@)
    }

    /// What the member `error` tells: a string, or the reason or else the message in
    /// an object.
    pub open spec fn told_error(self) -> Option<Seq<char>> {
        match self.member("error"@) {
            Some(Json::Object(m)) => first_of(
                Json::Object(m).text_at("reason"@),
                Json::Object(m).text_at("message"@),
            ),
            Some(e) => e.text(),
            None => None,
        }
    }

    /// Why a job completed with an error: the first that the reply tells of its
    /// error, its error output, its message and its details.
    pub open spec fn error_message(self) -> Seq<char> {
        let told = first_of(
            self.told_error(),
            first_of(
                self.text_at("stderr"@),
                first_of(self.text_at("message"@), self.text_at("details"@)),
            ),
        );
        text_or(told, "Unknown error"@)
    }
}

/// The first of two texts that is there.
pub open spec fn first_of(a: Option<Seq<char>>, b: Option<Seq<char>>) -> Option<Seq<char>> {
    if a is Some {
        a
    } else {
        b
    }
}

/// The text, where there is one, and else `other`.
pub open spec fn text_or(told: Option<Seq<char>>, other: Seq<char>) -> Seq<char> {
    match told {
        Some(s) => s,
        None => other,
    }
}

/// `serde_json::Value`, the reply type of the service's client.
#[verifier::external_type_specification]
#[verifier::external_body]
pub struct ExValue(serde_json::Value);

/// What a `serde_json::Value` holds: `Text` for `Value::String`, `Object` for
/// `Value::Object`, `Other` for every other variant.
pub uninterp spec fn json_contents(v: serde_json::Value) -> Json;

/// `serde_json::Value::as_str`: the string for `Value::String`, nothing for every
/// other variant.
pub assume_specification<'a>[ serde_json::Value::as_str ](v: &'a serde_json::Value) -> (r: Option<
    &'a str,
>)
    ensures
        match r {
            Some(s) => json_contents(*v).text() == Some(s@),
            None => json_contents(*v).text() is None,
        },
;

/// `serde_json::Value::get` with a string index: the member under `key` for
/// `Value::Object`, nothing where the key is absent or for every other variant.
#[verifier::external_body]
fn member<'a>(v: &'a serde_json::Value, key: &str) -> (r: Option<&'a serde_json::Value>)
    ensures
        match r {
            Some(m) => json_contents(*v).member(key@) == Some(json_contents(*m)),
            None => json_contents(*v).member(key@) is None,
        },
{
    v.get(key)
}

/// The string, where `v` is one.
fn text(v: &serde_json::Value) -> (r: Option<String>)
    ensures
        opt_text(r) == json_contents(*v).text(),
{
    match v.as_str() {
        Some(s) => Some(s.to_string()),
        None => None,
    }
}

/// The string under `key` of an object.
pub fn text_at(v: &serde_json::Value, key: &str) -> (r: Option<String>)
    ensures
        opt_text(r) == json_contents(*v).text_at(key@),
{
    match member(v, key) {
        Some(m) => text(m),
        None => None,
    }
}

/// The first of two texts that is there.
pub fn first_text(a: Option<String>, b: Option<String>) -> (r: Option<String>)
    ensures
        opt_text(r) == first_of(opt_text(a), opt_text(b)),
{
    match a {
        Some(s) => Some(s),
        None => b,
    }
}

/// The text, where there is one, and else `other`.
pub fn told_or(told: Option<String>, other: &str) -> (r: String)
    ensures
        r@ == text_or(opt_text(told), other@),
{
    match told {
        Some(s) => s,
        None => other.to_string(),
    }
}

/// The string that a reply must be, as the API token is.
pub fn string_reply(v: &serde_json::Value) -> (r: Option<String>)
    ensures
        opt_text(r) == json_contents(*v).text(),
{
    text(v)
}

/// The id of a submitted job.
pub fn task_id(v: &serde_json::Value) -> (r: Option<String>)
    ensures
        opt_text(r) == json_contents(*v).task_id(),
{
    first_text(text(v), text_at(v, "SubmitJob"))
}

/// The status of a job.
pub fn status(v: &serde_json::Value) -> (r: String)
    ensures
        r@ == json_contents(*v).status(),
{
    told_or(text_at(v, "status"), "unknown")
}

/// What the member `error` tells.
fn told_error(v: &serde_json::Value) -> (r: Option<String>)
    ensures
        opt_text(r) == json_contents(*v).told_error(),
{
    match member(v, "error") {
        Some(e) => first_text(text(e), first_text(text_at(e, "reason"), text_at(e, "message"))),
        None => None,
    }
}

/// Why a job completed with an error.
pub fn error_message(v: &serde_json::Value) -> (r: String)
    ensures
        r@ == json_contents(*v).error_message(),
{
    let rest = first_text(text_at(v, "message"), text_at(v, "details"));
    let told = first_text(told_error(v), first_text(text_at(v, "stderr"), rest));
    told_or(told, "Unknown error")
}

} // verus!
