//! What is read out of a reply, told by what the reply holds.
use vstd::prelude::*;

use crate::json::{
    error_message, first_text, json_contents, status, string_reply, task_id, text_at, told_or, Json,
};

verus! {

/// Whether `j` is an object with the string `s` under `key`.
pub open spec fn says(j: Json, key: Seq<char>, s: Seq<char>) -> bool {
    j matches Json::Object(m) && m.contains_key(key) && m[key] == Json::Text(s)
}

/// Whether `j` is no object with a string under `key`.
pub open spec fn is_silent(j: Json, key: Seq<char>) -> bool {
    forall|s: Seq<char>| !#[trigger] says(j, key, s)
}

proof fn lemma_says(j: Json, key: Seq<char>)
    ensures
        j.text_at(key) matches Some(s) ==> says(j, key, s),
        j.text_at(key) is None ==> is_silent(j, key),
{
    if j.text_at(key) is None {
        assert forall|s: Seq<char>| !#[trigger] says(j, key, s) by {}
    }
}

/// A reply that is to be a string is read as that string, and any other as nothing.
pub proof fn string_is_read_as_it_is(v: &serde_json::Value, r: Option<String>)
    requires
        call_ensures(string_reply, (v,), r),
    ensures
        match json_contents(*v) {
            Json::Text(s) => r is Some && r->0@ == s,
            _ => r is None,
        },
{
}

/// A member is read if and only if the reply is an object that has a string there.
pub proof fn member_is_read_where_it_is(v: &serde_json::Value, key: &str, r: Option<String>)
    requires
        call_ensures(text_at, (v, key), r),
    ensures
        r matches Some(s) ==> says(json_contents(*v), key@, s@),
        r is None ==> is_silent(json_contents(*v), key@),
{
    lemma_says(json_contents(*v), key@);
}

/// Of two texts the first that is there counts, and where none is, another stands in.
pub proof fn first_text_counts(
    a: Option<String>,
    b: Option<String>,
    r: Option<String>,
    other: &str,
    t: String,
)
    requires
        call_ensures(first_text, (a, b), r),
        call_ensures(told_or, (r, other), t),
    ensures
        a matches Some(s) ==> t@ == s@,
        a is None && b is Some ==> t@ == b->0@,
        a is None && b is None ==> t@ == other@,
        r is None <==> a is None && b is None,
        r matches Some(s) ==> s@ == t@,
{
}

/// The id of a submitted job is the reply, where that is a string, or the string under
/// `SubmitJob`. No other reply tells one.
pub proof fn job_id_is_what_the_reply_tells(v: &serde_json::Value, r: Option<String>)
    requires
        call_ensures(task_id, (v,), r),
    ensures
        r matches Some(id) ==> json_contents(*v) == Json::Text(id@) || says(
            json_contents(*v),
            "SubmitJob"@,
            id@,
        ),
        r is None ==> !(json_contents(*v) is Text) && is_silent(json_contents(*v), "SubmitJob"@),
        match r {
            Some(id) => json_contents(*v).task_id() == Some(id@),
            None => json_contents(*v).task_id() is None,
        },
{
    lemma_says(json_contents(*v), "SubmitJob"@);
}

/// The status of a job is the string under `status`, and else `unknown`.
pub proof fn status_is_what_the_reply_tells(v: &serde_json::Value, r: String)
    requires
        call_ensures(status, (v,), r),
    ensures
        says(json_contents(*v), "status"@, r@) || (is_silent(json_contents(*v), "status"@) && r@
            == "unknown"@),
        json_contents(*v).status() == r@,
{
    lemma_says(json_contents(*v), "status"@);
}

/// Whether the reply tells of its error by the member `error`: a string, or an object with
/// a reason or else a message.
pub open spec fn says_error(j: Json, s: Seq<char>) -> bool {
    ||| says(j, "error"@, s)
    ||| {
        &&& j matches Json::Object(m)
        &&& m.contains_key("error"@)
        &&& m["error"@] is Object
        &&& says(m["error"@], "reason"@, s) || (is_silent(m["error"@], "reason"@) && says(
            m["error"@],
            "message"@,
            s,
        ))
    }
}

/// Why a job completed with an error is the first thing that the reply tells of these: its
/// error, its error output, its message, its details. Where it tells none, the error is
/// unknown.
pub proof fn error_is_the_first_that_is_told(v: &serde_json::Value, r: String)
    requires
        call_ensures(error_message, (v,), r),
    ensures
        ({
            let j = json_contents(*v);
            let no_error = forall|s: Seq<char>| !#[trigger] says_error(j, s);
            ||| says_error(j, r@)
            ||| no_error && says(j, "stderr"@, r@)
            ||| no_error && is_silent(j, "stderr"@) && says(j, "message"@, r@)
            ||| no_error && is_silent(j, "stderr"@) && is_silent(j, "message"@) && says(
                j,
                "details"@,
                r@,
            )
            ||| no_error && is_silent(j, "stderr"@) && is_silent(j, "message"@) && is_silent(
                j,
                "details"@,
            ) && r@ == "Unknown error"@
        }),
        json_contents(*v).error_message() == r@,
{
    let j = json_contents(*v);
    lemma_says(j, "error"@);
    lemma_says(j, "stderr"@);
    lemma_says(j, "message"@);
    lemma_says(j, "details"@);
    if let Some(e) = j.member("error"@) {
        lemma_says(e, "reason"@);
        lemma_says(e, "message"@);
    }
    if j.told_error() is None {
        assert forall|s: Seq<char>| !#[trigger] says_error(j, s) by {}
    }
}

} // verus!
