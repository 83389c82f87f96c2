//! From the answer of a transport to what a controller gives back.
//!
//! A controller hands a request to the client and reads the answer in three
//! steps. A failure of the transport is passed on. A response that holds an
//! error of the backend becomes that error. Otherwise the result of the
//! response is read for what the action promises, and a result of another
//! shape is an error of the client, under the name of the controller's
//! function.
use crate::json::{contents, json_of, member, object_of, copy_object, Json};
use crate::types::{
    KuzzleResponse, ProtocolError, ProtocolErrorView, QueryError, QueryErrorView, ResponseView,
    SdkError, SdkErrorView,
};
use serde_json::Value;
use vstd::prelude::*;

verus! {

/// What a transport answered, by its content.
pub type ReplyView = Result<ResponseView, ProtocolErrorView>;

/// The content of an answer.
pub open spec fn reply_view(reply: Result<KuzzleResponse, ProtocolError>) -> ReplyView {
    match reply {
        Ok(response) => Ok(response@),
        Err(error) => Err(error@),
    }
}

/// The error of the client raised by `cause` with `message`.
pub open spec fn refusal(cause: Seq<char>, message: Seq<char>) -> QueryErrorView {
    QueryErrorView::Sdk(SdkErrorView { cause, message })
}

/// The result that an answer holds: the failure of the transport, the error
/// of the backend, or the result of the response.
pub open spec fn result_in(reply: ReplyView) -> Result<Json, QueryErrorView> {
    match reply {
        Err(error) => Err(QueryErrorView::Protocol(error)),
        Ok(response) => match response.error {
            Some(error) => Err(QueryErrorView::Kuzzle(error)),
            None => Ok(response.result),
        },
    }
}

/// What a controller gives back for `reply`, where `read` tells what a
/// result holds for the action, and `cause` and `message` are those of the
/// error for a result that it cannot read.
pub open spec fn outcome<T>(
    reply: ReplyView,
    read: spec_fn(Json) -> Option<T>,
    cause: Seq<char>,
    message: Seq<char>,
) -> Result<T, QueryErrorView> {
    match result_in(reply) {
        Err(error) => Err(error),
        Ok(result) => match read(result) {
            Some(value) => Ok(value),
            None => Err(refusal(cause, message)),
        },
    }
}

/// `r` is `expected`, an error by its content.
pub open spec fn agrees<T>(r: Result<T, QueryError>, expected: Result<T, QueryErrorView>) -> bool {
    match expected {
        Ok(value) => r is Ok && r->Ok_0 == value,
        Err(error) => r is Err && r->Err_0@ == error,
    }
}

/// The views of `names`.
pub open spec fn name_views(names: Seq<String>) -> Seq<Seq<char>> {
    names.map_values(|name: String| name@)
}

/// `r` is `expected`, the names and an error by their content.
pub open spec fn agrees_on_names(
    r: Result<Vec<String>, QueryError>,
    expected: Result<Seq<Seq<char>>, QueryErrorView>,
) -> bool {
    match expected {
        Ok(names) => r is Ok && name_views(r->Ok_0@) == names,
        Err(error) => r is Err && r->Err_0@ == error,
    }
}

/// `r` is `expected`, the object and an error by their content.
pub open spec fn agrees_on_object(
    r: Result<serde_json::Map<String, Value>, QueryError>,
    expected: Result<Map<Seq<char>, Json>, QueryErrorView>,
) -> bool {
    match expected {
        Ok(fields) => r is Ok && object_of(r->Ok_0) == fields,
        Err(error) => r is Err && r->Err_0@ == error,
    }
}

/// Any result will do.
pub open spec fn read_nothing(result: Json) -> Option<()> {
    Some(())
}

/// The result is a boolean.
pub open spec fn read_flag(result: Json) -> Option<bool> {
    result.as_bool()
}

/// The result is an object whose member `key` is a boolean.
pub open spec fn read_flag_at(result: Json, key: Seq<char>) -> Option<bool> {
    match result.member(key) {
        Some(value) => value.as_bool(),
        None => None,
    }
}

/// The result is an object whose member `key` is a non-negative integer.
pub open spec fn read_number_at(result: Json, key: Seq<char>) -> Option<u64> {
    match result.member(key) {
        Some(value) => value.as_u64(),
        None => None,
    }
}

/// The result is an object.
pub open spec fn read_object(result: Json) -> Option<Map<Seq<char>, Json>> {
    result.as_object()
}

/// The texts of `items`, in their order, where each of them is a text.
pub open spec fn all_texts(items: Seq<Json>) -> Option<Seq<Seq<char>>> {
    if forall|i: int| 0 <= i < items.len() ==> (#[trigger] items[i]) is Text {
        Some(items.map_values(|item: Json| item->Text_0))
    } else {
        None
    }
}

/// The result is an object whose member `key` is an array of texts.
pub open spec fn read_names_at(result: Json, key: Seq<char>) -> Option<Seq<Seq<char>>> {
    match result.member(key) {
        Some(Json::Array(items)) => all_texts(items),
        _ => None,
    }
}

/// The message of the error for a result of another shape than the action
/// promises.
pub open spec fn unexpected() -> Seq<char> {
    "unexpected result."@
}

fn refuse(cause: &str) -> (r: QueryError)
    ensures
        r@ == refusal(cause@, unexpected()),
{
    QueryError::Sdk(SdkError::new(cause, "unexpected result."))
}

/// The result that `reply` holds.
pub fn result_of(reply: Result<KuzzleResponse, ProtocolError>) -> (r: Result<Value, QueryError>)
    ensures
        match result_in(reply_view(reply)) {
            Ok(result) => r is Ok && json_of(r->Ok_0) == result,
            Err(error) => r is Err && r->Err_0@ == error,
        },
{
    match reply {
        Err(error) => Err(QueryError::Protocol(error)),
        Ok(response) => match response.into_outcome() {
            Err(error) => Err(QueryError::Kuzzle(error)),
            Ok(result) => Ok(result),
        },
    }
}

/// Reads the answer to an action that promises nothing but to be done.
pub fn acknowledged(reply: Result<KuzzleResponse, ProtocolError>, cause: &str) -> (r: Result<
    (),
    QueryError,
>)
    ensures
        agrees(r, outcome(reply_view(reply), |result: Json| read_nothing(result), cause@, unexpected())),
{
    match result_of(reply) {
        Err(error) => Err(error),
        Ok(_) => Ok(()),
    }
}

/// Reads the answer to an action whose result is a boolean.
pub fn flag(reply: Result<KuzzleResponse, ProtocolError>, cause: &str) -> (r: Result<
    bool,
    QueryError,
>)
    ensures
        agrees(r, outcome(reply_view(reply), |result: Json| read_flag(result), cause@, unexpected())),
{
    match result_of(reply) {
        Err(error) => Err(error),
        Ok(result) => match result.as_bool() {
            Some(b) => Ok(b),
            None => Err(refuse(cause)),
        },
    }
}

/// Reads the answer to an action whose result holds a boolean under `key`.
pub fn flag_at(reply: Result<KuzzleResponse, ProtocolError>, key: &str, cause: &str) -> (r: Result<
    bool,
    QueryError,
>)
    ensures
        agrees(
            r,
            outcome(
                reply_view(reply),
                |result: Json| read_flag_at(result, key@),
                cause@,
                unexpected(),
            ),
        ),
{
    match result_of(reply) {
        Err(error) => Err(error),
        Ok(result) => match member(&result, key) {
            Some(value) => match value.as_bool() {
                Some(b) => Ok(b),
                None => Err(refuse(cause)),
            },
            None => Err(refuse(cause)),
        },
    }
}

/// Reads the answer to an action whose result holds a non-negative integer
/// under `key`.
pub fn number_at(reply: Result<KuzzleResponse, ProtocolError>, key: &str, cause: &str) -> (r:
    Result<u64, QueryError>)
    ensures
        agrees(
            r,
            outcome(
                reply_view(reply),
                |result: Json| read_number_at(result, key@),
                cause@,
                unexpected(),
            ),
        ),
{
    match result_of(reply) {
        Err(error) => Err(error),
        Ok(result) => match member(&result, key) {
            Some(value) => match value.as_u64() {
                Some(n) => Ok(n),
                None => Err(refuse(cause)),
            },
            None => Err(refuse(cause)),
        },
    }
}

/// Reads the answer to an action whose result is an object.
pub fn object(reply: Result<KuzzleResponse, ProtocolError>, cause: &str) -> (r: Result<
    serde_json::Map<String, Value>,
    QueryError,
>)
    ensures
        agrees_on_object(
            r,
            outcome(reply_view(reply), |result: Json| read_object(result), cause@, unexpected()),
        ),
{
    match result_of(reply) {
        Err(error) => Err(error),
        Ok(result) => match result.as_object() {
            Some(fields) => Ok(copy_object(fields)),
            None => Err(refuse(cause)),
        },
    }
}

/// The texts of `items`, where each of them is a text.
fn texts_of(items: &Vec<Value>) -> (r: Option<Vec<String>>)
    ensures
        match all_texts(contents(items@)) {
            Some(names) => r is Some && name_views(r->0@) == names,
            None => r is None,
        },
{
    let mut out: Vec<String> = Vec::new();
    let mut i: usize = 0;
    while i < items.len()
        invariant
            i <= items@.len(),
            out@.len() == i,
            forall|k: int|
                0 <= k < i ==> (#[trigger] contents(items@)[k]) == Json::Text(out@[k]@),
        decreases items@.len() - i,
    {
        match items[i].as_str() {
            Some(text) => {
                out.push(text.to_owned());
            },
            None => {
                assert(!(contents(items@)[i as int] is Text));
                return None;
            },
        }
        i = i + 1;
    }
    proof {
        let names = all_texts(contents(items@))->0;
        assert(name_views(out@) =~= names);
    }
    Some(out)
}

/// Reads the answer to an action whose result holds a list of names under
/// `key`. The names come in the order of the list.
pub fn names_at(reply: Result<KuzzleResponse, ProtocolError>, key: &str, cause: &str) -> (r:
    Result<Vec<String>, QueryError>)
    ensures
        agrees_on_names(
            r,
            outcome(
                reply_view(reply),
                |result: Json| read_names_at(result, key@),
                cause@,
                unexpected(),
            ),
        ),
{
    match result_of(reply) {
        Err(error) => Err(error),
        Ok(result) => match member(&result, key) {
            Some(value) => match value.as_array() {
                Some(items) => match texts_of(items) {
                    Some(names) => Ok(names),
                    None => Err(refuse(cause)),
                },
                None => Err(refuse(cause)),
            },
            None => Err(refuse(cause)),
        },
    }
}

} // verus!
