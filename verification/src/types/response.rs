//! The reply of the server to one call, and how it is read from JSON.
use crate::json::{entries, error_message, json_of, member, parse, parsed, Json};
use crate::types::errors::{text_of, KuzzleError, KuzzleErrorView, ProtocolError, ProtocolErrorView};
use crate::types::payload::Payload;
use serde_json::Value;
use vstd::prelude::*;

verus! {

/// The reply of the server, in the format that all its routes share.
///
/// `error` is there exactly when the call failed at the server; `result`
/// means something only when it is not.
#[derive(Debug, PartialEq)]
pub struct KuzzleResponse {
    request_id: String,
    status: u16,
    error: Option<KuzzleError>,
    controller: Option<String>,
    action: Option<String>,
    collection: Option<String>,
    index: Option<String>,
    volatile: Option<Payload>,
    result: Value,
    room_id: Option<String>,
    channel: Option<String>,
}

/// What a [`KuzzleResponse`] holds.
pub struct ResponseView {
    pub request_id: Seq<char>,
    pub status: u16,
    pub error: Option<KuzzleErrorView>,
    pub controller: Option<Seq<char>>,
    pub action: Option<Seq<char>>,
    pub collection: Option<Seq<char>>,
    pub index: Option<Seq<char>>,
    pub volatile: Option<Map<Seq<char>, Json>>,
    pub result: Json,
    pub room_id: Option<Seq<char>>,
    pub channel: Option<Seq<char>>,
}

/// The view of an optional backend error.
pub open spec fn error_of(error: Option<KuzzleError>) -> Option<KuzzleErrorView> {
    match error {
        Some(e) => Some(e@),
        None => None,
    }
}

/// The view of optional volatile data.
pub open spec fn volatile_of(volatile: Option<Payload>) -> Option<Map<Seq<char>, Json>> {
    match volatile {
        Some(data) => Some(data@),
        None => None,
    }
}

impl View for KuzzleResponse {
    type V = ResponseView;

    closed spec fn view(&self) -> ResponseView {
        ResponseView {
            request_id: self.request_id@,
            status: self.status,
            error: error_of(self.error),
            controller: text_of(self.controller),
            action: text_of(self.action),
            collection: text_of(self.collection),
            index: text_of(self.index),
            volatile: volatile_of(self.volatile),
            result: json_of(self.result),
            room_id: text_of(self.room_id),
            channel: text_of(self.channel),
        }
    }
}

/// A member that must be a text.
pub open spec fn required_text(document: Json, key: Seq<char>) -> Option<Seq<char>> {
    match document.member(key) {
        Some(Json::Text(text)) => Some(text),
        _ => None,
    }
}

/// A member that is a text, or is `null` or missing. The outer `None` is for
/// a member of another kind.
pub open spec fn optional_text(document: Json, key: Seq<char>) -> Option<Option<Seq<char>>> {
    match document.member(key) {
        None => Some(None),
        Some(Json::Null) => Some(None),
        Some(Json::Text(text)) => Some(Some(text)),
        Some(_) => None,
    }
}

/// A status code: an integer from 0 to 65535.
pub open spec fn status_of(value: Json) -> Option<u16> {
    match value {
        Json::Integer(n) => if 0 <= n <= u16::MAX {
            Some(n as u16)
        } else {
            None
        },
        _ => None,
    }
}

/// The member `status`, which must be a status code.
pub open spec fn required_status(document: Json) -> Option<u16> {
    match document.member("status"@) {
        Some(value) => status_of(value),
        None => None,
    }
}

/// The member `status` of an error, which is a status code, or is `null` or
/// missing. The outer `None` is for anything else.
pub open spec fn optional_status(document: Json) -> Option<Option<u16>> {
    match document.member("status"@) {
        None => Some(None),
        Some(Json::Null) => Some(None),
        Some(value) => match status_of(value) {
            Some(code) => Some(Some(code)),
            None => None,
        },
    }
}

/// The backend error written in `document`: `message` is a text, `status`
/// a status code where there is one, `stack` a text where there is one.
pub open spec fn decoded_error(document: Json) -> Option<KuzzleErrorView> {
    match (
        optional_status(document),
        required_text(document, "message"@),
        optional_text(document, "stack"@),
    ) {
        (Some(status), Some(message), Some(stack)) => Some(
            KuzzleErrorView { status, message, stack },
        ),
        _ => None,
    }
}

/// The member `error`: a backend error, or `null` or missing. The outer
/// `None` is for anything else.
pub open spec fn optional_error(document: Json) -> Option<Option<KuzzleErrorView>> {
    match document.member("error"@) {
        None => Some(None),
        Some(Json::Null) => Some(None),
        Some(value) => match decoded_error(value) {
            Some(error) => Some(Some(error)),
            None => None,
        },
    }
}

/// The member `volatile`: an object, or `null` or missing. The outer `None`
/// is for anything else.
pub open spec fn optional_volatile(document: Json) -> Option<Option<Map<Seq<char>, Json>>> {
    match document.member("volatile"@) {
        None => Some(None),
        Some(Json::Null) => Some(None),
        Some(Json::Object(fields)) => Some(Some(fields)),
        Some(_) => None,
    }
}

/// The response written in `document`, or the name of the first member that
/// is not as the format has it.
///
/// `requestId` is a text and `status` a status code; `error` is `null` or a
/// backend error; `controller`, `action`, `collection`, `index`, `room` and
/// `channel` are texts or `null`; `volatile` is an object or `null`;
/// `result` is any value, and must be there. A member that may be `null`
/// may also be missing. Other members are passed over.
pub open spec fn decoded_response(document: Json) -> Result<ResponseView, Seq<char>> {
    if required_text(document, "requestId"@) is None {
        Err("requestId"@)
    } else if required_status(document) is None {
        Err("status"@)
    } else if optional_error(document) is None {
        Err("error"@)
    } else if optional_text(document, "controller"@) is None {
        Err("controller"@)
    } else if optional_text(document, "action"@) is None {
        Err("action"@)
    } else if optional_text(document, "collection"@) is None {
        Err("collection"@)
    } else if optional_text(document, "index"@) is None {
        Err("index"@)
    } else if optional_volatile(document) is None {
        Err("volatile"@)
    } else if document.member("result"@) is None {
        Err("result"@)
    } else if optional_text(document, "room"@) is None {
        Err("room"@)
    } else if optional_text(document, "channel"@) is None {
        Err("channel"@)
    } else {
        Ok(
            ResponseView {
                request_id: required_text(document, "requestId"@)->0,
                status: required_status(document)->0,
                error: optional_error(document)->0,
                controller: optional_text(document, "controller"@)->0,
                action: optional_text(document, "action"@)->0,
                collection: optional_text(document, "collection"@)->0,
                index: optional_text(document, "index"@)->0,
                volatile: optional_volatile(document)->0,
                result: document.member("result"@)->0,
                room_id: optional_text(document, "room"@)->0,
                channel: optional_text(document, "channel"@)->0,
            },
        )
    }
}

/// What reading `document` as a response gives.
pub open spec fn reading_of(document: Json, r: Result<KuzzleResponse, ProtocolError>) -> bool {
    match decoded_response(document) {
        Ok(response) => r is Ok && r->Ok_0@ == response,
        Err(name) => r is Err && r->Err_0@ == (ProtocolErrorView::MalformedReply { message: name }),
    }
}

/// A response read from a document holds what the document holds: its
/// status is the document's, its result the document's, and it has an error
/// exactly where the document's `error` is there and not `null`.
pub proof fn lemma_response_keeps_document(document: Json)
    requires
        decoded_response(document) is Ok,
    ensures
        document.member("status"@) == Some(Json::Integer(decoded_response(document)->Ok_0.status as int)),
        document.member("result"@) == Some(decoded_response(document)->Ok_0.result),
        decoded_response(document)->Ok_0.error is None <==> (document.member("error"@) is None
            || document.member("error"@) == Some(Json::Null)),
        decoded_response(document)->Ok_0.error is Some ==> decoded_error(
            document.member("error"@)->0,
        ) == decoded_response(document)->Ok_0.error,
{
}

fn read_text(document: &Value, key: &str) -> (r: Option<String>)
    ensures
        text_of(r) == required_text(json_of(*document), key@),
{
    match member(document, key) {
        Some(value) => match value.as_str() {
            Some(text) => Some(text.to_owned()),
            None => None,
        },
        None => None,
    }
}

fn read_optional_text(document: &Value, key: &str) -> (r: Option<Option<String>>)
    ensures
        match optional_text(json_of(*document), key@) {
            Some(text) => r is Some && text_of(r->0) == text,
            None => r is None,
        },
{
    match member(document, key) {
        None => Some(None),
        Some(value) => if value.is_null() {
            Some(None)
        } else {
            match value.as_str() {
                Some(text) => Some(Some(text.to_owned())),
                None => None,
            }
        },
    }
}

fn read_status_code(value: &Value) -> (r: Option<u16>)
    ensures
        r == status_of(json_of(*value)),
{
    match value.as_u64() {
        Some(n) => if n <= 65535 {
            Some(n as u16)
        } else {
            None
        },
        None => None,
    }
}

fn read_error(document: &Value) -> (r: Option<KuzzleError>)
    ensures
        error_of(r) == decoded_error(json_of(*document)),
{
    let status = match member(document, "status") {
        None => None,
        Some(value) => if value.is_null() {
            None
        } else {
            match read_status_code(value) {
                Some(code) => Some(code),
                None => {
                    return None;
                },
            }
        },
    };
    let message = match read_text(document, "message") {
        Some(text) => text,
        None => {
            return None;
        },
    };
    let stack = match read_optional_text(document, "stack") {
        Some(text) => text,
        None => {
            return None;
        },
    };
    Some(KuzzleError::with_stack(status, message, stack))
}

fn malformed(name: &str) -> (r: ProtocolError)
    ensures
        r@ == (ProtocolErrorView::MalformedReply { message: name@ }),
{
    ProtocolError::MalformedReply { message: name.to_owned() }
}

impl KuzzleResponse {
    /// Reads a response from a JSON document.
    pub fn from_value(document: &Value) -> (r: Result<KuzzleResponse, ProtocolError>)
        ensures
            reading_of(json_of(*document), r),
    {
        let request_id = match read_text(document, "requestId") {
            Some(text) => text,
            None => {
                return Err(malformed("requestId"));
            },
        };
        let status = match member(document, "status") {
            Some(value) => match read_status_code(value) {
                Some(code) => code,
                None => {
                    return Err(malformed("status"));
                },
            },
            None => {
                return Err(malformed("status"));
            },
        };
        let error = match member(document, "error") {
            None => None,
            Some(value) => if value.is_null() {
                None
            } else {
                match read_error(value) {
                    Some(e) => Some(e),
                    None => {
                        return Err(malformed("error"));
                    },
                }
            },
        };
        let controller = match read_optional_text(document, "controller") {
            Some(text) => text,
            None => {
                return Err(malformed("controller"));
            },
        };
        let action = match read_optional_text(document, "action") {
            Some(text) => text,
            None => {
                return Err(malformed("action"));
            },
        };
        let collection = match read_optional_text(document, "collection") {
            Some(text) => text,
            None => {
                return Err(malformed("collection"));
            },
        };
        let index = match read_optional_text(document, "index") {
            Some(text) => text,
            None => {
                return Err(malformed("index"));
            },
        };
        let volatile = match member(document, "volatile") {
            None => None,
            Some(value) => if value.is_null() {
                None
            } else {
                match value.as_object() {
                    Some(object) => match Payload::from_entries(entries(object)) {
                        Some(data) => Some(data),
                        None => {
                            return Err(malformed("volatile"));
                        },
                    },
                    None => {
                        return Err(malformed("volatile"));
                    },
                }
            },
        };
        let result = match member(document, "result") {
            Some(value) => value.clone(),
            None => {
                return Err(malformed("result"));
            },
        };
        let room_id = match read_optional_text(document, "room") {
            Some(text) => text,
            None => {
                return Err(malformed("room"));
            },
        };
        let channel = match read_optional_text(document, "channel") {
            Some(text) => text,
            None => {
                return Err(malformed("channel"));
            },
        };
        Ok(
            KuzzleResponse {
                request_id,
                status,
                error,
                controller,
                action,
                collection,
                index,
                volatile,
                result,
                room_id,
                channel,
            },
        )
    }

    /// Reads a response from the text of a reply. A text that is not JSON
    /// is refused with the parser's message; a JSON document is read as
    /// [`KuzzleResponse::from_value`] reads it.
    pub fn from_json(text: &str) -> (r: Result<KuzzleResponse, ProtocolError>)
        ensures
            match parsed(text@) {
                Some(document) => reading_of(document, r),
                None => r is Err && r->Err_0 is MalformedReply,
            },
    {
        match parse(text) {
            Ok(document) => KuzzleResponse::from_value(&document),
            Err(e) => Err(ProtocolError::MalformedReply { message: error_message(&e) }),
        }
    }

    /// What the call came to: the error of the backend where the response
    /// holds one, the result otherwise.
    pub fn into_outcome(self) -> (r: Result<Value, KuzzleError>)
        ensures
            match self@.error {
                Some(error) => r is Err && r->Err_0@ == error,
                None => r is Ok && json_of(r->Ok_0) == self@.result,
            },
    {
        match self.error {
            Some(error) => Err(error),
            None => Ok(self.result),
        }
    }

    pub fn request_id(&self) -> (r: &String)
        ensures
            r@ == self@.request_id,
    {
        &self.request_id
    }

    pub fn status(&self) -> (r: &u16)
        ensures
            *r == self@.status,
    {
        &self.status
    }

    pub fn error(&self) -> (r: &Option<KuzzleError>)
        ensures
            error_of(*r) == self@.error,
    {
        &self.error
    }

    pub fn controller(&self) -> (r: &Option<String>)
        ensures
            text_of(*r) == self@.controller,
    {
        &self.controller
    }

    pub fn action(&self) -> (r: &Option<String>)
        ensures
            text_of(*r) == self@.action,
    {
        &self.action
    }

    pub fn index(&self) -> (r: &Option<String>)
        ensures
            text_of(*r) == self@.index,
    {
        &self.index
    }

    pub fn collection(&self) -> (r: &Option<String>)
        ensures
            text_of(*r) == self@.collection,
    {
        &self.collection
    }

    pub fn result(&self) -> (r: &Value)
        ensures
            json_of(*r) == self@.result,
    {
        &self.result
    }

    pub fn volatile(&self) -> (r: &Option<Payload>)
        ensures
            volatile_of(*r) == self@.volatile,
    {
        &self.volatile
    }

    pub fn room_id(&self) -> (r: &Option<String>)
        ensures
            text_of(*r) == self@.room_id,
    {
        &self.room_id
    }

    pub fn channel(&self) -> (r: &Option<String>)
        ensures
            text_of(*r) == self@.channel,
    {
        &self.channel
    }
}

} // verus!
