//! The description of one call to the server.
use crate::json::{json_of, Json};
use crate::types::errors::text_of;
use crate::types::payload::Payload;
use serde_json::Value;
use vstd::prelude::*;

verus! {

/// A call to the server: the controller and action it addresses, the index
/// and collection it is about, its body and its query strings.
///
/// A request is built for one call and consumed by the transport that sends
/// it. The controller and the action are fixed when it is built; each setter
/// gives back the request with one field changed.
#[derive(Debug, PartialEq)]
pub struct KuzzleRequest {
    _controller: String,
    _action: String,
    _index: Option<String>,
    _collection: Option<String>,
    _body: Payload,
    _query_strings: Payload,
}

/// What a [`KuzzleRequest`] holds.
pub struct RequestView {
    pub controller: Seq<char>,
    pub action: Seq<char>,
    pub index: Option<Seq<char>>,
    pub collection: Option<Seq<char>>,
    pub body: Map<Seq<char>, Json>,
    pub query_strings: Map<Seq<char>, Json>,
}

impl RequestView {
    /// The request for `controller` and `action` that holds nothing else.
    pub open spec fn bare(controller: Seq<char>, action: Seq<char>) -> RequestView {
        RequestView {
            controller,
            action,
            index: None,
            collection: None,
            body: Map::empty(),
            query_strings: Map::empty(),
        }
    }

    pub open spec fn with_index(self, index: Seq<char>) -> RequestView {
        RequestView { index: Some(index), ..self }
    }

    pub open spec fn with_collection(self, collection: Seq<char>) -> RequestView {
        RequestView { collection: Some(collection), ..self }
    }

    pub open spec fn with_body(self, key: Seq<char>, value: Json) -> RequestView {
        RequestView { body: self.body.insert(key, value), ..self }
    }

    pub open spec fn with_query_string(self, key: Seq<char>, value: Json) -> RequestView {
        RequestView { query_strings: self.query_strings.insert(key, value), ..self }
    }
}

impl View for KuzzleRequest {
    type V = RequestView;

    closed spec fn view(&self) -> RequestView {
        RequestView {
            controller: self._controller@,
            action: self._action@,
            index: text_of(self._index),
            collection: text_of(self._collection),
            body: self._body@,
            query_strings: self._query_strings@,
        }
    }
}

impl KuzzleRequest {
    /// A request for `action` of `controller`, with no index, no collection,
    /// an empty body and no query strings.
    pub fn new(controller: &str, action: &str) -> (r: KuzzleRequest)
        ensures
            r@ == RequestView::bare(controller@, action@),
    {
        KuzzleRequest {
            _controller: controller.to_owned(),
            _action: action.to_owned(),
            _index: None,
            _collection: None,
            _body: Payload::new(),
            _query_strings: Payload::new(),
        }
    }

    pub fn controller(&self) -> (r: &String)
        ensures
            r@ == self@.controller,
    {
        &self._controller
    }

    pub fn action(&self) -> (r: &String)
        ensures
            r@ == self@.action,
    {
        &self._action
    }

    pub fn index(&self) -> (r: &Option<String>)
        ensures
            text_of(*r) == self@.index,
    {
        &self._index
    }

    pub fn collection(&self) -> (r: &Option<String>)
        ensures
            text_of(*r) == self@.collection,
    {
        &self._collection
    }

    pub fn body(&self) -> (r: &Payload)
        ensures
            r@ == self@.body,
    {
        &self._body
    }

    pub fn query_strings(&self) -> (r: &Payload)
        ensures
            r@ == self@.query_strings,
    {
        &self._query_strings
    }

    /// The request, about `index`.
    pub fn set_index(self, index: &str) -> (r: KuzzleRequest)
        ensures
            r@ == self@.with_index(index@),
    {
        let mut request = self;
        request._index = Some(index.to_owned());
        request
    }

    /// The request, about `collection`.
    pub fn set_collection(self, collection: &str) -> (r: KuzzleRequest)
        ensures
            r@ == self@.with_collection(collection@),
    {
        let mut request = self;
        request._collection = Some(collection.to_owned());
        request
    }

    /// The request, with `value` under `key` in its body.
    pub fn add_to_body(self, key: String, value: Value) -> (r: KuzzleRequest)
        ensures
            r@ == self@.with_body(key@, json_of(value)),
    {
        let KuzzleRequest { _controller, _action, _index, _collection, _body, _query_strings } =
            self;
        KuzzleRequest {
            _controller,
            _action,
            _index,
            _collection,
            _body: _body.insert(key, value),
            _query_strings,
        }
    }

    /// The request, with `value` under `key` among its query strings.
    pub fn add_to_query_strings(self, key: String, value: Value) -> (r: KuzzleRequest)
        ensures
            r@ == self@.with_query_string(key@, json_of(value)),
    {
        let KuzzleRequest { _controller, _action, _index, _collection, _body, _query_strings } =
            self;
        KuzzleRequest {
            _controller,
            _action,
            _index,
            _collection,
            _body,
            _query_strings: _query_strings.insert(key, value),
        }
    }

    /// The parts of the request, for the transport that sends it: the
    /// index, the collection, the body and the query strings.
    pub fn into_parts(self) -> (r: (Option<String>, Option<String>, Payload, Payload))
        ensures
            text_of(r.0) == self@.index,
            text_of(r.1) == self@.collection,
            r.2@ == self@.body,
            r.3@ == self@.query_strings,
    {
        (self._index, self._collection, self._body, self._query_strings)
    }
}

} // verus!
