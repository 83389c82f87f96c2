//! The actions on indexes.
use crate::controllers::reply::{
    acknowledged, agrees, agrees_on_names, flag, names_at, outcome, read_flag, read_names_at,
    read_nothing, refusal, reply_view, unexpected,
};
use crate::json::{bool_value, text_array, texts, Json};
use crate::kuzzle::Kuzzle;
use crate::protocols::Protocol;
use crate::types::{
    KuzzleRequest, KuzzleResponse, ProtocolError, QueryError, QueryOptions, RequestView,
    SdkError,
};
use vstd::prelude::*;

verus! {

/// The actions on indexes, through one client.
pub struct IndexController<'a, P: Protocol>(pub &'a Kuzzle<P>);

/// The message of the error for an index without a name.
pub open spec fn empty_index() -> Seq<char> {
    "index argument must not be empty."@
}

/// The message of the error for an empty list of indexes.
pub open spec fn empty_indexes() -> Seq<char> {
    "indexes argument must not be empty."@
}

/// The request for `action` of the controller `index`, about `index`.
pub open spec fn index_request(action: Seq<char>, index: Seq<char>) -> RequestView {
    RequestView::bare("index"@, action).with_index(index)
}

impl<'a, P: Protocol> IndexController<'a, P> {
    /// Creates the index `index`.
    ///
    /// An empty name is refused and nothing is sent. Otherwise the request
    /// `index`/`create` about `index` is sent, and the call succeeds where
    /// the response holds no error.
    pub fn create(&self, index: &str) -> (r: Result<(), QueryError>)
        ensures
            index@.len() == 0 ==> agrees(
                r,
                Err(refusal("IndexController::create"@, empty_index())),
            ),
            index@.len() > 0 ==> exists|reply: Result<KuzzleResponse, ProtocolError>|
                #[trigger] self.0.answers(index_request("create"@, index@), reply) && agrees(
                    r,
                    outcome(
                        reply_view(reply),
                        |result: Json| read_nothing(result),
                        "IndexController::create"@,
                        unexpected(),
                    ),
                ),
    {
        if index.is_empty() {
            return Err(
                QueryError::Sdk(
                    SdkError::new("IndexController::create", "index argument must not be empty."),
                ),
            );
        }
        let req = KuzzleRequest::new("index", "create").set_index(index);
        let reply = self.kuzzle().query(req, QueryOptions::new());
        acknowledged(reply, "IndexController::create")
    }

    /// Deletes the index `index`.
    ///
    /// An empty name is refused and nothing is sent. Otherwise the request
    /// `index`/`delete` about `index` is sent, and the call succeeds where
    /// the response holds no error.
    pub fn delete(&self, index: &str) -> (r: Result<(), QueryError>)
        ensures
            index@.len() == 0 ==> agrees(
                r,
                Err(refusal("IndexController::delete"@, empty_index())),
            ),
            index@.len() > 0 ==> exists|reply: Result<KuzzleResponse, ProtocolError>|
                #[trigger] self.0.answers(index_request("delete"@, index@), reply) && agrees(
                    r,
                    outcome(
                        reply_view(reply),
                        |result: Json| read_nothing(result),
                        "IndexController::delete"@,
                        unexpected(),
                    ),
                ),
    {
        if index.is_empty() {
            return Err(
                QueryError::Sdk(
                    SdkError::new("IndexController::delete", "index argument must not be empty."),
                ),
            );
        }
        let req = KuzzleRequest::new("index", "delete").set_index(index);
        let reply = self.kuzzle().query(req, QueryOptions::new());
        acknowledged(reply, "IndexController::delete")
    }

    /// Tells whether the index `index` exists.
    ///
    /// An empty name is refused and nothing is sent. Otherwise the request
    /// `index`/`exists` about `index` is sent, and the result of the
    /// response, a boolean, is given back.
    pub fn index_exists(&self, index: &str) -> (r: Result<bool, QueryError>)
        ensures
            index@.len() == 0 ==> agrees(
                r,
                Err(refusal("IndexController::exists"@, empty_index())),
            ),
            index@.len() > 0 ==> exists|reply: Result<KuzzleResponse, ProtocolError>|
                #[trigger] self.0.answers(index_request("exists"@, index@), reply) && agrees(
                    r,
                    outcome(
                        reply_view(reply),
                        |result: Json| read_flag(result),
                        "IndexController::exists"@,
                        unexpected(),
                    ),
                ),
    {
        if index.is_empty() {
            return Err(
                QueryError::Sdk(
                    SdkError::new("IndexController::exists", "index argument must not be empty."),
                ),
            );
        }
        let req = KuzzleRequest::new("index", "exists").set_index(index);
        let reply = self.kuzzle().query(req, QueryOptions::new());
        flag(reply, "IndexController::exists")
    }

    /// Tells whether the index `index` is refreshed after each write.
    ///
    /// An empty name is refused and nothing is sent. Otherwise the request
    /// `index`/`getAutoRefresh` about `index` is sent, and the result of
    /// the response, a boolean, is given back.
    pub fn get_auto_refresh(&self, index: &str) -> (r: Result<bool, QueryError>)
        ensures
            index@.len() == 0 ==> agrees(
                r,
                Err(refusal("IndexController::get_auto_refresh"@, empty_index())),
            ),
            index@.len() > 0 ==> exists|reply: Result<KuzzleResponse, ProtocolError>|
                #[trigger] self.0.answers(index_request("getAutoRefresh"@, index@), reply)
                    && agrees(
                    r,
                    outcome(
                        reply_view(reply),
                        |result: Json| read_flag(result),
                        "IndexController::get_auto_refresh"@,
                        unexpected(),
                    ),
                ),
    {
        if index.is_empty() {
            return Err(
                QueryError::Sdk(
                    SdkError::new(
                        "IndexController::get_auto_refresh",
                        "index argument must not be empty.",
                    ),
                ),
            );
        }
        let req = KuzzleRequest::new("index", "getAutoRefresh").set_index(index);
        let reply = self.kuzzle().query(req, QueryOptions::new());
        flag(reply, "IndexController::get_auto_refresh")
    }

    /// Lists the indexes of the server.
    ///
    /// The request `index`/`list` is sent, and the names under `indexes` in
    /// the result of the response are given back, in their order.
    pub fn list(&self) -> (r: Result<Vec<String>, QueryError>)
        ensures
            exists|reply: Result<KuzzleResponse, ProtocolError>|
                #[trigger] self.0.answers(RequestView::bare("index"@, "list"@), reply)
                    && agrees_on_names(
                    r,
                    outcome(
                        reply_view(reply),
                        |result: Json| read_names_at(result, "indexes"@),
                        "IndexController::list"@,
                        unexpected(),
                    ),
                ),
    {
        let req = KuzzleRequest::new("index", "list");
        let reply = self.kuzzle().query(req, QueryOptions::new());
        names_at(reply, "indexes", "IndexController::list")
    }

    /// Deletes the indexes `indexes`.
    ///
    /// An empty list is refused and nothing is sent. Otherwise the request
    /// `index`/`mDelete` is sent with the names under `indexes` in its
    /// body, and the names under `deleted` in the result of the response
    /// are given back, in their order.
    pub fn mdelete(&self, indexes: Vec<String>) -> (r: Result<Vec<String>, QueryError>)
        ensures
            indexes@.len() == 0 ==> agrees_on_names(
                r,
                Err(refusal("IndexController::mDelete"@, empty_indexes())),
            ),
            indexes@.len() > 0 ==> exists|reply: Result<KuzzleResponse, ProtocolError>|
                #[trigger] self.0.answers(
                    RequestView::bare("index"@, "mDelete"@).with_body(
                        "indexes"@,
                        Json::Array(texts(indexes@)),
                    ),
                    reply,
                ) && agrees_on_names(
                    r,
                    outcome(
                        reply_view(reply),
                        |result: Json| read_names_at(result, "deleted"@),
                        "IndexController::mDelete"@,
                        unexpected(),
                    ),
                ),
    {
        if indexes.is_empty() {
            return Err(
                QueryError::Sdk(
                    SdkError::new(
                        "IndexController::mDelete",
                        "indexes argument must not be empty.",
                    ),
                ),
            );
        }
        let req = KuzzleRequest::new("index", "mDelete").add_to_body(
            "indexes".to_owned(),
            text_array(indexes),
        );
        let reply = self.kuzzle().query(req, QueryOptions::new());
        names_at(reply, "deleted", "IndexController::mDelete")
    }

    /// Makes the last changes of the index `index` visible to searches.
    ///
    /// An empty name is refused and nothing is sent. Otherwise the request
    /// `index`/`refresh` about `index` is sent, and the call succeeds where
    /// the response holds no error.
    pub fn refresh(&self, index: &str) -> (r: Result<(), QueryError>)
        ensures
            index@.len() == 0 ==> agrees(
                r,
                Err(refusal("IndexController::refresh"@, empty_index())),
            ),
            index@.len() > 0 ==> exists|reply: Result<KuzzleResponse, ProtocolError>|
                #[trigger] self.0.answers(index_request("refresh"@, index@), reply) && agrees(
                    r,
                    outcome(
                        reply_view(reply),
                        |result: Json| read_nothing(result),
                        "IndexController::refresh"@,
                        unexpected(),
                    ),
                ),
    {
        if index.is_empty() {
            return Err(
                QueryError::Sdk(
                    SdkError::new("IndexController::refresh", "index argument must not be empty."),
                ),
            );
        }
        let req = KuzzleRequest::new("index", "refresh").set_index(index);
        let reply = self.kuzzle().query(req, QueryOptions::new());
        acknowledged(reply, "IndexController::refresh")
    }

    /// Makes the last changes of the server's own index visible.
    ///
    /// The request `index`/`refreshInternal` is sent, and the call succeeds
    /// where the response holds no error.
    pub fn refresh_internal(&self) -> (r: Result<(), QueryError>)
        ensures
            exists|reply: Result<KuzzleResponse, ProtocolError>|
                #[trigger] self.0.answers(RequestView::bare("index"@, "refreshInternal"@), reply)
                    && agrees(
                    r,
                    outcome(
                        reply_view(reply),
                        |result: Json| read_nothing(result),
                        "IndexController::refresh_internal"@,
                        unexpected(),
                    ),
                ),
    {
        let req = KuzzleRequest::new("index", "refreshInternal");
        let reply = self.kuzzle().query(req, QueryOptions::new());
        acknowledged(reply, "IndexController::refresh_internal")
    }

    /// Sets whether the index `index` is refreshed after each write.
    ///
    /// An empty name is refused and nothing is sent. Otherwise the request
    /// `index`/`setAutoRefresh` about `index` is sent with `auto_refresh`
    /// under `autoRefresh` in its body, and the call succeeds where the
    /// response holds no error.
    pub fn set_auto_refresh(&self, index: &str, auto_refresh: bool) -> (r: Result<(), QueryError>)
        ensures
            index@.len() == 0 ==> agrees(
                r,
                Err(refusal("IndexController::set_auto_refresh"@, empty_index())),
            ),
            index@.len() > 0 ==> exists|reply: Result<KuzzleResponse, ProtocolError>|
                #[trigger] self.0.answers(
                    index_request("setAutoRefresh"@, index@).with_body(
                        "autoRefresh"@,
                        Json::Bool(auto_refresh),
                    ),
                    reply,
                ) && agrees(
                    r,
                    outcome(
                        reply_view(reply),
                        |result: Json| read_nothing(result),
                        "IndexController::set_auto_refresh"@,
                        unexpected(),
                    ),
                ),
    {
        if index.is_empty() {
            return Err(
                QueryError::Sdk(
                    SdkError::new(
                        "IndexController::set_auto_refresh",
                        "index argument must not be empty.",
                    ),
                ),
            );
        }
        let req = KuzzleRequest::new("index", "setAutoRefresh").set_index(index).add_to_body(
            "autoRefresh".to_owned(),
            bool_value(auto_refresh),
        );
        let reply = self.kuzzle().query(req, QueryOptions::new());
        acknowledged(reply, "IndexController::set_auto_refresh")
    }

    fn kuzzle(&self) -> (r: &'a Kuzzle<P>)
        ensures
            r == self.0,
    {
        self.0
    }
}

} // verus!
