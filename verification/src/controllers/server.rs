//! The actions on the server itself.
use crate::controllers::reply::{
    agrees, agrees_on_object, flag_at, number_at, object, outcome, read_flag_at, read_number_at,
    read_object, refusal, reply_view, unexpected,
};
use crate::json::{integer_value, Json};
use crate::kuzzle::Kuzzle;
use crate::protocols::Protocol;
use crate::text::{count_digits, digit_count};
use crate::types::{
    KuzzleRequest, KuzzleResponse, ProtocolError, QueryError, QueryOptions, RequestView,
    SdkError,
};
use serde_json::Value;
use vstd::prelude::*;

verus! {

/// The actions on the server itself, through one client.
pub struct ServerController<'a, P: Protocol>(pub &'a Kuzzle<P>);

/// A time in milliseconds since the Epoch, as the statistics take it: a
/// number of thirteen digits that is not negative.
pub open spec fn is_timestamp(time: i64) -> bool {
    time >= 0 && digit_count(time as nat) == 13
}

/// The message of the error for a time that is no timestamp.
pub open spec fn bad_timestamp() -> Seq<char> {
    "`form` and `to` arguments need to be millis Epoch timestamps (13 digits)."@
}

/// The request for the statistics from `from` to `to`.
pub open spec fn stats_request(from: i64, to: i64) -> RequestView {
    RequestView::bare("server"@, "getStats"@).with_query_string(
        "startTime"@,
        Json::Integer(from as int),
    ).with_query_string("stopTime"@, Json::Integer(to as int))
}

/// Tells whether `time` is a time in milliseconds since the Epoch, written
/// with thirteen digits.
pub fn check_timestamp(time: i64) -> (r: bool)
    ensures
        r == is_timestamp(time),
{
    time >= 0 && count_digits(time as u64) == 13
}

impl<'a, P: Protocol> ServerController<'a, P> {
    /// Tells whether the server has an administrator.
    ///
    /// The request `server`/`adminExists` is sent, and the boolean under
    /// `exists` in the result of the response is given back.
    pub fn admin_exists(&self) -> (r: Result<bool, QueryError>)
        ensures
            exists|reply: Result<KuzzleResponse, ProtocolError>|
                #[trigger] self.0.answers(RequestView::bare("server"@, "adminExists"@), reply)
                    && agrees(
                    r,
                    outcome(
                        reply_view(reply),
                        |result: Json| read_flag_at(result, "exists"@),
                        "ServerController::admin_exists"@,
                        unexpected(),
                    ),
                ),
    {
        let req = KuzzleRequest::new("server", "adminExists");
        let reply = self.kuzzle().query(req, QueryOptions::new());
        flag_at(reply, "exists", "ServerController::admin_exists")
    }

    /// Gives all the statistics that the server holds.
    ///
    /// The request `server`/`getAllStats` is sent, and the result of the
    /// response, an object, is given back.
    pub fn get_all_stats(&self) -> (r: Result<serde_json::Map<String, Value>, QueryError>)
        ensures
            exists|reply: Result<KuzzleResponse, ProtocolError>|
                #[trigger] self.0.answers(RequestView::bare("server"@, "getAllStats"@), reply)
                    && agrees_on_object(
                    r,
                    outcome(
                        reply_view(reply),
                        |result: Json| read_object(result),
                        "ServerController::get_all_stats"@,
                        unexpected(),
                    ),
                ),
    {
        let req = KuzzleRequest::new("server", "getAllStats");
        let reply = self.kuzzle().query(req, QueryOptions::new());
        object(reply, "ServerController::get_all_stats")
    }

    /// Gives the configuration of the server.
    ///
    /// The request `server`/`getConfig` is sent, and the result of the
    /// response, an object, is given back.
    pub fn get_config(&self) -> (r: Result<serde_json::Map<String, Value>, QueryError>)
        ensures
            exists|reply: Result<KuzzleResponse, ProtocolError>|
                #[trigger] self.0.answers(RequestView::bare("server"@, "getConfig"@), reply)
                    && agrees_on_object(
                    r,
                    outcome(
                        reply_view(reply),
                        |result: Json| read_object(result),
                        "ServerController::get_config"@,
                        unexpected(),
                    ),
                ),
    {
        let req = KuzzleRequest::new("server", "getConfig");
        let reply = self.kuzzle().query(req, QueryOptions::new());
        object(reply, "ServerController::get_config")
    }

    /// Gives the last statistics that the server took.
    ///
    /// The request `server`/`getLastStats` is sent, and the result of the
    /// response, an object, is given back.
    pub fn get_last_stats(&self) -> (r: Result<serde_json::Map<String, Value>, QueryError>)
        ensures
            exists|reply: Result<KuzzleResponse, ProtocolError>|
                #[trigger] self.0.answers(RequestView::bare("server"@, "getLastStats"@), reply)
                    && agrees_on_object(
                    r,
                    outcome(
                        reply_view(reply),
                        |result: Json| read_object(result),
                        "ServerController::get_last_stats"@,
                        unexpected(),
                    ),
                ),
    {
        let req = KuzzleRequest::new("server", "getLastStats");
        let reply = self.kuzzle().query(req, QueryOptions::new());
        object(reply, "ServerController::get_last_stats")
    }

    /// Gives the statistics that the server took from `from` to `to`, two
    /// times in milliseconds since the Epoch.
    ///
    /// A time that is not written with thirteen digits, or is negative, is
    /// refused and nothing is sent. Otherwise the request
    /// `server`/`getStats` is sent with the two times as the query strings
    /// `startTime` and `stopTime`, and the result of the response, an
    /// object, is given back.
    pub fn get_stats(&self, from: i64, to: i64) -> (r: Result<
        serde_json::Map<String, Value>,
        QueryError,
    >)
        ensures
            !(is_timestamp(from) && is_timestamp(to)) ==> agrees_on_object(
                r,
                Err(refusal("ServerController::get_stats"@, bad_timestamp())),
            ),
            is_timestamp(from) && is_timestamp(to) ==> exists|
                reply: Result<KuzzleResponse, ProtocolError>,
            |
                #[trigger] self.0.answers(stats_request(from, to), reply) && agrees_on_object(
                    r,
                    outcome(
                        reply_view(reply),
                        |result: Json| read_object(result),
                        "ServerController::get_stats"@,
                        unexpected(),
                    ),
                ),
    {
        if !check_timestamp(from) || !check_timestamp(to) {
            return Err(
                QueryError::Sdk(
                    SdkError::new(
                        "ServerController::get_stats",
                        "`form` and `to` arguments need to be millis Epoch timestamps (13 digits).",
                    ),
                ),
            );
        }
        let req = KuzzleRequest::new("server", "getStats").add_to_query_strings(
            "startTime".to_owned(),
            integer_value(from),
        ).add_to_query_strings("stopTime".to_owned(), integer_value(to));
        let reply = self.kuzzle().query(req, QueryOptions::new());
        object(reply, "ServerController::get_stats")
    }

    /// Gives what the server tells of itself.
    ///
    /// The request `server`/`info` is sent, and the result of the response,
    /// an object, is given back.
    pub fn info(&self) -> (r: Result<serde_json::Map<String, Value>, QueryError>)
        ensures
            exists|reply: Result<KuzzleResponse, ProtocolError>|
                #[trigger] self.0.answers(RequestView::bare("server"@, "info"@), reply)
                    && agrees_on_object(
                    r,
                    outcome(
                        reply_view(reply),
                        |result: Json| read_object(result),
                        "ServerController::info"@,
                        unexpected(),
                    ),
                ),
    {
        let req = KuzzleRequest::new("server", "info");
        let reply = self.kuzzle().query(req, QueryOptions::new());
        object(reply, "ServerController::info")
    }

    /// Gives the time of the server, in milliseconds since the Epoch.
    ///
    /// The request `server`/`now` is sent, and the number under `now` in
    /// the result of the response is given back.
    pub fn now(&self) -> (r: Result<u64, QueryError>)
        ensures
            exists|reply: Result<KuzzleResponse, ProtocolError>|
                #[trigger] self.0.answers(RequestView::bare("server"@, "now"@), reply) && agrees(
                    r,
                    outcome(
                        reply_view(reply),
                        |result: Json| read_number_at(result, "now"@),
                        "ServerController::now"@,
                        unexpected(),
                    ),
                ),
    {
        let req = KuzzleRequest::new("server", "now");
        let reply = self.kuzzle().query(req, QueryOptions::new());
        number_at(reply, "now", "ServerController::now")
    }

    fn kuzzle(&self) -> (r: &'a Kuzzle<P>)
        ensures
            r == self.0,
    {
        self.0
    }
}

} // verus!
