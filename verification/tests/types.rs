use kuzzle_sdk::text::{count_digits, join, replace, to_decimal};
use kuzzle_sdk::types::{
    KuzzleError, KuzzleOptions, KuzzleRequest, KuzzleResponse, OfflineMode, Payload,
    ProtocolError, QueryError, QueryOptions, SdkError,
};
use serde_json::Value;
use std::time::Duration;

#[test]
fn decimal_writes_numbers_without_leading_zeros() {
    assert_eq!(to_decimal(0), "0");
    assert_eq!(to_decimal(7), "7");
    assert_eq!(to_decimal(7512), "7512");
    assert_eq!(to_decimal(1550439618398), "1550439618398");
    assert_eq!(to_decimal(u64::MAX), "18446744073709551615");
}

#[test]
fn digits_are_counted() {
    assert_eq!(count_digits(0), 1);
    assert_eq!(count_digits(9), 1);
    assert_eq!(count_digits(10), 2);
    assert_eq!(count_digits(999_999_999_999), 12);
    assert_eq!(count_digits(1_000_000_000_000), 13);
    assert_eq!(count_digits(9_999_999_999_999), 13);
    assert_eq!(count_digits(10_000_000_000_000), 14);
    assert_eq!(count_digits(u64::MAX), 20);
}

#[test]
fn replace_takes_every_occurrence_from_the_left() {
    assert_eq!(replace("/:index/_create", ":index", "ferris"), "/ferris/_create");
    assert_eq!(replace("/:index/:index", ":index", "a"), "/a/a");
    assert_eq!(replace("aaa", "aa", "b"), "ba");
    assert_eq!(replace("/_list", ":index", "a"), "/_list");
    assert_eq!(replace("", ":index", "a"), "");
    assert_eq!(replace(":index", ":index", ""), "");
    assert_eq!(replace("héllo :index wörld", ":index", "ü"), "héllo ü wörld");
}

#[test]
fn replace_of_nothing_changes_nothing() {
    assert_eq!(replace("abc", "", "x"), "abc");
}

#[test]
fn join_puts_two_texts_together() {
    assert_eq!(join("http://", "localhost"), "http://localhost");
    assert_eq!(join("", ""), "");
}

#[test]
fn kuzzle_error_keeps_what_it_was_given() {
    let error = KuzzleError::new(Some(404), "A custom not found error");
    assert_eq!(error.status(), Some(404));
    assert_eq!(error.message(), "A custom not found error");
    assert_eq!(error.stack(), &None);
    let error = KuzzleError::new(None, "A custom error without status code");
    assert_eq!(error.status(), None);
    assert_eq!(error.clone(), error);
}

#[test]
fn kuzzle_error_names_every_known_status() {
    let names = [
        (206, "PartialError"),
        (400, "BadRequestError"),
        (401, "UnauthorizedError"),
        (403, "ForbiddenError"),
        (404, "NotFoundError"),
        (412, "PreconditionError"),
        (413, "SizeLimitError"),
        (500, "InternalError"),
        (503, "ServiceUnavailableError"),
        (504, "GatewayTimeoutError"),
        (200, "CustomError"),
        (0, "CustomError"),
        (65535, "CustomError"),
    ];
    for (status, name) in names {
        assert_eq!(KuzzleError::new(Some(status), "m").description(), name);
    }
    assert_eq!(KuzzleError::new(None, "m").description(), "UnidentifiedError");
}

#[test]
fn kuzzle_error_without_stack_shows_status_name_and_message() {
    let error = KuzzleError::new(Some(404), "index not found");
    assert_eq!(error.to_string(), "[404] NotFoundError : index not found");
    let error = KuzzleError::new(Some(418), "teapot");
    assert_eq!(error.to_string(), "[418] CustomError : teapot");
}

#[test]
fn kuzzle_error_with_stack_shows_status_and_stack() {
    let error = KuzzleError::with_stack(
        Some(403),
        "Forbidden".to_string(),
        Some("ForbiddenError: Forbidden\n    at funnel".to_string()),
    );
    assert_eq!(error.to_string(), "[403] ForbiddenError: Forbidden\n    at funnel");
    assert_eq!(error.stack(), &Some("ForbiddenError: Forbidden\n    at funnel".to_string()));
}

#[test]
fn kuzzle_error_without_status_shows_null() {
    let error = KuzzleError::new(None, "who knows");
    assert_eq!(error.to_string(), "[null] UnidentifiedError : who knows");
}

#[test]
fn sdk_error_shows_cause_and_message() {
    let error = SdkError::new("FakeController", "A fake error");
    assert_eq!(error.cause(), "FakeController");
    assert_eq!(error.message(), "A fake error");
    assert_eq!(error.to_string(), format!("[{}] {}", error.cause(), error.message()));
    assert_eq!(error.to_string(), "[FakeController] A fake error");
    assert_eq!(error.clone(), error);
}

#[test]
fn protocol_errors_show_their_kind() {
    let unknown = ProtocolError::UnknownRoute {
        controller: "index".to_string(),
        action: "fly".to_string(),
    };
    assert_eq!(unknown.to_string(), "[UnknownRoute] index:fly");
    let network = ProtocolError::Network { message: "down".to_string() };
    assert_eq!(network.to_string(), "[Network] down");
    assert_ne!(unknown, network);
    assert_eq!(
        ProtocolError::InvalidUrl { url: "x".to_string() }.to_string(),
        "[InvalidUrl] x"
    );
    assert_eq!(
        ProtocolError::InvalidVerb { verb: "G T".to_string() }.to_string(),
        "[InvalidVerb] G T"
    );
    assert_eq!(
        ProtocolError::MalformedReply { message: "status".to_string() }.to_string(),
        "[MalformedReply] status"
    );
    assert_eq!(
        ProtocolError::Unsupported { operation: "connect".to_string() }.to_string(),
        "[Unsupported] connect"
    );
    assert_eq!(
        ProtocolError::InvalidRoutes { message: "no".to_string() }.to_string(),
        "[InvalidRoutes] no"
    );
}

#[test]
fn query_error_shows_the_error_it_holds() {
    let sdk = QueryError::Sdk(SdkError::new("c", "m"));
    assert_eq!(sdk.to_string(), "[c] m");
    let backend = QueryError::Kuzzle(KuzzleError::new(Some(500), "boom"));
    assert_eq!(backend.to_string(), "[500] InternalError : boom");
    let transport = QueryError::Protocol(ProtocolError::Network { message: "down".to_string() });
    assert_eq!(transport.to_string(), "[Network] down");
}

#[test]
fn options_start_from_the_standard_ones() {
    let options = KuzzleOptions::new("localhost", 7512);
    assert_eq!(options.auto_queue(), &false);
    assert_eq!(options.auto_reconnect(), &true);
    assert_eq!(options.auto_replay(), &false);
    assert_eq!(options.auto_resubscribe(), &true);
    assert_eq!(options.host(), "localhost");
    assert_eq!(options.port(), &7512);
    assert_eq!(options.offline_mode(), &OfflineMode::Manual);
    assert_eq!(options.queue_max_size(), &500);
    assert_eq!(options.queue_ttl(), &Duration::from_millis(120000));
    assert_eq!(options.reconnection_delay(), &Duration::from_millis(1000));
    assert_eq!(options.replay_interval(), &Duration::from_millis(10));
    assert_eq!(options.ssl_connection(), &false);
}

#[test]
fn default_options_are_those_of_localhost() {
    let options = KuzzleOptions::default();
    assert_eq!(options.host(), "localhost");
    assert_eq!(options.port(), &7512);
    assert_eq!(options.queue_max_size(), &500);
    assert_eq!(options.queue_ttl(), &Duration::from_millis(120000));
}

#[test]
fn each_setter_changes_its_option_and_no_other() {
    let options = KuzzleOptions::new("kuzzle", 80)
        .set_ssl_connection(true)
        .set_auto_queue(true)
        .set_queue_ttl(1000);
    assert_eq!(options.ssl_connection(), &true);
    assert_eq!(options.auto_queue(), &true);
    assert_eq!(options.queue_ttl(), &Duration::from_millis(1000));
    assert_eq!(options.host(), "kuzzle");
    assert_eq!(options.port(), &80);
    assert_eq!(options.auto_reconnect(), &true);
    assert_eq!(options.reconnection_delay(), &Duration::from_millis(1000));

    let options = options
        .set_auto_reconnect(false)
        .set_auto_replay(true)
        .set_auto_resubscribe(false)
        .set_offline_mode(OfflineMode::Auto)
        .set_host("other")
        .set_port(7513)
        .set_queue_max_size(3)
        .set_reconnection_delay(5)
        .set_replay_interval(7);
    assert_eq!(options.auto_reconnect(), &false);
    assert_eq!(options.auto_replay(), &true);
    assert_eq!(options.auto_resubscribe(), &false);
    assert_eq!(options.offline_mode(), &OfflineMode::Auto);
    assert_eq!(options.host(), "other");
    assert_eq!(options.port(), &7513);
    assert_eq!(options.queue_max_size(), &3);
    assert_eq!(options.reconnection_delay(), &Duration::from_millis(5));
    assert_eq!(options.replay_interval(), &Duration::from_millis(7));
    assert_eq!(options.queue_ttl(), &Duration::from_millis(1000));
    assert_eq!(options.ssl_connection(), &true);
    assert_eq!(options.auto_queue(), &true);
}

#[test]
fn query_options_are_queuable() {
    assert!(QueryOptions::new().queuable());
}

#[test]
fn payload_holds_each_key_once() {
    let payload = Payload::new();
    assert!(payload.is_empty());
    assert_eq!(payload.get("a"), None);
    let payload = payload
        .insert("a".to_string(), Value::from(1))
        .insert("b".to_string(), Value::from("two"))
        .insert("a".to_string(), Value::from(3));
    assert!(!payload.is_empty());
    assert_eq!(payload.entries().len(), 2);
    assert_eq!(payload.get("a"), Some(&Value::from(3)));
    assert_eq!(payload.get("b"), Some(&Value::from("two")));
    assert_eq!(payload.get("c"), None);
}

#[test]
fn payload_refuses_entries_with_a_key_twice() {
    let entries = vec![
        ("a".to_string(), Value::Null),
        ("b".to_string(), Value::Null),
        ("a".to_string(), Value::Null),
    ];
    assert_eq!(Payload::from_entries(entries), None);
    let entries = vec![("a".to_string(), Value::Null), ("b".to_string(), Value::Bool(true))];
    let payload = Payload::from_entries(entries).unwrap();
    assert_eq!(payload.get("b"), Some(&Value::Bool(true)));
    assert_eq!(Payload::from_entries(vec![]), Some(Payload::new()));
}

#[test]
fn request_is_built_step_by_step() {
    let request = KuzzleRequest::new("index", "create");
    assert_eq!(request.controller(), "index");
    assert_eq!(request.action(), "create");
    assert_eq!(request.index(), &None);
    assert_eq!(request.collection(), &None);
    assert!(request.body().is_empty());
    assert!(request.query_strings().is_empty());

    let request = request
        .set_index("ferris_index")
        .set_collection("crabs")
        .add_to_body("autoRefresh".to_string(), Value::Bool(true))
        .add_to_query_strings("startTime".to_string(), Value::from(1550439618398i64));
    assert_eq!(request.controller(), "index");
    assert_eq!(request.action(), "create");
    assert_eq!(request.index(), &Some("ferris_index".to_string()));
    assert_eq!(request.collection(), &Some("crabs".to_string()));
    assert_eq!(request.body().get("autoRefresh"), Some(&Value::Bool(true)));
    assert_eq!(request.body().entries().len(), 1);
    assert_eq!(
        request.query_strings().get("startTime"),
        Some(&Value::from(1550439618398i64))
    );
}

#[test]
fn response_holds_what_the_reply_holds() {
    let response = KuzzleResponse::from_json(
        r#"{
            "requestId": "da9040aa-9529-4fb9-b627-a38736321364",
            "status": 200,
            "error": null,
            "controller": "index",
            "action": "create",
            "collection": null,
            "index": "ferris_index",
            "volatile": { "sdk": "rust", "n": 1 },
            "result": { "acknowledged": true, "shards_acknowledged": true },
            "room": "r1",
            "channel": "c1",
            "more": [1, 2, 3]
        }"#,
    )
    .unwrap();
    assert_eq!(response.request_id(), "da9040aa-9529-4fb9-b627-a38736321364");
    assert_eq!(response.status(), &200);
    assert_eq!(response.error(), &None);
    assert_eq!(response.controller(), &Some("index".to_string()));
    assert_eq!(response.action(), &Some("create".to_string()));
    assert_eq!(response.collection(), &None);
    assert_eq!(response.index(), &Some("ferris_index".to_string()));
    assert_eq!(response.room_id(), &Some("r1".to_string()));
    assert_eq!(response.channel(), &Some("c1".to_string()));
    assert_eq!(response.result().get("acknowledged"), Some(&Value::Bool(true)));
    assert_eq!(response.result().as_object().unwrap().len(), 2);
    let volatile = response.volatile().as_ref().unwrap();
    assert_eq!(volatile.entries().len(), 2);
    assert_eq!(volatile.get("sdk"), Some(&Value::from("rust")));
    assert_eq!(volatile.get("n"), Some(&Value::from(1)));
}

#[test]
fn response_with_an_error_holds_the_error() {
    let response = KuzzleResponse::from_json(
        r#"{
            "requestId": "c6fd04c1-45d0-48ef-9eed-ef95c4a97422",
            "status": 400,
            "error": {
                "message": "index [ferris_index] already exists",
                "status": 400,
                "stack": "BadRequestError: index [ferris_index] already exists\n"
            },
            "result": null
        }"#,
    )
    .unwrap();
    assert_eq!(response.status(), &400);
    let error = response.error().as_ref().unwrap();
    assert_eq!(error.status(), Some(400));
    assert_eq!(error.message(), "index [ferris_index] already exists");
    assert_eq!(
        error.stack(),
        &Some("BadRequestError: index [ferris_index] already exists\n".to_string())
    );
    assert_eq!(response.result(), &Value::Null);
    assert_eq!(response.volatile(), &None);
    assert_eq!(response.controller(), &None);
    assert_eq!(
        response.into_outcome(),
        Err(KuzzleError::with_stack(
            Some(400),
            "index [ferris_index] already exists".to_string(),
            Some("BadRequestError: index [ferris_index] already exists\n".to_string()),
        ))
    );
}

#[test]
fn response_error_may_lack_status_and_stack() {
    let response = KuzzleResponse::from_json(
        r#"{ "requestId": "r", "status": 500, "error": { "message": "boom" }, "result": 1 }"#,
    )
    .unwrap();
    assert_eq!(response.error(), &Some(KuzzleError::new(None, "boom")));
    let response = KuzzleResponse::from_json(
        r#"{ "requestId": "r", "status": 500,
             "error": { "message": "boom", "status": null, "stack": null }, "result": 1 }"#,
    )
    .unwrap();
    assert_eq!(response.error(), &Some(KuzzleError::new(None, "boom")));
}

#[test]
fn response_without_error_gives_its_result() {
    let response =
        KuzzleResponse::from_json(r#"{ "requestId": "r", "status": 200, "result": [1, "a"] }"#)
            .unwrap();
    assert_eq!(response.error(), &None);
    assert_eq!(
        response.into_outcome(),
        Ok(Value::Array(vec![Value::from(1), Value::from("a")]))
    );
}

fn malformed(reply: &str) -> String {
    match KuzzleResponse::from_json(reply) {
        Err(ProtocolError::MalformedReply { message }) => message,
        other => panic!("{:?}", other),
    }
}

#[test]
fn reply_of_another_shape_is_refused_by_its_first_bad_member() {
    assert_eq!(malformed(r#"{ "status": 200, "result": 1 }"#), "requestId");
    assert_eq!(malformed(r#"{ "requestId": 1, "status": 200, "result": 1 }"#), "requestId");
    assert_eq!(malformed(r#"{ "requestId": "r", "result": 1 }"#), "status");
    assert_eq!(malformed(r#"{ "requestId": "r", "status": "200", "result": 1 }"#), "status");
    assert_eq!(malformed(r#"{ "requestId": "r", "status": 65536, "result": 1 }"#), "status");
    assert_eq!(malformed(r#"{ "requestId": "r", "status": -1, "result": 1 }"#), "status");
    assert_eq!(malformed(r#"{ "requestId": "r", "status": 200.5, "result": 1 }"#), "status");
    assert_eq!(
        malformed(r#"{ "requestId": "r", "status": 200, "error": "no", "result": 1 }"#),
        "error"
    );
    assert_eq!(
        malformed(r#"{ "requestId": "r", "status": 200, "error": {}, "result": 1 }"#),
        "error"
    );
    assert_eq!(
        malformed(
            r#"{ "requestId": "r", "status": 200,
                 "error": { "message": "m", "status": 70000 }, "result": 1 }"#
        ),
        "error"
    );
    assert_eq!(
        malformed(r#"{ "requestId": "r", "status": 200, "controller": 1, "result": 1 }"#),
        "controller"
    );
    assert_eq!(
        malformed(r#"{ "requestId": "r", "status": 200, "action": [], "result": 1 }"#),
        "action"
    );
    assert_eq!(
        malformed(r#"{ "requestId": "r", "status": 200, "collection": {}, "result": 1 }"#),
        "collection"
    );
    assert_eq!(
        malformed(r#"{ "requestId": "r", "status": 200, "index": true, "result": 1 }"#),
        "index"
    );
    assert_eq!(
        malformed(r#"{ "requestId": "r", "status": 200, "volatile": [1], "result": 1 }"#),
        "volatile"
    );
    assert_eq!(malformed(r#"{ "requestId": "r", "status": 200 }"#), "result");
    assert_eq!(
        malformed(r#"{ "requestId": "r", "status": 200, "result": 1, "room": 1 }"#),
        "room"
    );
    assert_eq!(
        malformed(r#"{ "requestId": "r", "status": 200, "result": 1, "channel": 1 }"#),
        "channel"
    );
    assert_eq!(malformed(r#"[1, 2]"#), "requestId");
    assert_eq!(malformed(r#"null"#), "requestId");
}

#[test]
fn reply_that_is_not_json_is_refused_with_the_message_of_the_parser() {
    let message = malformed("{ \"requestId\": ");
    assert!(message.contains("EOF"), "{}", message);
    let message = malformed("");
    assert!(!message.is_empty());
    let message = malformed("{} trailing");
    assert!(message.contains("trailing"), "{}", message);
}

#[test]
fn status_may_be_any_number_of_sixteen_bits() {
    let response =
        KuzzleResponse::from_json(r#"{ "requestId": "r", "status": 0, "result": null }"#).unwrap();
    assert_eq!(response.status(), &0);
    let response =
        KuzzleResponse::from_json(r#"{ "requestId": "r", "status": 65535, "result": null }"#)
            .unwrap();
    assert_eq!(response.status(), &65535);
}

#[test]
fn response_is_read_from_a_value_as_from_its_text() {
    let text = r#"{ "requestId": "r", "status": 206, "error": { "message": "half" },
                    "result": { "a": [true, null] } }"#;
    let value: Value = serde_json::from_str(text).unwrap();
    assert_eq!(KuzzleResponse::from_value(&value), KuzzleResponse::from_json(text));
    assert_eq!(
        KuzzleResponse::from_value(&Value::Null),
        Err(ProtocolError::MalformedReply { message: "requestId".to_string() })
    );
}
