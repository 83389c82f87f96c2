use kuzzle_sdk::kuzzle::Kuzzle;
use kuzzle_sdk::protocols::{Http, Protocol, Routes};
use kuzzle_sdk::types::{
    KuzzleOptions, KuzzleRequest, KuzzleResponse, ProtocolError, QueryOptions,
};

const ROUTES: &str = r#"{
    "index": {
        "create": { "url": "/:index/_create", "verb": "POST" },
        "delete": { "url": "/:index", "verb": "DELETE" },
        "exists": { "url": "/:index/_exists", "verb": "GET" },
        "getAutoRefresh": { "url": "/:index/_autoRefresh", "verb": "GET" },
        "list": { "url": "/_list", "verb": "GET" },
        "mDelete": { "url": "/_mdelete", "verb": "DELETE" },
        "refresh": { "url": "/:index/_refresh", "verb": "POST" },
        "refreshInternal": { "url": "/_refreshInternal", "verb": "POST" },
        "setAutoRefresh": { "url": "/:index/_autoRefresh", "verb": "POST" }
    },
    "server": {
        "adminExists": { "url": "/_adminExists", "verb": "GET" },
        "getAllStats": { "url": "/_getAllStats", "verb": "GET" },
        "getConfig": { "url": "/_getConfig", "verb": "GET" },
        "getLastStats": { "url": "/_getLastStats", "verb": "GET" },
        "getStats": { "url": "/_getStats", "verb": "GET" },
        "info": { "url": "/_serverInfo", "verb": "GET" },
        "now": { "url": "/_now", "verb": "GET" }
    }
}"#;

/// The one call that a server answers, and its answer.
struct Mock {
    method: String,
    path: String,
    body: String,
}

fn mock(method: &str, path: &str) -> Mock {
    Mock { method: method.to_string(), path: path.to_string(), body: String::new() }
}

impl Mock {
    fn with_status(self, _status: usize) -> Mock {
        self
    }

    fn with_header(self, _field: &str, _value: &str) -> Mock {
        self
    }

    fn with_body(mut self, body: &str) -> Mock {
        self.body = body.to_string();
        self
    }

    fn create(self) -> Mock {
        self
    }
}

/// A transport that stands for the server: it resolves a request as the
/// HTTP transport does, and answers the call of its mock with the body of
/// the mock.
struct Server {
    http: Http,
    mock: Option<Mock>,
}

impl Server {
    fn new(options: KuzzleOptions, mock: Option<Mock>) -> Server {
        Server { http: Http::new(options, Routes::from_json(ROUTES).unwrap()), mock }
    }
}

fn unsupported(operation: &str) -> Result<(), ProtocolError> {
    Err(ProtocolError::Unsupported { operation: operation.to_string() })
}

impl Protocol for Server {
    fn once(&self) -> Result<(), ProtocolError> {
        unsupported("once")
    }

    fn listener_count(&self) -> Result<(), ProtocolError> {
        unsupported("listener_count")
    }

    fn connect(&self) -> Result<(), ProtocolError> {
        unsupported("connect")
    }

    fn send(
        &self,
        request: KuzzleRequest,
        _options: QueryOptions,
    ) -> Result<KuzzleResponse, ProtocolError> {
        let call = self.http.resolve(request)?;
        let mut target = call.url.path().to_string();
        if let Some(query) = &call.query_strings {
            let pairs: Vec<String> =
                query.entries().iter().map(|(key, value)| format!("{}={}", key, value)).collect();
            target = format!("{}?{}", target, pairs.join("&"));
        }
        match &self.mock {
            Some(mock) if mock.method == call.method.as_str() && mock.path == target => {
                KuzzleResponse::from_json(&mock.body)
            }
            _ => Err(ProtocolError::Network {
                message: format!("no answer to {} {}", call.method, target),
            }),
        }
    }

    fn close(&self) -> Result<(), ProtocolError> {
        unsupported("close")
    }

    fn state(&self) -> Result<(), ProtocolError> {
        unsupported("state")
    }

    fn request_history(&self) -> Result<(), ProtocolError> {
        unsupported("request_history")
    }

    fn start_queuing(&self) -> Result<(), ProtocolError> {
        unsupported("start_queuing")
    }

    fn stop_queuing(&self) -> Result<(), ProtocolError> {
        unsupported("stop_queuing")
    }

    fn clear_queue(&self) -> Result<(), ProtocolError> {
        unsupported("clear_queue")
    }
}

#[test]
fn admin_exists_ok_true() {
    let m = mock("GET", "/_adminExists")
        .with_status(200)
        .with_header("content-type", "application/json")
        .with_body(
            r#"{
                    "requestId": "da9040aa-9529-4fb9-b627-a38736321364",
                    "status": 200,
		    "error": null,
		    "controller": "server",
		    "action": "adminExists",
		    "collection": null,
		    "index": null,
		    "volatile": null,
                    "result": {
                        "exists": true
                    }
                }"#,
        )
        .create();

    let k = Kuzzle::new(Server::new(KuzzleOptions::new("localhost", 7512), Some(m)));
    let res = k.server().admin_exists();

    assert!(res.is_ok());
    assert!(res.unwrap());
}

#[test]
fn admin_exists_fail_error() {
    let m = mock("GET", "/_adminExists")
        .with_status(403)
        .with_header("content-type", "application/json")
        .with_body(
            r#"{
                    "requestId": "da9040aa-9529-4fb9-b627-a38736321364",
                    "status": 403,
                    "error": {
                      "message": "Forbidden action [null/null/server/adminExists] for user -1",
                      "status": 403,
                      "stack": "ForbiddenError: Forbidden action [null/null/server/adminExists] for user -1\n"
                    },
		    "controller": "server",
		    "action": "adminExists",
		    "collection": null,
		    "index": null,
		    "volatile": null,
                    "result": null
                }"#,
        )
        .create();

    let k = Kuzzle::new(Server::new(KuzzleOptions::new("localhost", 7512), Some(m)));
    let res = k.server().admin_exists();

    assert!(res.is_err());
}

#[test]
fn get_all_stats_ok() {
    let m = mock("GET", "/_getAllStats")
        .with_status(200)
        .with_header("content-type", "application/json")
        .with_body(
            r#"{
                    "requestId": "da9040aa-9529-4fb9-b627-a38736321364",
                    "status": 200,
		    "error": null,
		    "controller": "server",
		    "action": "getAllStats",
		    "collection": null,
		    "index": null,
		    "volatile": null,
                    "result": {
                      "total": 1,
                      "hits": [
                        {
                          "completedRequests": {
                            "websocket": 148,
                            "http": 24,
                            "mqtt": 78
                          },
                          "failedRequests": {
                            "websocket": 3
                          },
                          "ongoingRequests": {
                            "mqtt": 8,
                            "http": 2
                          },
                          "connections": {
                            "websocket": 13
                          },
                          "timestamp": 1453110641308
                        }
                      ]
                    }
                }"#,
        )
        .create();

    let k = Kuzzle::new(Server::new(KuzzleOptions::new("localhost", 7512), Some(m)));
    let res = k.server().get_all_stats();

    assert!(res.is_ok());
    let stats = res.unwrap();
    assert_eq!(stats.get("total").unwrap().as_u64().unwrap(), 1);
    let hits = stats.get("hits").unwrap().as_array().unwrap()[0]
        .as_object()
        .unwrap()
        .clone();
    assert_eq!(
        hits.get("timestamp").unwrap().as_u64().unwrap(),
        1453110641308
    );
    assert_eq!(
        hits.get("failedRequests")
            .unwrap()
            .as_object()
            .unwrap()
            .get("websocket")
            .unwrap()
            .as_u64()
            .unwrap(),
        3
    );
}

#[test]
fn get_all_stats_fail_error() {
    let m = mock("GET", "/_getAllStats")
        .with_status(403)
        .with_header("content-type", "application/json")
        .with_body(
            r#"{
                    "requestId": "da9040aa-9529-4fb9-b627-a38736321364",
                    "status": 403,
                    "error": {
                      "message": "Forbidden action [null/null/server/getAllStats] for user -1",
                      "status": 403,
                      "stack": "ForbiddenError: Forbidden action [null/null/server/getAllStats] for user -1\n"
                    },
		    "controller": "server",
		    "action": "getAllStats",
		    "collection": null,
		    "index": null,
		    "volatile": null,
                    "result": null
                }"#,
        )
        .create();

    let k = Kuzzle::new(Server::new(KuzzleOptions::new("localhost", 7512), Some(m)));
    let res = k.server().get_all_stats();

    assert!(res.is_err());
}

#[test]
fn get_config_ok() {
    let m = mock("GET", "/_getConfig")
        .with_status(200)
        .with_header("content-type", "application/json")
        .with_body(
            r#"{
                    "requestId": "da9040aa-9529-4fb9-b627-a38736321364",
                    "status": 200,
		    "error": null,
		    "controller": "server",
		    "action": "getConfig",
		    "collection": null,
		    "index": null,
		    "volatile": null,
                    "result": {
                      "limits": {
                        "concurrentRequests": 100,
                        "documentsFetchCount": 10000,
                        "documentsWriteCount": 200,
                        "requestsBufferSize": 50000,
                        "requestsBufferWarningThreshold": 5000,
                        "subscriptionConditionsCount": 16,
                        "subscriptionMinterms": 0,
                        "subscriptionRooms": 1000000,
                        "subscriptionDocumentTTL": 259200
                      },
                      "plugins": {
                        "common": {
                          "bootstrapLockTimeout": 5000,
                          "pipeWarnTime": 500,
                          "pipeTimeout": 5000,
                          "initTimeout": 10000
                        }
                      },
                      "version": "1.5.1"
                    }
                }"#,
        )
        .create();

    let k = Kuzzle::new(Server::new(KuzzleOptions::new("localhost", 7512), Some(m)));
    let res = k.server().get_config();

    assert!(res.is_ok());
    let config = res.unwrap();
    assert_eq!(config.get("version").unwrap().as_str().unwrap(), "1.5.1");
    assert_eq!(
        config
            .get("limits")
            .unwrap()
            .as_object()
            .unwrap()
            .get("concurrentRequests")
            .unwrap()
            .as_u64()
            .unwrap(),
        100
    );
}

#[test]
fn get_config_fail_error() {
    let m = mock("GET", "/_getConfig")
        .with_status(403)
        .with_header("content-type", "application/json")
        .with_body(
            r#"{
                    "requestId": "da9040aa-9529-4fb9-b627-a38736321364",
                    "status": 403,
                    "error": {
                      "message": "Forbidden action [null/null/server/getConfig] for user -1",
                      "status": 403,
                      "stack": "ForbiddenError: Forbidden action [null/null/server/getConfig] for user -1\n"
                    },
		    "controller": "server",
		    "action": "getConfig",
		    "collection": null,
		    "index": null,
		    "volatile": null,
                    "result": null
                }"#,
        )
        .create();

    let k = Kuzzle::new(Server::new(KuzzleOptions::new("localhost", 7512), Some(m)));
    let res = k.server().get_config();

    assert!(res.is_err());
}

#[test]
fn get_last_stats_ok() {
    let m = mock("GET", "/_getLastStats")
        .with_status(200)
        .with_header("content-type", "application/json")
        .with_body(
            r#"{
                    "requestId": "da9040aa-9529-4fb9-b627-a38736321364",
                    "status": 200,
		    "error": null,
		    "controller": "server",
		    "action": "getLastStats",
		    "collection": null,
		    "index": null,
		    "volatile": null,
                    "result": {
                      "completedRequests": {
                        "websocket": 148,
                        "http": 24,
                        "mqtt": 78
                      },
                      "failedRequests": {
                        "websocket": 3
                      },
                      "ongoingRequests": {
                        "mqtt": 8,
                        "http": 2
                      },
                      "connections": {
                        "websocket": 13
                      },
                      "timestamp": 1453110641308
                    }
                }"#,
        )
        .create();

    let k = Kuzzle::new(Server::new(KuzzleOptions::new("localhost", 7512), Some(m)));
    let res = k.server().get_last_stats();
    assert!(res.is_ok());
    let last_stats = res.unwrap();
    assert_eq!(
        last_stats.get("timestamp").unwrap().as_u64().unwrap(),
        1453110641308
    );
    assert_eq!(
        last_stats
            .get("failedRequests")
            .unwrap()
            .as_object()
            .unwrap()
            .get("websocket")
            .unwrap()
            .as_u64()
            .unwrap(),
        3
    );
}

#[test]
fn get_last_stats_fail_error() {
    let m = mock("GET", "/_getLastStats")
        .with_status(403)
        .with_header("content-type", "application/json")
        .with_body(
            r#"{
                    "requestId": "da9040aa-9529-4fb9-b627-a38736321364",
                    "status": 403,
                    "error": {
                      "message": "Forbidden action [null/null/server/getLastStats] for user -1",
                      "status": 403,
                      "stack": "ForbiddenError: Forbidden action [null/null/server/getLastStats] for user -1\n"
                    },
		    "controller": "server",
		    "action": "getLastStats",
		    "collection": null,
		    "index": null,
		    "volatile": null,
                    "result": null
                }"#,
        )
        .create();

    let k = Kuzzle::new(Server::new(KuzzleOptions::new("localhost", 7512), Some(m)));
    let res = k.server().get_last_stats();

    assert!(res.is_err());
}

#[test]
fn get_stats_ok() {
    let m = mock(
        "GET",
        "/_getStats?startTime=1550439618398&stopTime=1550436918273",
    )
    .with_status(200)
    .with_header("content-type", "application/json")
    .with_body(
        r#"{
                    "requestId": "da9040aa-9529-4fb9-b627-a38736321364",
                    "status": 200,
		    "error": null,
		    "controller": "server",
		    "action": "getStats",
		    "collection": null,
		    "index": null,
		    "volatile": null,
                    "result": {
                      "completedRequests": {
                        "websocket": 148,
                        "http": 24,
                        "mqtt": 78
                      },
                      "failedRequests": {
                        "websocket": 3
                      },
                      "ongoingRequests": {
                        "mqtt": 8,
                        "http": 2
                      },
                      "connections": {
                        "websocket": 13
                      },
                      "timestamp": 1453110641308
                    }
                }"#,
    )
    .create();

    let k = Kuzzle::new(Server::new(KuzzleOptions::new("localhost", 7512), Some(m)));
    let res = k.server().get_stats(1550439618398, 1550436918273);
    println!("{:?}", res);
    assert!(res.is_ok());
    let stats = res.unwrap();
    assert_eq!(
        stats.get("timestamp").unwrap().as_u64().unwrap(),
        1453110641308
    );
    assert_eq!(
        stats
            .get("failedRequests")
            .unwrap()
            .as_object()
            .unwrap()
            .get("websocket")
            .unwrap()
            .as_u64()
            .unwrap(),
        3
    );
}

#[test]
fn get_stats_fail_error() {
    let m = mock("GET", "/_getStats?startTime=1550439618398&stopTime=1550436918273")
        .with_status(403)
        .with_header("content-type", "application/json")
        .with_body(
            r#"{
                    "requestId": "da9040aa-9529-4fb9-b627-a38736321364",
                    "status": 403,
                    "error": {
                      "message": "Forbidden action [null/null/server/getStats] for user -1",
                      "status": 403,
                      "stack": "ForbiddenError: Forbidden action [null/null/server/getStats] for user -1\n"
                    },
		    "controller": "server",
		    "action": "getStats",
		    "collection": null,
		    "index": null,
		    "volatile": null,
                    "result": null
                }"#,
        )
        .create();

    let k = Kuzzle::new(Server::new(KuzzleOptions::new("localhost", 7512), Some(m)));
    let res = k.server().get_stats(1550439618398, 1550436918273);

    assert!(res.is_err());
}

#[test]
fn get_stats_fail_all_bad_timestamp_format() {
    let k = Kuzzle::new(Server::new(KuzzleOptions::new("localhost", 7512), None));
    let res = k.server().get_stats(1550439618, 150436918273);

    assert!(res.is_err());
}

#[test]
fn get_stats_fail_one_bad_timestamp_format() {
    let k = Kuzzle::new(Server::new(KuzzleOptions::new("localhost", 7512), None));
    let res = k.server().get_stats(155043961845, 150436918273);

    assert!(res.is_err());
}

#[test]
fn info_ok() {
    let m = mock("GET", "/_serverInfo")
        .with_status(200)
        .with_header("content-type", "application/json")
        .with_body(
            r#"{
                    "requestId": "da9040aa-9529-4fb9-b627-a38736321364",
                    "status": 200,
		    "error": null,
		    "controller": "server",
		    "action": "info",
		    "collection": null,
		    "index": null,
		    "volatile": null,
                    "result": {
                      "serverInfo": {
                        "kuzzle": {
                          "api": {
                            "routes": {
                              "auth": {
                                "login": {
                                  "controller": "auth",
                                  "action": "login",
                                  "http": [
                                    {
                                        "url": "/_login/:strategy",
                                        "verb": "GET"
                                    },
                                    {
                                        "url": "/_login/:strategy",
                                        "verb": "POST"
                                    }
                                  ]
                                }
                              }
                            }
                          },
                          "memoryUsed": 115036160,
                          "nodeVersion": "v8.9.0",
                          "plugins": {
                            "kuzzle-plugin-auth-passport-local": {
                              "manifest": {
                                "name": "kuzzle-plugin-auth-passport-local",
                                "path": "/var/app/plugins/enabled/kuzzle-plugin-auth-passport-local",
                                "kuzzleVersion": ">=1.0.0 <2.0.0"
                              },
                              "hooks": [],
                              "pipes": [],
                              "controllers": [],
                              "routes": [],
                              "strategies": [ "local" ]
                            }
                          }
                        } 
                      }
                    }
                }"#,
        )
        .create();

    let k = Kuzzle::new(Server::new(KuzzleOptions::new("localhost", 7512), Some(m)));
    let res = k.server().info();
    assert!(res.is_ok());
    let info = res.unwrap();
    assert_eq!(
        info.get("serverInfo")
            .unwrap()
            .as_object()
            .unwrap()
            .get("kuzzle")
            .unwrap()
            .as_object()
            .unwrap()
            .get("memoryUsed")
            .unwrap()
            .as_u64()
            .unwrap(),
        115036160
    );
}

#[test]
fn info_fail_error() {
    let m = mock("GET", "/_serverInfo")
        .with_status(403)
        .with_header("content-type", "application/json")
        .with_body(
            r#"{
                    "requestId": "da9040aa-9529-4fb9-b627-a38736321364",
                    "status": 403,
                    "error": {
                      "message": "Forbidden action [null/null/server/info] for user -1",
                      "status": 403,
                      "stack": "ForbiddenError: Forbidden action [null/null/server/info] for user -1\n"
                    },
		    "controller": "server",
		    "action": "info",
		    "collection": null,
		    "index": null,
		    "volatile": null,
                    "result": null
                }"#,
        )
        .create();

    let k = Kuzzle::new(Server::new(KuzzleOptions::new("localhost", 7512), Some(m)));
    let res = k.server().info();

    assert!(res.is_err());
}

#[test]
fn now_ok() {
    let m = mock("GET", "/_now")
        .with_status(200)
        .with_header("content-type", "application/json")
        .with_body(
            r#"{
                    "requestId": "da9040aa-9529-4fb9-b627-a38736321364",
                    "status": 200,
		    "error": null,
		    "controller": "server",
		    "action": "adminExists",
		    "collection": null,
		    "index": null,
		    "volatile": null,
                    "result": {
                        "now": 1928374619383
                    }
                }"#,
        )
        .create();

    let k = Kuzzle::new(Server::new(KuzzleOptions::new("localhost", 7512), Some(m)));
    let res = k.server().now();

    assert!(res.is_ok());
    assert_eq!(res.unwrap().to_string().len(), 13);
}

#[test]
fn now_fail_error() {
    let m = mock("GET", "/_now")
        .with_status(403)
        .with_header("content-type", "application/json")
        .with_body(
            r#"{
                    "requestId": "da9040aa-9529-4fb9-b627-a38736321364",
                    "status": 403,
                    "error": {
                      "message": "Forbidden action [null/null/server/now] for user -1",
                      "status": 403,
                      "stack": "ForbiddenError: Forbidden action [null/null/server/now] for user -1\n"
                    },
		    "controller": "server",
		    "action": "now",
		    "collection": null,
		    "index": null,
		    "volatile": null,
                    "result": null
                }"#,
        )
        .create();

    let k = Kuzzle::new(Server::new(KuzzleOptions::new("localhost", 7512), Some(m)));
    let res = k.server().now();

    assert!(res.is_err());
}
