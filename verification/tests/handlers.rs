use rest_api::beacon_node::{
    get_genesis_time, get_version, genesis_time_response, respond, validate_request, GenesisTime,
    Version,
};
use rest_api::error::APIError;
use rest_api::json::body_or_internal_error;
use rest_api::request::{ChainSnapshot, ChainState, Method, Request};
use rest_api::response::{result_to_response, success_response, ContentType, Response, Success};
use rest_api::router::Endpoint;
use std::cell::Cell;
use std::rc::Rc;

/// A chain state that counts how often it is read.
struct CountingChain {
    genesis_time: u64,
    reads: Rc<Cell<u32>>,
}

impl ChainState for CountingChain {
    fn current_state(&self) -> ChainSnapshot {
        self.reads.set(self.reads.get() + 1);
        ChainSnapshot { genesis_time: self.genesis_time }
    }
}

fn request(method: Method, path: &str, genesis_time: u64) -> Request<ChainSnapshot> {
    Request { method, path: path.to_string(), chain: Some(ChainSnapshot { genesis_time }) }
}

fn other_methods() -> Vec<Method> {
    vec![
        Method::Options,
        Method::Post,
        Method::Put,
        Method::Delete,
        Method::Head,
        Method::Trace,
        Method::Connect,
        Method::Patch,
        Method::Extension,
    ]
}

#[test]
fn version_scenario() {
    let response = respond(
        Endpoint::Version,
        request(Method::Get, "/version", 0),
        "testnode/1.0.0".to_string(),
    );
    assert_eq!(response.status, 200);
    assert_eq!(response.content_type, ContentType::Json);
    assert_eq!(response.body, "\"testnode/1.0.0\"");
    let read: String = serde_json::from_str(&response.body).unwrap();
    assert_eq!(read, "testnode/1.0.0");
}

#[test]
fn genesis_time_scenario() {
    let response = respond(
        Endpoint::GenesisTime,
        request(Method::Get, "/genesis_time", 1606824023),
        "testnode/1.0.0".to_string(),
    );
    assert_eq!(response.status, 200);
    assert_eq!(response.content_type, ContentType::Json);
    assert_eq!(response.body, "1606824023");
    let read: u64 = serde_json::from_str(&response.body).unwrap();
    assert_eq!(read, 1606824023);
}

#[test]
fn post_version_scenario() {
    let response = respond(
        Endpoint::Version,
        request(Method::Post, "/version", 0),
        "testnode/1.0.0".to_string(),
    );
    assert_eq!(response.status, 405);
    assert_eq!(response.content_type, ContentType::PlainText);
    assert!(!response.body.is_empty());
    assert!(response.body.contains("Invalid Method"));
    assert_eq!(response.body, "Invalid Method for request to: /version");
}

#[test]
fn every_other_method_is_refused() {
    for method in other_methods() {
        for (endpoint, path) in
            [(Endpoint::Version, "/version"), (Endpoint::GenesisTime, "/genesis_time")]
        {
            let response = respond(endpoint, request(method, path, 7), "v".to_string());
            assert_eq!(response.status, 405);
            assert!(!response.body.is_empty());
            assert!(response.body.contains(path));
        }
    }
}

#[test]
fn validate_accepts_get_only() {
    assert_eq!(validate_request(&request(Method::Get, "/version", 0)), Ok(()));
    for method in other_methods() {
        assert_eq!(
            validate_request(&request(method, "/a/b", 0)),
            Err(APIError::MethodNotAllowed {
                desc: "Invalid Method for request to: /a/b".to_string()
            })
        );
    }
}

#[test]
fn validate_names_an_empty_path() {
    assert_eq!(
        validate_request(&request(Method::Put, "", 0)),
        Err(APIError::MethodNotAllowed { desc: "Invalid Method for request to: ".to_string() })
    );
}

#[test]
fn version_is_escaped_and_reads_back() {
    let version = "node \"x\"\\1\n\u{1}\u{e9}".to_string();
    let result = get_version(request(Method::Get, "/version", 0), version.clone()).unwrap();
    assert_eq!(result.status, 200);
    assert_eq!(result.body, "\"node \\\"x\\\"\\\\1\\n\\u0001\u{e9}\"");
    let read: String = serde_json::from_str(&result.body).unwrap();
    assert_eq!(read, version);
}

#[test]
fn empty_version_is_an_empty_json_string() {
    let result = get_version(request(Method::Get, "/version", 0), String::new()).unwrap();
    assert_eq!(result, Success { status: 200, body: "\"\"".to_string() });
}

#[test]
fn version_ignores_the_chain_state() {
    let req: Request<ChainSnapshot> =
        Request { method: Method::Get, path: "/version".to_string(), chain: None };
    let result = get_version(req, "abc".to_string());
    assert_eq!(result, Ok(Success { status: 200, body: "\"abc\"".to_string() }));
}

#[test]
fn genesis_time_edge_values() {
    assert_eq!(
        genesis_time_response(ChainSnapshot { genesis_time: 0 }),
        Ok(Success { status: 200, body: "0".to_string() })
    );
    assert_eq!(
        genesis_time_response(ChainSnapshot { genesis_time: 10 }),
        Ok(Success { status: 200, body: "10".to_string() })
    );
    assert_eq!(
        genesis_time_response(ChainSnapshot { genesis_time: u64::MAX }),
        Ok(Success { status: 200, body: "18446744073709551615".to_string() })
    );
}

#[test]
fn genesis_time_is_repeatable() {
    let first = get_genesis_time(request(Method::Get, "/genesis_time", 1606824023));
    let second = get_genesis_time(request(Method::Get, "/genesis_time", 1606824023));
    assert_eq!(first, second);
    assert_eq!(first, Ok(Success { status: 200, body: "1606824023".to_string() }));
}

#[test]
fn many_reads_agree() {
    let expected = Response {
        status: 200,
        content_type: ContentType::Json,
        body: "1606824023".to_string(),
    };
    for _ in 0..100 {
        let response = respond(
            Endpoint::GenesisTime,
            request(Method::Get, "/genesis_time", 1606824023),
            String::new(),
        );
        assert_eq!(response, expected);
    }
}

#[test]
fn missing_chain_state_is_an_internal_error() {
    let req: Request<ChainSnapshot> =
        Request { method: Method::Get, path: "/genesis_time".to_string(), chain: None };
    assert_eq!(
        req.chain_state(),
        Err(APIError::InternalError {
            desc: "Chain state is not attached to the request".to_string()
        })
    );
    let response = respond(Endpoint::GenesisTime, req, String::new());
    assert_eq!(response.status, 500);
    assert_eq!(response.content_type, ContentType::PlainText);
    assert_eq!(response.body, "Chain state is not attached to the request");
}

#[test]
fn wrong_method_comes_before_missing_chain_state() {
    let req: Request<ChainSnapshot> =
        Request { method: Method::Delete, path: "/genesis_time".to_string(), chain: None };
    let response = respond(Endpoint::GenesisTime, req, String::new());
    assert_eq!(response.status, 405);
}

#[test]
fn chain_state_is_read_once_and_only_after_validation() {
    let reads = Rc::new(Cell::new(0));
    let refused = Request {
        method: Method::Post,
        path: "/genesis_time".to_string(),
        chain: Some(CountingChain { genesis_time: 3, reads: reads.clone() }),
    };
    assert!(get_genesis_time(refused).is_err());
    assert_eq!(reads.get(), 0);
    let accepted = Request {
        method: Method::Get,
        path: "/genesis_time".to_string(),
        chain: Some(CountingChain { genesis_time: 3, reads: reads.clone() }),
    };
    assert_eq!(get_genesis_time(accepted), Ok(Success { status: 200, body: "3".to_string() }));
    assert_eq!(reads.get(), 1);
}

#[test]
fn chain_state_hands_out_the_attached_handle() {
    let req = request(Method::Get, "/genesis_time", 42);
    let handle = req.chain_state().unwrap();
    assert_eq!(handle.current_state(), ChainSnapshot { genesis_time: 42 });
}

#[test]
fn wrapped_values_serialize() {
    assert_eq!(Version::from("a/1".to_string()), Version("a/1".to_string()));
    assert_eq!(GenesisTime::from(9), GenesisTime(9));
    assert_eq!(Version::from("a/1".to_string()).to_json(), Ok("\"a/1\"".to_string()));
    assert_eq!(GenesisTime::from(1606824023).to_json(), Ok("1606824023".to_string()));
}

#[test]
fn failed_serialization_becomes_an_internal_error() {
    let failure = serde_json::from_str::<u64>("not a number").unwrap_err();
    let outcome = body_or_internal_error(Err(failure));
    assert_eq!(
        outcome,
        Err(APIError::InternalError { desc: "Value could not be serialized as JSON".to_string() })
    );
    assert_eq!(body_or_internal_error(Ok("1".to_string())), Ok("1".to_string()));
    assert_eq!(result_to_response(Err(outcome.unwrap_err())).status, 500);
}

#[test]
fn envelope_keeps_a_success() {
    let success = success_response("[1]".to_string());
    assert_eq!(success, Success { status: 200, body: "[1]".to_string() });
    assert_eq!(
        result_to_response(Ok(Success { status: 201, body: "{}".to_string() })),
        Response { status: 201, content_type: ContentType::Json, body: "{}".to_string() }
    );
}

#[test]
fn envelope_maps_each_error_kind() {
    let refused = APIError::MethodNotAllowed { desc: "no".to_string() };
    let broken = APIError::InternalError { desc: "oops".to_string() };
    assert_eq!(refused.status_code(), 405);
    assert_eq!(broken.status_code(), 500);
    assert_eq!(refused.description(), "no");
    assert_eq!(broken.description(), "oops");
    assert_eq!(
        result_to_response(Err(refused)),
        Response { status: 405, content_type: ContentType::PlainText, body: "no".to_string() }
    );
    assert_eq!(
        result_to_response(Err(broken)),
        Response { status: 500, content_type: ContentType::PlainText, body: "oops".to_string() }
    );
}
