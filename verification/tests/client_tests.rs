use hchk::check::Check;
use hchk::client::{
    find_result, list_result, ping_result, single_check_result, ApiClient, ApiRequest, HttpOutcome,
    Method,
};
use hchk::error::ApiError;

// ---- decoding glue around the library (what the transport layer does
// ---- with a 2xx body before handing values back) ----

fn opt_str(v: &serde_json::Value, key: &str) -> Option<String> {
    v.get(key).and_then(|x| x.as_str()).map(|s| s.to_string())
}

fn check_from_value(v: &serde_json::Value) -> Option<Check> {
    Some(Check {
        id: opt_str(v, "id").or_else(|| opt_str(v, "uuid")),
        short_id: opt_str(v, "short_id"),
        name: opt_str(v, "name")?,
        ping_url: opt_str(v, "ping_url")?,
        pause_url: opt_str(v, "pause_url")?,
        last_ping: opt_str(v, "last_ping"),
        next_ping: opt_str(v, "next_ping"),
        grace: v.get("grace").and_then(|x| x.as_u64())? as u32,
        n_pings: v.get("n_pings").and_then(|x| x.as_u64())? as u32,
        tags: opt_str(v, "tags")?,
        timeout: v.get("timeout").and_then(|x| x.as_u64()).map(|n| n as u32),
        tz: opt_str(v, "tz"),
        schedule: opt_str(v, "schedule"),
        status: opt_str(v, "status")?,
        update_url: opt_str(v, "update_url")?,
    })
}

fn decoded_of(outcome: &HttpOutcome) -> Option<Check> {
    match outcome {
        HttpOutcome::Response { status, body } if (200..300).contains(status) => {
            let v: serde_json::Value = serde_json::from_str(body).ok()?;
            check_from_value(&v)
        }
        _ => None,
    }
}

fn decoded_list_of(outcome: &HttpOutcome) -> Option<Vec<Check>> {
    match outcome {
        HttpOutcome::Response { status, body } if (200..300).contains(status) => {
            let v: serde_json::Value = serde_json::from_str(body).ok()?;
            let arr = v.get("checks")?.as_array()?;
            let mut out = Vec::new();
            for item in arr {
                out.push(check_from_value(item)?);
            }
            Some(out)
        }
        _ => None,
    }
}

fn assert_json_eq(got: &str, want: &str) {
    let g: serde_json::Value = serde_json::from_str(got).unwrap();
    let w: serde_json::Value = serde_json::from_str(want).unwrap();
    assert_eq!(g, w);
}

fn sample_check_json() -> String {
    r#"{
        "name": "test-check",
        "ping_url": "https://hc-ping.com/abc123-def456",
        "pause_url": "https://healthchecks.io/api/v1/checks/abc123-def456/pause",
        "last_ping": "2024-01-01T12:00:00+00:00",
        "next_ping": "2024-01-01T13:00:00+00:00",
        "grace": 3600,
        "n_pings": 10,
        "tags": "test",
        "timeout": 86400,
        "tz": "UTC",
        "schedule": "0 * * * *",
        "status": "up",
        "update_url": "https://healthchecks.io/api/v1/checks/abc123-def456"
    }"#
    .to_string()
}

fn sample_checks_response() -> String {
    format!(r#"{{"checks": [{}]}}"#, sample_check_json())
}

fn draft_check(id: &str, short_id: &str, ping_url: &str) -> Check {
    Check {
        id: Some(id.to_string()),
        short_id: Some(short_id.to_string()),
        name: "test-check".to_string(),
        ping_url: ping_url.to_string(),
        pause_url: "".to_string(),
        last_ping: None,
        next_ping: None,
        grace: 3600,
        n_pings: 0,
        tags: "".to_string(),
        timeout: None,
        tz: None,
        schedule: None,
        status: "up".to_string(),
        update_url: "".to_string(),
    }
}

fn ok_response(body: String) -> HttpOutcome {
    HttpOutcome::Response { status: 200, body }
}

// ---- the tests ----

#[test]
fn test_api_client_new() {
    let client = ApiClient::new("test-api-key", Some("https://example.com/api/"));
    assert_eq!(client.base_url, "https://example.com/api/");
}

#[test]
fn test_api_client_add() {
    let base = "http://127.0.0.1:8000/";
    let client = ApiClient::new("test-key", Some(base));
    let req: ApiRequest = client
        .add_request("test-check", "0 * * * *", 1, None, None)
        .unwrap();

    // What the mock server would have matched on.
    assert_eq!(req.method, Method::Post);
    assert_eq!(req.url, base);
    assert_eq!(req.api_key, "test-key");
    assert_json_eq(
        req.body.as_ref().unwrap(),
        r#"{"grace":3600,"name":"test-check","schedule":"0 * * * *","tags":"","tz":"UTC","unique":["name"]}"#,
    );

    let outcome = ok_response(sample_check_json());
    let decoded = decoded_of(&outcome);
    let result = single_check_result(outcome, decoded);

    assert!(result.is_ok());
    let check = result.unwrap();
    assert_eq!(check.name, "test-check");
    assert_eq!(check.status, "up");
}

#[test]
fn test_api_client_add_with_tags_and_tz() {
    let base = "http://127.0.0.1:8000/";
    let client = ApiClient::new("test-key", Some(base));
    let req = client
        .add_request(
            "test-check",
            "0 * * * *",
            2,
            Some("America/New_York"),
            Some("prod,critical"),
        )
        .unwrap();

    assert_eq!(req.method, Method::Post);
    assert_eq!(req.api_key, "test-key");
    assert_json_eq(
        req.body.as_ref().unwrap(),
        r#"{"grace":7200,"name":"test-check","schedule":"0 * * * *","tags":"prod,critical","tz":"America/New_York","unique":["name"]}"#,
    );

    let outcome = ok_response(sample_check_json());
    let decoded = decoded_of(&outcome);
    let result = single_check_result(outcome, decoded);
    assert!(result.is_ok());
}

#[test]
fn test_api_client_delete() {
    let base_url = "http://127.0.0.1:8000/";
    let client = ApiClient::new("test-key", Some(base_url));
    let check = draft_check(
        "abc123-def456",
        "abc123",
        "https://hc-ping.com/abc123-def456",
    );

    let req = client.delete_request(&check);
    assert_eq!(req.method, Method::Delete);
    assert!(req.url.ends_with("/abc123-def456"));
    assert_eq!(req.api_key, "test-key");

    let outcome = ok_response(sample_check_json());
    let decoded = decoded_of(&outcome);
    let result = single_check_result(outcome, decoded);
    assert!(result.is_ok());
}

#[test]
fn test_api_client_ping() {
    let ping_url = "http://127.0.0.1:8000/ping";
    let client = ApiClient::new("test-key", Some("http://127.0.0.1:8000"));
    let check = draft_check("abc123-def456", "abc123", ping_url);

    let req = client.ping_request(&check);
    assert_eq!(req.method, Method::Get);
    assert!(req.url.ends_with("/ping"));
    assert_eq!(req.url, ping_url);

    let result = ping_result(HttpOutcome::Response {
        status: 200,
        body: "".to_string(),
    });
    assert!(result.is_ok());
}

#[test]
fn test_api_client_pause() {
    let base_url = "http://127.0.0.1:8000/";
    let client = ApiClient::new("test-key", Some(base_url));
    let check = draft_check(
        "abc123-def456",
        "abc123",
        "https://hc-ping.com/abc123-def456",
    );

    let req = client.pause_request(&check);
    assert_eq!(req.method, Method::Post);
    assert!(req.url.ends_with("/abc123-def456/pause"));
    assert_eq!(req.api_key, "test-key");

    let outcome = ok_response(
        r#"{
            "name": "test-check",
            "ping_url": "https://hc-ping.com/abc123-def456",
            "pause_url": "https://healthchecks.io/api/v1/checks/abc123-def456/pause",
            "last_ping": null,
            "next_ping": null,
            "grace": 3600,
            "n_pings": 0,
            "tags": "",
            "timeout": null,
            "tz": null,
            "schedule": null,
            "status": "paused",
            "update_url": "https://healthchecks.io/api/v1/checks/abc123-def456"
        }"#
        .to_string(),
    );
    let decoded = decoded_of(&outcome);
    let result = single_check_result(outcome, decoded);

    assert!(result.is_ok());
    let paused_check = result.unwrap();
    assert_eq!(paused_check.status, "paused");
}

#[test]
fn test_api_client_get() {
    let client = ApiClient::new("test-key", Some("http://127.0.0.1:8000"));
    let req = client.list_request();
    assert_eq!(req.method, Method::Get);
    assert_eq!(req.url, "http://127.0.0.1:8000");
    assert_eq!(req.api_key, "test-key");

    let outcome = ok_response(sample_checks_response());
    let decoded = decoded_list_of(&outcome);
    let result = list_result(outcome, decoded, None);

    assert!(result.is_ok());
    let checks = result.unwrap();
    assert_eq!(checks.len(), 1);
    assert_eq!(checks[0].name, "test-check");
    assert_eq!(checks[0].id(), "abc123-def456");
    assert_eq!(checks[0].short_id(), "abc123");
}

#[test]
fn test_api_client_get_with_query() {
    let response = r#"{"checks": [
        {
            "name": "test-check-1",
            "ping_url": "https://hc-ping.com/abc123-def456",
            "pause_url": "",
            "last_ping": null,
            "next_ping": null,
            "grace": 3600,
            "n_pings": 0,
            "tags": "",
            "timeout": null,
            "tz": null,
            "schedule": null,
            "status": "up",
            "update_url": ""
        },
        {
            "name": "other-check",
            "ping_url": "https://hc-ping.com/xyz789-ghi012",
            "pause_url": "",
            "last_ping": null,
            "next_ping": null,
            "grace": 3600,
            "n_pings": 0,
            "tags": "",
            "timeout": null,
            "tz": null,
            "schedule": null,
            "status": "up",
            "update_url": ""
        }
    ]}"#;

    let outcome = ok_response(response.to_string());
    let decoded = decoded_list_of(&outcome);
    let result = list_result(outcome, decoded, Some("test"));

    assert!(result.is_ok());
    let checks = result.unwrap();
    assert_eq!(checks.len(), 1);
    assert_eq!(checks[0].name, "test-check-1");
}

#[test]
fn test_api_client_find_success() {
    let outcome = ok_response(sample_checks_response());
    let decoded = decoded_list_of(&outcome);
    let result = find_result(&list_result(outcome, decoded, Some("test-check")));

    assert!(result.is_some());
    let check = result.unwrap();
    assert_eq!(check.name, "test-check");
}

#[test]
fn test_api_client_find_not_found() {
    let outcome = ok_response(r#"{"checks": []}"#.to_string());
    let decoded = decoded_list_of(&outcome);
    let result = find_result(&list_result(outcome, decoded, Some("nonexistent")));

    assert!(result.is_none());
}

#[test]
fn test_api_client_find_error() {
    let outcome = HttpOutcome::Response {
        status: 500,
        body: "".to_string(),
    };
    let decoded = decoded_list_of(&outcome);
    let result = find_result(&list_result(outcome, decoded, Some("test")));

    assert!(result.is_none());
}

#[test]
fn test_api_client_add_empty_name() {
    let client = ApiClient::new("test-key", Some("http://127.0.0.1:8000"));
    let result = client.add_request("", "0 * * * *", 1, None, None);

    assert!(result.is_err());
    assert!(result
        .unwrap_err()
        .message()
        .contains("name cannot be empty"));
}

#[test]
fn test_api_client_add_invalid_grace_zero() {
    let client = ApiClient::new("test-key", Some("http://127.0.0.1:8000"));
    let result = client.add_request("test", "0 * * * *", 0, None, None);

    assert!(result.is_err());
    assert!(result.unwrap_err().message().contains("Grace period"));
}

#[test]
fn test_api_client_add_invalid_grace_too_large() {
    let client = ApiClient::new("test-key", Some("http://127.0.0.1:8000"));
    let result = client.add_request("test", "0 * * * *", 24 * 366, None, None);

    assert!(result.is_err());
    assert!(result.unwrap_err().message().contains("Grace period"));
}

#[test]
fn blank_name_builds_no_request() {
    // A rejected creation never yields a request value, so nothing can
    // reach the network.
    let client = ApiClient::new("test-key", Some("http://127.0.0.1:8000"));
    let result = client.add_request("   ", "0 * * * *", 1, None, None);
    let err = result.unwrap_err();
    assert!(err.is_validation());
}

#[test]
fn unicode_whitespace_name_is_rejected() {
    // Names that str::trim reduces to nothing are refused, whatever
    // flavour of whitespace they hold.
    let client = ApiClient::new("test-key", Some("http://127.0.0.1:8000"));
    for name in ["\u{a0}", "\u{2003}\u{2003}", " \u{3000}\t", "\u{85}\u{2028}\u{202f}"] {
        assert!(name.trim().is_empty());
        let err = client
            .add_request(name, "0 * * * *", 1, None, None)
            .unwrap_err();
        assert!(err.is_validation());
        assert_eq!(err.message(), "name cannot be empty");
    }
}

#[test]
fn name_with_any_non_whitespace_is_accepted() {
    let client = ApiClient::new("test-key", Some("http://127.0.0.1:8000"));
    for name in [" x ", "\u{a0}\u{e9}\u{a0}", "\u{200b}"] {
        assert!(!name.trim().is_empty());
        assert!(client.add_request(name, "0 * * * *", 1, None, None).is_ok());
    }
}

#[test]
fn out_of_range_grace_builds_no_request() {
    let client = ApiClient::new("test-key", Some("http://127.0.0.1:8000"));
    let zero = client.add_request("x", "0 * * * *", 0, None, None);
    let too_large = client.add_request("x", "0 * * * *", 8761, None, None);
    assert!(zero.unwrap_err().is_validation());
    assert!(too_large.unwrap_err().is_validation());
}

#[test]
fn pause_against_forbidden_status_carries_it() {
    let outcome = HttpOutcome::Response {
        status: 403,
        body: "forbidden".to_string(),
    };
    let decoded = decoded_of(&outcome);
    let result = single_check_result(outcome, decoded);

    let err = result.unwrap_err();
    assert!(err.is_api_status());
    assert_eq!(err.status(), Some(403));
}

#[test]
fn ping_failure_carries_status() {
    let result = ping_result(HttpOutcome::Response {
        status: 404,
        body: "gone".to_string(),
    });
    let err = result.unwrap_err();
    assert_eq!(err.status(), Some(404));
}

#[test]
fn unreachable_server_is_a_transport_error() {
    let outcome = HttpOutcome::Failed {
        cause: "Connection refused".to_string(),
    };
    let decoded = decoded_list_of(&outcome);
    let result = list_result(outcome, decoded, None);
    let err = result.unwrap_err();
    assert!(err.is_transport());
    assert_eq!(err.message(), "transport error: Connection refused");
}

#[test]
fn undecodable_body_is_a_decode_error() {
    let outcome = ok_response("not json at all".to_string());
    let decoded = decoded_list_of(&outcome);
    assert!(decoded.is_none());
    let result = list_result(outcome, decoded, None);
    assert!(result.unwrap_err().is_decode());
}

#[test]
fn find_absorbs_a_transport_failure() {
    let outcome = HttpOutcome::Failed {
        cause: "dns failure".to_string(),
    };
    let decoded = decoded_list_of(&outcome);
    let result = find_result(&list_result(outcome, decoded, Some("x")));
    assert!(result.is_none());
}

#[test]
fn status_error_keeps_the_response_body() {
    let outcome = HttpOutcome::Response {
        status: 500,
        body: "internal error".to_string(),
    };
    let decoded = decoded_of(&outcome);
    let err = single_check_result(outcome, decoded).unwrap_err();
    match err {
        ApiError::ApiStatus { status, body } => {
            assert_eq!(status, 500);
            assert_eq!(body, "internal error");
        }
        _ => panic!("expected a status error"),
    }
}
