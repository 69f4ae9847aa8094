//! Scenario tests for the fetch outcome: the request itself is issued
//! outside the library, so each scenario feeds the status code and body a
//! server would have answered with into the classification and checks the
//! observable text.

use r2logs::api::LogResponse;

fn sample_data() -> &'static str {
    r#"
        {
            "Event": {
                "RayID": "",
                "Request": {
                    "URL": "",
                    "Method": "GET"
                },
                "Response": {
                    "Status": 200
                }
            },
            "EventTimestampMs": 1704985180778,
            "EventType": "fetch",
            "Exceptions": [],
            "Logs": [
                {
                    "Level": "log",
                    "Message": [
                        ""
                    ],
                    "TimestampMs": 1704985180778
                },
                {
                    "Level": "log",
                    "Message": [
                        ""
                    ],
                    "TimestampMs": 1704985181064
                }
            ],
            "Outcome": "ok",
            "ScriptName": "",
            "ScriptTags": []
        }
        "#
}

// A server that matched the request answers 200 with the record body: the
// returned text is exactly that body.
#[test]
fn test_matched_request_returns_body() {
    let data = sample_data();
    let resp = LogResponse::classify(200, data.to_string());
    let text = resp.text();
    assert!(!text.is_empty());
    assert_eq!(text, data);
}

// A server that saw no matching route answers a non-success status: the
// returned text is empty whatever the error body held, with no hard error.
#[test]
fn test_unmatched_endpoint_yields_empty() {
    let data = sample_data();
    let resp = LogResponse::classify(501, "no matching mock".to_string());
    let text = resp.text();
    assert!(text.is_empty());
    assert_ne!(text, data);
}

// A server that requires an exact Authorization header and did not see it
// rejects the request; the rejection status yields the same empty text.
#[test]
fn test_wrong_bearer_token_yields_empty() {
    let data = sample_data();
    let resp = LogResponse::classify(401, data.to_string());
    let text = resp.text();
    assert!(text.is_empty());
    assert_ne!(text, data);
}

// The same for a wrong access-key header: rejected, observably empty.
#[test]
fn test_wrong_access_key_yields_empty() {
    let data = sample_data();
    let resp = LogResponse::classify(403, String::new());
    let text = resp.text();
    assert!(text.is_empty());
    assert_ne!(text, data);
}
