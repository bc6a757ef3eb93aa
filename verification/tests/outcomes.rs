use command_bridge::bridge::{
    accept, check_backend_status, check_inference_status, complete, get_folder_files,
    process_file_for_tags, process_folder_for_tags, receive, refuse, send_prompt,
    status_is_success, status_report, Transport,
};
use command_bridge::error::{BridgeError, ErrorKind};
use command_bridge::json::Json;
use command_bridge::operation::{Operation, Target};
use command_bridge::reply::{Health, StatusResult};

const OPERATIONS: [Operation; 6] = [
    Operation::CheckInferenceStatus,
    Operation::CheckBackendStatus,
    Operation::ListFolderFiles,
    Operation::ProcessFolderForTags,
    Operation::ProcessFileForTags,
    Operation::SendPrompt,
];

fn replied(status: u16, body: &str) -> Transport {
    Transport::Replied { status, body: body.as_bytes().to_vec() }
}

fn parse_error(body: &str) -> String {
    serde_json::from_str::<serde_json::Value>(body).unwrap_err().to_string()
}

#[test]
fn success_is_a_status_from_200_to_299() {
    assert!(!status_is_success(0));
    assert!(!status_is_success(100));
    assert!(!status_is_success(199));
    assert!(status_is_success(200));
    assert!(status_is_success(204));
    assert!(status_is_success(299));
    assert!(!status_is_success(300));
    assert!(!status_is_success(404));
    assert!(!status_is_success(500));
    assert!(!status_is_success(u16::MAX));
}

#[test]
fn an_error_status_is_an_upstream_error_whatever_the_body() {
    let bodies = ["", "{}", r#"{"success": true, "tags": ["a"]}"#, "<html>oops</html>", "\u{0}"];
    for op in OPERATIONS {
        for body in bodies {
            let e = complete(op, &replied(500, body)).unwrap_err();
            assert_eq!(e.kind(), ErrorKind::UpstreamError);
            assert_eq!(e.status(), Some(500));
            let expected = match op.target() {
                Target::Backend => "Backend error: 500",
                Target::InferenceServer => "Inference server error: 500",
            };
            assert_eq!(e.message(), expected);
        }
    }
}

#[test]
fn an_upstream_error_carries_its_status() {
    for status in [0, 100, 199, 300, 301, 400, 404, 418, 503, 999, 65535] {
        let transport = replied(status, r#"{"success": true}"#);
        assert_eq!(
            process_file_for_tags(&transport),
            Err(BridgeError::UpstreamError {
                status,
                message: format!("Backend error: {}", status)
            })
        );
        assert_eq!(
            send_prompt(&transport),
            Err(BridgeError::UpstreamError {
                status,
                message: format!("Inference server error: {}", status)
            })
        );
        assert_eq!(
            refuse(Operation::ProcessFileForTags, status),
            process_file_for_tags(&transport).err()
        );
    }
}

#[test]
fn a_status_of_success_is_not_refused() {
    for status in [200, 201, 204, 250, 299] {
        for op in OPERATIONS {
            assert_eq!(refuse(op, status), None);
        }
        assert!(process_file_for_tags(&replied(status, "{}")).is_ok());
    }
}

#[test]
fn a_timeout_on_a_folder_is_a_connection_failure() {
    assert_eq!(Operation::ProcessFolderForTags.timeout_secs(), 600);
    let transport = Transport::Failed("operation timed out".to_string());
    let expected = BridgeError::ConnectionFailure {
        message: "Request failed: operation timed out".to_string(),
    };
    assert_eq!(process_folder_for_tags(&transport), Err(expected.clone()));
    assert_eq!(complete(Operation::ProcessFolderForTags, &transport), Err(expected.clone()));
    assert_eq!(expected.kind(), ErrorKind::ConnectionFailure);
    assert_eq!(expected.status(), None);
}

#[test]
fn no_reply_is_a_connection_failure_for_every_operation() {
    let transport = Transport::Failed("connection refused".to_string());
    for op in OPERATIONS {
        assert_eq!(
            complete(op, &transport),
            Err(BridgeError::ConnectionFailure {
                message: "Request failed: connection refused".to_string()
            })
        );
        assert_eq!(receive(op, &transport).unwrap_err().kind(), ErrorKind::ConnectionFailure);
    }
    assert_eq!(
        complete(Operation::SendPrompt, &Transport::Failed(String::new())),
        Err(BridgeError::ConnectionFailure { message: "Request failed: ".to_string() })
    );
}

#[test]
fn a_body_that_is_no_json_is_malformed() {
    for body in ["", "not json", "{", r#"{"tags": ["a",]}"#, "{} {}", "\u{feff}{}", "'x'"] {
        let expected = BridgeError::MalformedResponse {
            message: format!("Failed to parse response: {}", parse_error(body)),
        };
        for op in OPERATIONS {
            assert_eq!(complete(op, &replied(200, body)), Err(expected.clone()), "{:?}", body);
        }
    }
}

#[test]
fn a_malformed_body_names_the_reason() {
    assert_eq!(
        process_file_for_tags(&replied(200, "")),
        Err(BridgeError::MalformedResponse {
            message: "Failed to parse response: EOF while parsing a value at line 1 column 0"
                .to_string()
        })
    );
    assert_eq!(
        get_folder_files(&replied(201, "[1,")),
        Err(BridgeError::MalformedResponse {
            message: "Failed to parse response: EOF while parsing a value at line 1 column 3"
                .to_string()
        })
    );
}

#[test]
fn bytes_that_are_no_text_are_malformed() {
    let transport = Transport::Replied { status: 200, body: vec![0xff, 0xfe, 0x00] };
    let e = process_file_for_tags(&transport).unwrap_err();
    assert_eq!(e.kind(), ErrorKind::MalformedResponse);
    assert!(e.message().starts_with("Failed to parse response: "));
    let transport = Transport::Replied { status: 200, body: vec![b'"', 0xff, b'"'] };
    let e = get_folder_files(&transport).unwrap_err();
    assert_eq!(e.kind(), ErrorKind::MalformedResponse);
}

#[test]
fn the_parser_reason_is_carried_into_the_failure() {
    assert_eq!(accept(Ok(Json::Bool(true))), Ok(Json::Bool(true)));
    assert_eq!(
        accept(Err("expected value at line 1 column 1".to_string())),
        Err(BridgeError::MalformedResponse {
            message: "Failed to parse response: expected value at line 1 column 1".to_string()
        })
    );
}

#[test]
fn every_outcome_is_of_exactly_one_kind() {
    let transports = [
        (Transport::Failed("timed out".to_string()), Some(ErrorKind::ConnectionFailure)),
        (replied(500, "{}"), Some(ErrorKind::UpstreamError)),
        (replied(404, "not json"), Some(ErrorKind::UpstreamError)),
        (replied(200, "not json"), Some(ErrorKind::MalformedResponse)),
        (replied(200, r#"{"response": "r"}"#), None),
    ];
    for op in OPERATIONS {
        for (transport, kind) in &transports {
            let outcome = complete(op, transport);
            assert_eq!(outcome.as_ref().err().map(|e| e.kind()), *kind);
            assert_eq!(outcome.is_ok(), kind.is_none());
        }
    }
}

#[test]
fn a_probe_that_failed_shows_a_service_that_is_down() {
    let down = |message: &str| StatusResult {
        connected: false,
        dependency_connected: false,
        error_message: Some(message.to_string()),
    };
    let probe = check_backend_status(&Transport::Failed("connection refused".to_string()));
    assert_eq!(
        status_report(Target::Backend, probe),
        down("Cannot connect to backend. Make sure the Python API is running.")
    );
    let probe = check_backend_status(&replied(500, "{}"));
    assert_eq!(status_report(Target::Backend, probe), down("Backend error: 500"));
    let probe = check_backend_status(&replied(200, "<html>"));
    assert_eq!(
        status_report(Target::Backend, probe),
        down("Backend responded but returned invalid data.")
    );
    let probe = check_inference_status(&Transport::Failed("timed out".to_string()));
    assert_eq!(
        status_report(Target::InferenceServer, probe),
        down("Cannot connect to the inference server. Make sure Ollama is running.")
    );
    let probe = check_inference_status(&replied(503, ""));
    assert_eq!(status_report(Target::InferenceServer, probe), down("Inference server error: 503"));
    let probe = check_inference_status(&replied(200, "ok"));
    assert_eq!(
        status_report(Target::InferenceServer, probe),
        down("Inference server responded but returned invalid data.")
    );
    let refused = Err(BridgeError::ValidationError {
        message: "Missing required argument: x".to_string(),
    });
    assert_eq!(status_report(Target::Backend, refused), down("Missing required argument: x"));
    assert_eq!(down("x").health(), Health::Unreachable);
}

#[test]
fn a_probe_that_succeeded_is_shown_as_it_is() {
    let probe = check_backend_status(&replied(200, r#"{"ollama_connected": true}"#));
    assert_eq!(
        status_report(Target::Backend, probe),
        StatusResult { connected: true, dependency_connected: true, error_message: None }
    );
    let probe = check_backend_status(&replied(200, r#"{"ollama_connected": false}"#));
    assert_eq!(
        status_report(Target::Backend, probe),
        StatusResult {
            connected: true,
            dependency_connected: false,
            error_message: Some(
                "Ollama is not running. Please start Ollama and try again.".to_string()
            ),
        }
    );
}

#[test]
fn a_failure_tells_its_kind_message_and_status() {
    let e = BridgeError::UpstreamError { status: 502, message: "Backend error: 502".to_string() };
    assert_eq!(e.kind(), ErrorKind::UpstreamError);
    assert_eq!(e.message(), "Backend error: 502");
    assert_eq!(e.status(), Some(502));
    let e = BridgeError::ValidationError { message: "m".to_string() };
    assert_eq!(e.kind(), ErrorKind::ValidationError);
    assert_eq!(e.message(), "m");
    assert_eq!(e.status(), None);
    let e = BridgeError::MalformedResponse { message: "p".to_string() };
    assert_eq!(e.kind(), ErrorKind::MalformedResponse);
    assert_eq!(e.message(), "p");
    let e = BridgeError::ConnectionFailure { message: "c".to_string() };
    assert_eq!(e.kind(), ErrorKind::ConnectionFailure);
    assert_eq!(e.message(), "c");
}

#[test]
fn a_shown_status_is_coherent() {
    let transports = [
        Transport::Failed("timed out".to_string()),
        replied(500, "{}"),
        replied(200, "not json"),
        replied(200, "{}"),
        replied(200, r#"{"ollama_connected": true}"#),
        replied(200, r#"{"ollama_connected": false}"#),
    ];
    for transport in &transports {
        let shown = [
            status_report(Target::Backend, check_backend_status(transport)),
            status_report(Target::InferenceServer, check_inference_status(transport)),
        ];
        for status in shown {
            assert!(status.connected || !status.dependency_connected);
            assert_eq!(status.error_message.is_none(), status.health() == Health::Healthy);
        }
    }
}
