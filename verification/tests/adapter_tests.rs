use azure_fn_adapter::{
    AzureFnLoggerExt, AzureFnMiddleware, DecodeError, DeploymentConfig, ErrorDetail, IdSource,
    InnerResponse, LogMiddleware, OutboundShape, RunOnceMarker,
};

fn config(id_source: IdSource, shape: OutboundShape, force: bool) -> DeploymentConfig {
    DeploymentConfig { id_source, outbound_shape: shape, force_success_status: force }
}

#[test]
fn round_trip_extraction() {
    let mw = AzureFnMiddleware::new();
    let raw = "{\"Data\":{\"req\":{\"Body\":\"hello\"}},\"Metadata\":{\"Id\":\"123\"}}";
    let decoded = mw.decode(raw, None).expect("envelope should decode");
    assert_eq!(decoded.inner_body, "hello");
    let mut logger = decoded.logger;
    logger.log("event".to_string());
    let logs = logger.try_finalize().expect("no shared handles");
    assert_eq!(logs, vec!["123 event".to_string()]);
}

#[test]
fn missing_id_fallback() {
    let mw = AzureFnMiddleware::new();
    let raw = "{\"Data\":{\"req\":{\"Body\":\"hello\"}}}";
    let decoded = mw.decode(raw, None).expect("envelope should decode");
    assert_eq!(decoded.inner_body, "hello");
    let mut logger = decoded.logger;
    logger.log("event".to_string());
    let logs = logger.try_finalize().expect("no shared handles");
    assert_eq!(logs, vec!["(id missing) event".to_string()]);
}

#[test]
fn missing_body_diagnostic() {
    let mw = AzureFnMiddleware::new();
    let raw = "{\"Metadata\":{\"Id\":\"9\"}}";
    let decoded = mw.decode(raw, None).expect("envelope should decode");
    assert_eq!(decoded.inner_body, raw);
    let logs = decoded.logger.try_finalize().expect("no shared handles");
    assert_eq!(logs.len(), 1);
    assert!(logs[0].contains("not found"));
    assert!(logs[0].starts_with("9 "));
}

#[test]
fn wrong_type_body_diagnostic() {
    let mw = AzureFnMiddleware::new();
    let raw = "{\"Data\":{\"req\":{\"Body\":42}},\"Metadata\":{\"Id\":\"9\"}}";
    let decoded = mw.decode(raw, None).expect("envelope should decode");
    assert_eq!(decoded.inner_body, raw);
    let logs = decoded.logger.try_finalize().expect("no shared handles");
    assert_eq!(logs.len(), 1);
    assert!(logs[0].contains("not a String"));
}

#[test]
fn malformed_envelope_is_terminal() {
    let mw = AzureFnMiddleware::new();
    let err = mw.decode("not an envelope", None).expect_err("must not decode");
    assert_eq!(err, DecodeError::MalformedJson);
}

#[test]
fn header_id_deployment() {
    let mw = AzureFnMiddleware::with_config(config(
        IdSource::TransportHeader,
        OutboundShape::Outputs,
        false,
    ));
    let raw = "{\"Data\":{\"req\":{\"Body\":\"hi\"}},\"Metadata\":{\"Id\":\"ignored\"}}";
    let decoded = mw.decode(raw, Some("abc-42".to_string())).expect("decodes");
    let mut logger = decoded.logger;
    logger.log("x".to_string());
    let logs = logger.try_finalize().expect("no shared handles");
    assert_eq!(logs, vec!["abc-42 x".to_string()]);
}

#[test]
fn header_id_deployment_missing_header() {
    let mw = AzureFnMiddleware::with_config(config(
        IdSource::TransportHeader,
        OutboundShape::Outputs,
        false,
    ));
    let raw = "{\"Data\":{\"req\":{\"Body\":\"hi\"}},\"Metadata\":{\"Id\":\"ignored\"}}";
    let decoded = mw.decode(raw, None).expect("decodes");
    let mut logger = decoded.logger;
    logger.log("x".to_string());
    let logs = logger.try_finalize().expect("no shared handles");
    assert_eq!(logs, vec!["(id missing) x".to_string()]);
}

#[test]
fn outputs_envelope_shape() {
    let mw = AzureFnMiddleware::new();
    let raw = "{\"Data\":{\"req\":{\"Body\":\"hello\"}},\"Metadata\":{\"Id\":\"123\"}}";
    let decoded = mw.decode(raw, None).expect("decodes");
    let mut logger = decoded.logger;
    logger.log("first".to_string());
    logger.log("second".to_string());
    let resp = InnerResponse {
        status: 200,
        headers: vec![("x-test".to_string(), vec!["a".to_string(), "b".to_string()])],
        body: "ok".to_string(),
    };
    let encoded = mw.encode(resp, logger).expect("sole owner");
    assert_eq!(encoded.status, 200);
    assert_eq!(encoded.content_type, "application/json");
    let v: serde_json::Value = serde_json::from_str(&encoded.body).expect("encoder emits JSON");
    assert_eq!(v.pointer("/Outputs/res/statusCode").unwrap().as_i64(), Some(200));
    assert_eq!(v.pointer("/Outputs/res/body").unwrap().as_str(), Some("ok"));
    assert_eq!(v.pointer("/Outputs/res/headers/x-test").unwrap().as_str(), Some("a, b"));
    let logs = v.pointer("/Logs").unwrap().as_array().unwrap();
    assert_eq!(logs.len(), 2);
    assert_eq!(logs[0].as_str(), Some("123 first"));
    assert_eq!(logs[1].as_str(), Some("123 second"));
}

#[test]
fn return_value_envelope_shape() {
    let mw = AzureFnMiddleware::with_config(config(
        IdSource::MetadataPath,
        OutboundShape::ReturnValue,
        false,
    ));
    let raw = "{\"Data\":{\"req\":{\"Body\":\"hello\"}},\"Metadata\":{\"Id\":\"7\"}}";
    let decoded = mw.decode(raw, None).expect("decodes");
    let mut logger = decoded.logger;
    logger.log("only".to_string());
    let resp = InnerResponse { status: 503, headers: vec![], body: "done".to_string() };
    let encoded = mw.encode(resp, logger).expect("sole owner");
    assert_eq!(encoded.status, 503);
    let v: serde_json::Value = serde_json::from_str(&encoded.body).expect("encoder emits JSON");
    assert_eq!(v.pointer("/ReturnValue").unwrap().as_str(), Some("done"));
    let logs = v.pointer("/Logs").unwrap().as_array().unwrap();
    assert_eq!(logs.len(), 1);
    assert_eq!(logs[0].as_str(), Some("7 only"));
    assert!(v.pointer("/Outputs").is_none());
}

#[test]
fn status_override_policy() {
    let mw = AzureFnMiddleware::with_config(config(
        IdSource::MetadataPath,
        OutboundShape::Outputs,
        true,
    ));
    let raw = "{\"Data\":{\"req\":{\"Body\":\"hello\"}},\"Metadata\":{\"Id\":\"123\"}}";
    let decoded = mw.decode(raw, None).expect("decodes");
    let resp = InnerResponse { status: 404, headers: vec![], body: "missing".to_string() };
    let encoded = mw.encode(resp, decoded.logger).expect("sole owner");
    assert_eq!(encoded.status, 200);
    let v: serde_json::Value = serde_json::from_str(&encoded.body).expect("encoder emits JSON");
    assert_eq!(v.pointer("/Outputs/res/statusCode").unwrap().as_i64(), Some(404));
}

#[test]
fn encode_refused_while_shared() {
    let mw = AzureFnMiddleware::new();
    let raw = "{\"Data\":{\"req\":{\"Body\":\"hello\"}},\"Metadata\":{\"Id\":\"123\"}}";
    let decoded = mw.decode(raw, None).expect("decodes");
    let mut logger = decoded.logger;
    logger.clone_handle();
    let resp = InnerResponse { status: 200, headers: vec![], body: "ok".to_string() };
    assert!(mw.encode(resp, logger).is_err());
}

#[test]
fn envelope_escapes_body_and_logs() {
    let mw = AzureFnMiddleware::new();
    let raw = "{\"Data\":{\"req\":{\"Body\":\"hello\"}},\"Metadata\":{\"Id\":\"id \\\"x\\\"\"}}";
    let decoded = mw.decode(raw, None).expect("decodes");
    let mut logger = decoded.logger;
    logger.log("line with \"quotes\" and\nnewline and \u{1} control".to_string());
    let tricky_body = "a\\b\"c\td\r\n\u{1f}".to_string();
    let resp = InnerResponse { status: 200, headers: vec![], body: tricky_body.clone() };
    let encoded = mw.encode(resp, logger).expect("sole owner");
    let v: serde_json::Value = serde_json::from_str(&encoded.body).expect("encoder emits JSON");
    assert_eq!(v.pointer("/Outputs/res/body").unwrap().as_str(), Some(tricky_body.as_str()));
    let logs = v.pointer("/Logs").unwrap().as_array().unwrap();
    assert_eq!(
        logs[0].as_str(),
        Some("id \"x\" line with \"quotes\" and\nnewline and \u{1} control")
    );
}

#[test]
fn double_mount_wraps_once() {
    // The adapter mounted at two nesting levels of one composed pipeline:
    // each mount consults the request's shared marker before decoding, so
    // only the outer mount transforms, and the final response carries one
    // envelope and one Logs array, not a nested double-wrap.
    let mw = AzureFnMiddleware::new();
    let raw = "{\"Data\":{\"req\":{\"Body\":\"hello\"}},\"Metadata\":{\"Id\":\"1\"}}";
    let mut marker = RunOnceMarker::new();

    assert!(marker.enter_once()); // outer mount: proceeds and decodes
    let decoded = mw.decode(raw, None).expect("decodes");
    assert!(!marker.enter_once()); // inner mount: passes straight through

    // the downstream handler answers; only the outer mount encodes
    let resp = InnerResponse { status: 200, headers: vec![], body: "handled".to_string() };
    let encoded = mw.encode(resp, decoded.logger).expect("sole owner");
    let v: serde_json::Value = serde_json::from_str(&encoded.body).expect("encoder emits JSON");
    assert!(v.get("Logs").is_some());
    assert_eq!(v.pointer("/Outputs/res/body").unwrap().as_str(), Some("handled"));
}

#[test]
fn observer_silent_on_success() {
    let mw = AzureFnMiddleware::new();
    let raw = "{\"Data\":{\"req\":{\"Body\":\"hello\"}},\"Metadata\":{\"Id\":\"1\"}}";
    let decoded = mw.decode(raw, None).expect("decodes");
    let mut logger = decoded.logger;
    let observer = LogMiddleware::new();
    observer.observe(200, "OK", None, 3, &mut logger);
    observer.observe(302, "Found", None, 3, &mut logger);
    let logs = logger.try_finalize().expect("no shared handles");
    assert!(logs.is_empty());
}

#[test]
fn observer_reports_client_error() {
    let mw = AzureFnMiddleware::new();
    let raw = "{\"Data\":{\"req\":{\"Body\":\"hello\"}},\"Metadata\":{\"Id\":\"1\"}}";
    let decoded = mw.decode(raw, None).expect("decodes");
    let mut logger = decoded.logger;
    LogMiddleware::new().observe(404, "Not Found", None, 5, &mut logger);
    let logs = logger.try_finalize().expect("no shared handles");
    assert_eq!(
        logs,
        vec!["1 Client error. status: 404 - Not Found, duration: 5ms".to_string()]
    );
}

#[test]
fn observer_reports_server_error_with_detail() {
    let mw = AzureFnMiddleware::new();
    let raw = "{\"Data\":{\"req\":{\"Body\":\"hello\"}},\"Metadata\":{\"Id\":\"1\"}}";
    let decoded = mw.decode(raw, None).expect("decodes");
    let mut logger = decoded.logger;
    let detail = ErrorDetail { message: "boom".to_string(), error_type: "Fault".to_string() };
    LogMiddleware::new().observe(500, "Internal Server Error", Some(detail), 12, &mut logger);
    let logs = logger.try_finalize().expect("no shared handles");
    assert_eq!(
        logs,
        vec![
            "1 Internal error. message: boom, error_type: Fault, status: 500 - Internal Server Error, duration: 12ms"
                .to_string()
        ]
    );
}
