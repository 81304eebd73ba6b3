use mockcore::dispatch_mock;
use mockcore::error_body;
use mockcore::error_message;
use mockcore::file_define_ack_body;
use mockcore::ok_ack_body;
use mockcore::status_of_error;
use mockcore::AppError;
use mockcore::DispatchDecision;
use mockcore::MockRoute;
use mockcore::MockStore;
use mockcore::MultipartForm;
use mockcore::ResponseData;
use mockcore::ResponseType;
use mockcore::WirePayload;

fn mock_with(rt: ResponseType, data: ResponseData, status: u16) -> MockRoute {
    MockRoute {
        id: None,
        method: "GET".to_string(),
        path: "/x".to_string(),
        http_status_code: status,
        response_type: rt,
        response_data: data,
    }
}

fn respond(rt: ResponseType, data: ResponseData, status: u16) -> (u16, WirePayload) {
    match dispatch_mock(&mock_with(rt, data, status), &None) {
        DispatchDecision::Respond(r) => (r.status, r.payload),
        other => panic!("expected a finished response, got {:?}", other),
    }
}

#[test]
fn multipart_gathers_fields_in_any_order() {
    let mut form = MultipartForm::new();
    form.file_field(Some("report.pdf".to_string()), vec![1, 2, 3]);
    form.text_field("path", "p".to_string());
    form.text_field("method", "post".to_string());
    form.text_field("response_type", "json".to_string());
    form.text_field("unknown", "zzz".to_string());
    let (method, path, status, name, bytes) = form.finish().expect("form is complete");
    assert_eq!(method, "post");
    assert_eq!(path, "p");
    assert_eq!(status, 200);
    assert_eq!(name, "report.pdf");
    assert_eq!(bytes, vec![1, 2, 3]);
}

#[test]
fn multipart_status_keeps_the_first_parseable_alias() {
    let mut form = MultipartForm::new();
    form.text_field("status", "abc".to_string());
    form.text_field("status_code", "418".to_string());
    form.text_field("http_status_code", "500".to_string());
    form.text_field("method", "get".to_string());
    form.text_field("path", "p".to_string());
    form.file_field(None, vec![]);
    let (_, _, status, name, bytes) = form.finish().expect("form is complete");
    assert_eq!(status, 418);
    assert_eq!(name, "upload.bin");
    assert_eq!(bytes, Vec::<u8>::new());
}

#[test]
fn multipart_later_method_and_file_win() {
    let mut form = MultipartForm::new();
    form.text_field("method", "get".to_string());
    form.text_field("method", "put".to_string());
    form.text_field("path", "p".to_string());
    form.file_field(Some("a".to_string()), vec![1]);
    form.file_field(Some("b".to_string()), vec![2]);
    let (method, _, _, name, bytes) = form.finish().expect("form is complete");
    assert_eq!(method, "put");
    assert_eq!(name, "b");
    assert_eq!(bytes, vec![2]);
}

#[test]
fn multipart_requires_method_path_and_file() {
    let mut form = MultipartForm::new();
    form.text_field("method", "get".to_string());
    form.text_field("path", "p".to_string());
    assert_eq!(form.finish().unwrap_err(), AppError::MissingFields);

    let mut form = MultipartForm::new();
    form.text_field("method", "get".to_string());
    form.file_field(None, vec![1]);
    assert_eq!(form.finish().unwrap_err(), AppError::MissingFields);

    let mut form = MultipartForm::new();
    form.text_field("path", "p".to_string());
    form.file_field(None, vec![1]);
    assert_eq!(form.finish().unwrap_err(), AppError::MissingFields);
}

#[test]
fn json_type_serves_the_payload_as_json() {
    let (status, payload) = respond(
        ResponseType::Json,
        ResponseData::Json("{\"a\":[1,2]}".to_string()),
        203,
    );
    assert_eq!(status, 203);
    match payload {
        WirePayload::Json { body } => assert_eq!(body, "{\"a\":[1,2]}"),
        other => panic!("expected json, got {:?}", other),
    }
}

#[test]
fn json_type_quotes_textual_payloads() {
    let (_, payload) = respond(
        ResponseType::Json,
        ResponseData::Text("he said \"hi\"\n".to_string()),
        200,
    );
    match payload {
        WirePayload::Json { body } => assert_eq!(body, "\"he said \\\"hi\\\"\\n\""),
        other => panic!("expected json, got {:?}", other),
    }
}

#[test]
fn json_type_escapes_control_characters() {
    let (_, payload) = respond(
        ResponseType::Json,
        ResponseData::Text("a\u{1}b\u{1f}".to_string()),
        200,
    );
    match payload {
        WirePayload::Json { body } => assert_eq!(body, "\"a\\u0001b\\u001f\""),
        other => panic!("expected json, got {:?}", other),
    }
}

#[test]
fn json_type_renders_a_remote_locator_as_an_object() {
    let (_, payload) = respond(
        ResponseType::Json,
        ResponseData::FileRemote("b".to_string(), "k".to_string()),
        200,
    );
    match payload {
        WirePayload::Json { body } => assert_eq!(body, "{\"bucket\":\"b\",\"key\":\"k\"}"),
        other => panic!("expected json, got {:?}", other),
    }
}

#[test]
fn text_type_serves_textual_payloads_and_empties_the_rest() {
    let (status, payload) = respond(
        ResponseType::Text,
        ResponseData::Text("bar".to_string()),
        201,
    );
    assert_eq!(status, 201);
    match payload {
        WirePayload::PlainText { body } => assert_eq!(body, "bar"),
        other => panic!("expected plain text, got {:?}", other),
    }

    let (_, payload) = respond(
        ResponseType::Text,
        ResponseData::Json("{\"a\":1}".to_string()),
        200,
    );
    match payload {
        WirePayload::PlainText { body } => assert_eq!(body, ""),
        other => panic!("expected plain text, got {:?}", other),
    }

    let (_, payload) = respond(
        ResponseType::Text,
        ResponseData::FileLocal("src/uploads/x".to_string()),
        200,
    );
    match payload {
        WirePayload::PlainText { body } => assert_eq!(body, "src/uploads/x"),
        other => panic!("expected plain text, got {:?}", other),
    }
}

#[test]
fn out_of_range_status_codes_become_200() {
    let (status, _) = respond(
        ResponseType::Text,
        ResponseData::Text("x".to_string()),
        0,
    );
    assert_eq!(status, 200);
    let (status, _) = respond(
        ResponseType::Text,
        ResponseData::Text("x".to_string()),
        99,
    );
    assert_eq!(status, 200);
    let (status, _) = respond(
        ResponseType::Text,
        ResponseData::Text("x".to_string()),
        999,
    );
    assert_eq!(status, 999);
}

#[test]
fn error_statuses_and_bodies() {
    assert_eq!(status_of_error(&AppError::InvalidJson), 400);
    assert_eq!(status_of_error(&AppError::InvalidMultipart), 400);
    assert_eq!(status_of_error(&AppError::MissingFields), 400);
    assert_eq!(status_of_error(&AppError::EmptyPatch), 400);
    assert_eq!(status_of_error(&AppError::UnsupportedMediaType), 415);
    assert_eq!(status_of_error(&AppError::MockNotFound), 404);
    assert_eq!(status_of_error(&AppError::Internal), 500);

    assert_eq!(error_message(&AppError::MockNotFound), "mock not found");
    assert_eq!(
        error_body(&AppError::EmptyPatch),
        "{\"error\":\"no updatable fields provided\"}"
    );
    assert_eq!(error_body(&AppError::InvalidJson), "{\"error\":\"invalid json\"}");
    assert_eq!(
        error_body(&AppError::UnsupportedMediaType),
        "{\"error\":\"unsupported content-type\"}"
    );
    assert_eq!(
        error_body(&AppError::InvalidMultipart),
        "{\"error\":\"invalid multipart\"}"
    );
    assert_eq!(
        error_body(&AppError::MissingFields),
        "{\"error\":\"missing fields\"}"
    );
    assert_eq!(
        error_body(&AppError::MockNotFound),
        "{\"error\":\"mock not found\"}"
    );
    assert_eq!(error_body(&AppError::Internal), "{\"error\":\"internal\"}");
}

#[test]
fn acknowledgement_bodies() {
    assert_eq!(ok_ack_body(), "{\"status\":\"ok\"}");
    assert_eq!(
        file_define_ack_body(&ResponseData::FileLocal("src/uploads/t_a.bin".to_string())),
        "{\"status\":\"ok\",\"file\":\"src/uploads/t_a.bin\"}"
    );
    assert_eq!(
        file_define_ack_body(&ResponseData::FileRemote("b".to_string(), "k".to_string())),
        "{\"status\":\"ok\",\"file\":{\"bucket\":\"b\",\"key\":\"k\"}}"
    );
}

#[test]
fn default_status_code_is_200() {
    assert_eq!(mockcore::default_http_status_code(), 200);
    let _ = MockStore::new();
}
