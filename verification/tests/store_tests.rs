use mockcore::dispatch_lookup;
use mockcore::AppError;
use mockcore::DispatchDecision;
use mockcore::MockPatch;
use mockcore::MockRoute;
use mockcore::MockStore;
use mockcore::ResponseData;
use mockcore::ResponseType;
use mockcore::WirePayload;

fn text_mock(method: &str, path: &str, status: u16, body: &str) -> MockRoute {
    MockRoute {
        id: None,
        method: method.to_string(),
        path: path.to_string(),
        http_status_code: status,
        response_type: ResponseType::Text,
        response_data: ResponseData::Text(body.to_string()),
    }
}

#[test]
fn define_then_dispatch_round_trip() {
    let mut store = MockStore::new();
    store.define(text_mock("GET", "/foo", 201, "bar"));
    match dispatch_lookup(&store, &None, "GET", "/foo") {
        DispatchDecision::Respond(resp) => {
            assert_eq!(resp.status, 201);
            match resp.payload {
                WirePayload::PlainText { body } => assert_eq!(body, "bar"),
                other => panic!("expected plain text, got {:?}", other),
            }
        }
        other => panic!("expected a finished response, got {:?}", other),
    }
}

#[test]
fn lookup_uses_the_normalized_key() {
    let mut store = MockStore::new();
    store.define(text_mock("post", "x", 200, "y"));
    assert!(store.lookup("POST", "/x").is_some());
    assert!(store.lookup("PoSt", "x").is_some());
    assert!(store.lookup("POST", "/y").is_none());
    assert!(store.lookup("GET", "/x").is_none());
}

#[test]
fn define_replaces_wholesale() {
    let mut store = MockStore::new();
    store.define(text_mock("GET", "/a", 201, "first"));
    store.define(MockRoute {
        id: None,
        method: "get".to_string(),
        path: "a".to_string(),
        http_status_code: 202,
        response_type: ResponseType::Json,
        response_data: ResponseData::Json("{\"k\":1}".to_string()),
    });
    let rec = store.lookup("GET", "/a").expect("record should exist");
    assert_eq!(rec.http_status_code, 202);
    assert!(matches!(rec.response_type, ResponseType::Json));
    match &rec.response_data {
        ResponseData::Json(raw) => assert_eq!(raw, "{\"k\":1}"),
        other => panic!("expected json payload, got {:?}", other),
    }
}

#[test]
fn last_writer_wins_in_either_order() {
    let a = text_mock("GET", "/race", 201, "a");
    let b = text_mock("get", "race", 202, "b");

    let mut s1 = MockStore::new();
    s1.define(a.clone());
    s1.define(b.clone());
    let r1 = s1.lookup("GET", "/race").expect("record should exist");
    assert_eq!(r1.http_status_code, 202);

    let mut s2 = MockStore::new();
    s2.define(b.clone());
    s2.define(a.clone());
    let r2 = s2.lookup("GET", "/race").expect("record should exist");
    assert_eq!(r2.http_status_code, 201);

    // Whichever order the two writes land in, the stored record is one of
    // the two submitted payloads, never a mixture.
    for store in [&s1, &s2] {
        let rec = store.lookup("GET", "/race").unwrap();
        let is_a = rec.http_status_code == 201
            && matches!(&rec.response_data, ResponseData::Text(t) if t == "a");
        let is_b = rec.http_status_code == 202
            && matches!(&rec.response_data, ResponseData::Text(t) if t == "b");
        assert!(is_a || is_b);
    }
}

#[test]
fn patch_never_creates() {
    let mut store = MockStore::new();
    let r = store.patch(
        "GET",
        "/missing",
        MockPatch {
            http_status_code: Some(404),
            response_type: None,
            response_data: None,
        },
    );
    assert_eq!(r, Err(AppError::MockNotFound));
    assert!(store.lookup("GET", "/missing").is_none());
}

#[test]
fn empty_patch_is_rejected() {
    let mut store = MockStore::new();
    store.define(text_mock("GET", "/p", 200, "v"));
    let r = store.patch(
        "GET",
        "/p",
        MockPatch {
            http_status_code: None,
            response_type: None,
            response_data: None,
        },
    );
    assert_eq!(r, Err(AppError::EmptyPatch));
    let rec = store.lookup("GET", "/p").unwrap();
    assert_eq!(rec.http_status_code, 200);
}

#[test]
fn patch_touches_only_supplied_fields() {
    let mut store = MockStore::new();
    store.define(text_mock("GET", "/p", 200, "v"));
    let r = store.patch(
        "get",
        "p",
        MockPatch {
            http_status_code: Some(503),
            response_type: None,
            response_data: None,
        },
    );
    assert_eq!(r, Ok(()));
    let rec = store.lookup("GET", "/p").unwrap();
    assert_eq!(rec.http_status_code, 503);
    assert!(matches!(rec.response_type, ResponseType::Text));
    match &rec.response_data {
        ResponseData::Text(t) => assert_eq!(t, "v"),
        other => panic!("payload should be untouched, got {:?}", other),
    }
}

#[test]
fn unmatched_route_gets_the_mocked_fallback() {
    let store = MockStore::new();
    match dispatch_lookup(&store, &None, "POST", "/never-defined") {
        DispatchDecision::Respond(resp) => {
            assert_eq!(resp.status, 200);
            match resp.payload {
                WirePayload::Json { body } => assert_eq!(
                    body,
                    "{\"path\":\"/never-defined\",\"method\":\"POST\",\"status\":\"mocked\"}"
                ),
                other => panic!("expected json, got {:?}", other),
            }
        }
        other => panic!("expected a finished response, got {:?}", other),
    }
}
