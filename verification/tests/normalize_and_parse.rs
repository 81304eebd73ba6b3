use mockcore::classify_content_type;
use mockcore::normalize_method;
use mockcore::normalize_path;
use mockcore::parse_u16;
use mockcore::resolve_status_alias;
use mockcore::BodyKind;

#[test]
fn method_is_uppercased() {
    assert_eq!(normalize_method("get"), "GET");
    assert_eq!(normalize_method("PoSt"), "POST");
    assert_eq!(normalize_method("DELETE"), "DELETE");
    assert_eq!(normalize_method(""), "");
    assert_eq!(normalize_method("x-7_b"), "X-7_B");
}

#[test]
fn path_gets_leading_slash() {
    assert_eq!(normalize_path("foo"), "/foo");
    assert_eq!(normalize_path("/foo"), "/foo");
    assert_eq!(normalize_path(""), "/");
    assert_eq!(normalize_path("//x"), "//x");
}

#[test]
fn normalizing_twice_equals_normalizing_once() {
    for m in ["get", "PoSt", "", "ümlaut", "a1-b_c", "GET"] {
        let once = normalize_method(m);
        let twice = normalize_method(&once);
        assert_eq!(twice, once);
    }
    for p in ["foo", "/foo", "", "//x", "a/b/c"] {
        let once = normalize_path(p);
        let twice = normalize_path(&once);
        assert_eq!(twice, once);
    }
}

#[test]
fn parse_u16_accepts_status_codes() {
    assert_eq!(parse_u16("200"), Some(200));
    assert_eq!(parse_u16("+404"), Some(404));
    assert_eq!(parse_u16("0"), Some(0));
    assert_eq!(parse_u16("65535"), Some(65535));
}

#[test]
fn parse_u16_rejects_what_std_rejects() {
    assert_eq!(parse_u16(""), None);
    assert_eq!(parse_u16("+"), None);
    assert_eq!(parse_u16("-1"), None);
    assert_eq!(parse_u16("12a"), None);
    assert_eq!(parse_u16("1 2"), None);
    assert_eq!(parse_u16("65536"), None);
    assert_eq!(parse_u16("99999999999999999999"), None);
    assert_eq!(parse_u16("++1"), None);
}

#[test]
fn content_type_classification() {
    assert_eq!(classify_content_type("application/json"), BodyKind::Json);
    assert_eq!(
        classify_content_type("application/json; charset=utf-8"),
        BodyKind::Json
    );
    assert_eq!(
        classify_content_type("multipart/form-data; boundary=xyz"),
        BodyKind::Multipart
    );
    assert_eq!(classify_content_type("text/plain"), BodyKind::Unsupported);
    assert_eq!(classify_content_type(""), BodyKind::Unsupported);
    assert_eq!(classify_content_type("application/jso"), BodyKind::Unsupported);
}

#[test]
fn status_alias_first_present_wins() {
    assert_eq!(resolve_status_alias(Some(201), Some(202), Some(203)), 201);
    assert_eq!(resolve_status_alias(None, Some(202), Some(203)), 202);
    assert_eq!(resolve_status_alias(None, None, Some(203)), 203);
    assert_eq!(resolve_status_alias(None, None, None), 200);
}
