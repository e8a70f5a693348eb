use vt_lookup::error::RunError;
use vt_lookup::json::render_body;

#[test]
fn object_is_laid_out_with_two_spaces() {
    let shown = render_body(b"{\"data\":\"ok\"}").unwrap();
    assert_eq!(shown, "{\n  \"data\": \"ok\"\n}");
}

#[test]
fn nested_document_is_indented_by_depth() {
    let shown = render_body(b"{\"b\":[1,2],\"a\":{\"c\":null}}").unwrap();
    assert_eq!(
        shown,
        "{\n  \"a\": {\n    \"c\": null\n  },\n  \"b\": [\n    1,\n    2\n  ]\n}"
    );
}

#[test]
fn scalar_document_is_itself() {
    assert_eq!(render_body(b" 42 ").unwrap(), "42");
    assert_eq!(render_body(b"\"x\"").unwrap(), "\"x\"");
    assert_eq!(render_body(b"[]").unwrap(), "[]");
}

#[test]
fn body_that_is_no_json_is_a_failure() {
    match render_body(b"<html>nope</html>") {
        Err(RunError::Body(detail)) => assert_eq!(detail, "expected value at line 1 column 1"),
        other => panic!("unexpected outcome: {:?}", other),
    }
    assert!(matches!(render_body(b""), Err(RunError::Body(_))));
    assert!(matches!(render_body(b"{\"data\":"), Err(RunError::Body(_))));
    assert!(matches!(render_body(b"{} trailing"), Err(RunError::Body(_))));
    assert!(matches!(render_body(&[0xff, 0xfe]), Err(RunError::Body(_))));
}
