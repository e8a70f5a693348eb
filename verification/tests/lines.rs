use vt_lookup::lines::{placeholder_line, refusal_line, response_line};
use vt_lookup::request::lookup_request;

#[test]
fn placeholder_is_exact() {
    assert_eq!(placeholder_line(), "(no ninth entry)");
}

#[test]
fn response_line_holds_token_and_document() {
    assert_eq!(
        response_line("hash1", "{\n  \"data\": \"ok\"\n}"),
        "Response for hash hash1: {\n  \"data\": \"ok\"\n}"
    );
}

#[test]
fn refusal_line_holds_token_and_status() {
    assert_eq!(refusal_line("hash1", "404 Not Found"), "Failed to query hash hash1: 404 Not Found");
}

#[test]
fn request_goes_to_the_files_endpoint_with_the_key() {
    let request = lookup_request("SECRET", "abc123");
    assert_eq!(request.url, "https://www.virustotal.com/api/v3/files/abc123");
    assert_eq!(request.header_name, "x-apikey");
    assert_eq!(request.header_value, "SECRET");
}

#[test]
fn token_is_put_into_the_address_as_it_is() {
    let request = lookup_request("k", "a/b?c=d%20#e");
    assert_eq!(request.url, "https://www.virustotal.com/api/v3/files/a/b?c=d%20#e");
}
