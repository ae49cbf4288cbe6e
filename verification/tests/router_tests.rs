use http1_router::router::route;

#[test]
fn get_index_full_request() {
    let response = route("GET / HTTP/1.1\r\nHost: x\r\n\r\n");
    assert!(response.starts_with("HTTP/1.1 200 OK"));
    assert!(response.ends_with("Welcome!"));
}

#[test]
fn get_index_exact_response() {
    assert_eq!(
        route("GET / HTTP/1.0\r\n"),
        "HTTP/1.1 200 OK\r\nContent-Type: text/plain\r\n\r\nWelcome!"
    );
}

#[test]
fn get_hello_body() {
    let response = route("GET /hello HTTP/1.1\r\n\r\n");
    assert!(response.ends_with("Hello HTTP1"));
    assert_eq!(
        response,
        "HTTP/1.1 200 OK\r\nContent-Type: text/plain\r\n\r\nHello HTTP1"
    );
}

#[test]
fn delete_hello_is_not_found() {
    let response = route("DELETE /hello HTTP/1.1\r\n\r\n");
    assert!(response.starts_with("HTTP/1.1 404 NOT FOUND"));
}

#[test]
fn get_unknown_path_is_not_found() {
    let response = route("GET /unknown HTTP/1.1\r\n\r\n");
    assert!(response.starts_with("HTTP/1.1 404 NOT FOUND"));
    assert!(response.ends_with("Not Found"));
}

#[test]
fn post_index_is_not_found() {
    let response = route("POST / HTTP/1.1\r\n\r\n");
    assert!(response.starts_with("HTTP/1.1 404 NOT FOUND"));
}

#[test]
fn empty_request_is_not_found() {
    let response = route("");
    assert!(response.starts_with("HTTP/1.1 404 NOT FOUND"));
    assert!(response.ends_with("Not Found"));
}

#[test]
fn whitespace_only_request_is_not_found() {
    assert!(route("   \r\n").starts_with("HTTP/1.1 404 NOT FOUND"));
    assert!(route("\r\n\r\n").starts_with("HTTP/1.1 404 NOT FOUND"));
    assert!(route("\t \t").starts_with("HTTP/1.1 404 NOT FOUND"));
}

#[test]
fn garbage_request_is_not_found() {
    assert!(route("こんにちは").starts_with("HTTP/1.1 404 NOT FOUND"));
    assert!(route("get / HTTP/1.1\r\n").starts_with("HTTP/1.1 404 NOT FOUND"));
}

#[test]
fn missing_path_defaults_to_index() {
    // a lone method token leaves the path at its default "/"
    assert!(route("GET\r\n").starts_with("HTTP/1.1 200 OK"));
    assert!(route("GET").ends_with("Welcome!"));
}

#[test]
fn extra_whitespace_is_skipped() {
    let response = route("  GET   /   HTTP/1.1\r\nHost: x\r\n");
    assert!(response.starts_with("HTTP/1.1 200 OK"));
    assert!(response.ends_with("Welcome!"));
}

#[test]
fn unicode_whitespace_separates_tokens() {
    let response = route("GET\u{a0}/ HTTP/1.1\r\n");
    assert!(response.starts_with("HTTP/1.1 200 OK"));
    assert!(response.ends_with("Welcome!"));
    assert!(route("GET\u{3000}/hello\u{2028}HTTP/1.1\r\n").ends_with("Hello HTTP1"));
    assert!(route("\u{2000}GET\u{2009}/ HTTP/1.1\r\n").ends_with("Welcome!"));
}

#[test]
fn second_line_does_not_affect_routing() {
    let response = route("DELETE /hello HTTP/1.1\r\nGET / HTTP/1.1\r\n");
    assert!(response.starts_with("HTTP/1.1 404 NOT FOUND"));
}

#[test]
fn trailing_nul_padding_is_harmless() {
    // a fixed read buffer hands the router its unused zero bytes too
    let mut request = String::from("GET /hello HTTP/1.1\r\n\r\n");
    request.push_str(&"\u{0}".repeat(64));
    assert!(route(&request).ends_with("Hello HTTP1"));
}

#[test]
fn long_line_truncated_after_tokens_still_routes() {
    // the path is complete within the first 1024 bytes, so the truncated
    // read still matches the index route
    let mut request = String::from("GET / ");
    request.push_str(&"a".repeat(2000));
    let prefix = &request[..1024];
    let response = route(prefix);
    assert!(response.starts_with("HTTP/1.1 200 OK"));
    assert!(response.ends_with("Welcome!"));
}

#[test]
fn long_line_truncated_inside_path_still_routes() {
    // truncation cuts the path token short; routing still answers, with 404
    let mut request = String::from("GET /");
    request.push_str(&"a".repeat(2000));
    request.push_str(" HTTP/1.1\r\n\r\n");
    let prefix = &request[..1024];
    let response = route(prefix);
    assert!(response.starts_with("HTTP/1.1 404 NOT FOUND"));
}
