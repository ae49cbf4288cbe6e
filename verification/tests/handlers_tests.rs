use http1_router::handlers::{hello, index, not_found};

#[test]
fn index_exact_text() {
    assert_eq!(
        index(),
        "HTTP/1.1 200 OK\r\nContent-Type: text/plain\r\n\r\nWelcome!"
    );
}

#[test]
fn hello_exact_text() {
    assert_eq!(
        hello(),
        "HTTP/1.1 200 OK\r\nContent-Type: text/plain\r\n\r\nHello HTTP1"
    );
}

#[test]
fn not_found_exact_text() {
    assert_eq!(
        not_found(),
        "HTTP/1.1 404 NOT FOUND\r\nContent-Type: text/plain\r\n\r\nNot Found"
    );
}
