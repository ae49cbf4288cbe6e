//! The three fixed responses the server can give: a welcome page, a hello
//! page, and a not-found fallback. Each response is a complete HTTP/1.1
//! message: a status line, one content-type header, a blank line, and a body.

use vstd::prelude::*;

verus! {

/// The full text of a response with the given status line and body.
pub open spec fn make_response(status: Seq<char>, body: Seq<char>) -> Seq<char> {
    "HTTP/1.1 "@ + status + "\r\nContent-Type: text/plain\r\n\r\n"@ + body
}

/// The response for the index page: 200 with body "Welcome!".
pub open spec fn index_response() -> Seq<char> {
    make_response("200 OK"@, "Welcome!"@)
}

/// The response for the hello page: 200 with body "Hello HTTP1".
pub open spec fn hello_response() -> Seq<char> {
    make_response("200 OK"@, "Hello HTTP1"@)
}

/// The response for every unmatched request: 404 with body "Not Found".
pub open spec fn not_found_response() -> Seq<char> {
    make_response("404 NOT FOUND"@, "Not Found"@)
}

pub fn index() -> (response: String)
    ensures
        response@ == index_response(),
{
    let response = "HTTP/1.1 200 OK\r\nContent-Type: text/plain\r\n\r\nWelcome!".to_owned();
    proof {
        reveal_strlit("HTTP/1.1 200 OK\r\nContent-Type: text/plain\r\n\r\nWelcome!");
        reveal_strlit("HTTP/1.1 ");
        reveal_strlit("200 OK");
        reveal_strlit("\r\nContent-Type: text/plain\r\n\r\n");
        reveal_strlit("Welcome!");
        assert(response@ =~= index_response());
    }
    response
}

pub fn hello() -> (response: String)
    ensures
        response@ == hello_response(),
{
    let response = "HTTP/1.1 200 OK\r\nContent-Type: text/plain\r\n\r\nHello HTTP1".to_owned();
    proof {
        reveal_strlit("HTTP/1.1 200 OK\r\nContent-Type: text/plain\r\n\r\nHello HTTP1");
        reveal_strlit("HTTP/1.1 ");
        reveal_strlit("200 OK");
        reveal_strlit("\r\nContent-Type: text/plain\r\n\r\n");
        reveal_strlit("Hello HTTP1");
        assert(response@ =~= hello_response());
    }
    response
}

pub fn not_found() -> (response: String)
    ensures
        response@ == not_found_response(),
{
    let response = "HTTP/1.1 404 NOT FOUND\r\nContent-Type: text/plain\r\n\r\nNot Found".to_owned();
    proof {
        reveal_strlit("HTTP/1.1 404 NOT FOUND\r\nContent-Type: text/plain\r\n\r\nNot Found");
        reveal_strlit("HTTP/1.1 ");
        reveal_strlit("404 NOT FOUND");
        reveal_strlit("\r\nContent-Type: text/plain\r\n\r\n");
        reveal_strlit("Not Found");
        assert(response@ =~= not_found_response());
    }
    response
}

} // verus!
