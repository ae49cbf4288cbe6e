//! Routing: pick a response from the first line of a raw request.
//!
//! The first line runs up to the first newline. Its first
//! whitespace-delimited token is the method (empty when the line holds no
//! token) and its second is the path (defaulting to "/" when absent). The
//! pairs (GET, /) and (GET, /hello) select their handlers; everything else,
//! a malformed or empty line included, falls back to not-found.

use vstd::prelude::*;

use crate::handlers;

verus! {

/// Whitespace as the router sees it when it splits the request line.
pub open spec fn is_space(c: char) -> bool {
    c == ' ' || c == '\t' || c == '\n' || c == '\u{b}' || c == '\u{c}' || c == '\r'
        || c == '\u{85}' || c == '\u{a0}' || c == '\u{1680}'
        || ('\u{2000}' <= c && c <= '\u{200a}')
        || c == '\u{2028}' || c == '\u{2029}' || c == '\u{202f}' || c == '\u{205f}'
        || c == '\u{3000}'
}

/// The position of the first newline at or after `i`, or the length when
/// there is none.
pub open spec fn line_end_from(s: Seq<char>, i: int) -> int
    decreases s.len() - i,
{
    if i < 0 || i >= s.len() {
        s.len() as int
    } else if s[i] == '\n' {
        i
    } else {
        line_end_from(s, i + 1)
    }
}

/// The position of the first non-whitespace character at or after `i`, or
/// the length when there is none.
pub open spec fn skip_spaces_from(s: Seq<char>, i: int) -> int
    decreases s.len() - i,
{
    if i < 0 || i >= s.len() {
        s.len() as int
    } else if is_space(s[i]) {
        skip_spaces_from(s, i + 1)
    } else {
        i
    }
}

/// The position of the first whitespace character at or after `i`, or the
/// length when there is none: the end of a token that starts at `i`.
pub open spec fn token_end_from(s: Seq<char>, i: int) -> int
    decreases s.len() - i,
{
    if i < 0 || i >= s.len() {
        s.len() as int
    } else if is_space(s[i]) {
        i
    } else {
        token_end_from(s, i + 1)
    }
}

/// The first line of a request: everything before the first newline.
pub open spec fn first_line(request: Seq<char>) -> Seq<char> {
    request.subrange(0, line_end_from(request, 0))
}

/// Where the method token starts within a request line.
pub open spec fn method_start(line: Seq<char>) -> int {
    skip_spaces_from(line, 0)
}

/// Where the method token ends within a request line.
pub open spec fn method_end(line: Seq<char>) -> int {
    token_end_from(line, method_start(line))
}

/// Where the path token starts within a request line.
pub open spec fn path_start(line: Seq<char>) -> int {
    skip_spaces_from(line, method_end(line))
}

/// Where the path token ends within a request line.
pub open spec fn path_end(line: Seq<char>) -> int {
    token_end_from(line, path_start(line))
}

/// The method of a request: the first token of its first line, or empty
/// when the line holds no token.
pub open spec fn method_of(request: Seq<char>) -> Seq<char> {
    let line = first_line(request);
    line.subrange(method_start(line), method_end(line))
}

/// The second token of a request's first line, possibly empty.
pub open spec fn path_token_of(request: Seq<char>) -> Seq<char> {
    let line = first_line(request);
    line.subrange(path_start(line), path_end(line))
}

/// The path of a request: the second token of its first line, or "/" when
/// that token is absent.
pub open spec fn path_of(request: Seq<char>) -> Seq<char> {
    if path_token_of(request).len() == 0 {
        "/"@
    } else {
        path_token_of(request)
    }
}

/// The response owed to a request: the index page for (GET, /), the hello
/// page for (GET, /hello), and not-found for every other pair.
pub open spec fn response_for(request: Seq<char>) -> Seq<char> {
    if method_of(request) == "GET"@ && path_of(request) == "/"@ {
        handlers::index_response()
    } else if method_of(request) == "GET"@ && path_of(request) == "/hello"@ {
        handlers::hello_response()
    } else {
        handlers::not_found_response()
    }
}

/// Every request whose first line is "GET / " followed by anything (a
/// protocol version, usually) gets the 200 response whose body is
/// "Welcome!".
pub proof fn lemma_get_index_line(request: Seq<char>, version: Seq<char>)
    requires
        first_line(request) == "GET / "@ + version,
    ensures
        response_for(request) == handlers::make_response("200 OK"@, "Welcome!"@),
{
    reveal_strlit("GET / ");
    reveal_strlit("GET");
    reveal_strlit("/");
    let line = first_line(request);
    assert(line[0] == 'G' && line[1] == 'E' && line[2] == 'T' && line[3] == ' '
        && line[4] == '/' && line[5] == ' ');
    assert(method_start(line) == 0);
    assert(method_end(line) == 3) by {
        reveal_with_fuel(token_end_from, 5);
    }
    assert(method_of(request) =~= "GET"@);
    assert(path_start(line) == 4) by {
        reveal_with_fuel(skip_spaces_from, 3);
    }
    assert(path_end(line) == 5) by {
        reveal_with_fuel(token_end_from, 3);
    }
    assert(path_token_of(request) =~= "/"@);
}

/// Every request whose first line is "GET /hello " followed by anything
/// gets the 200 response whose body is "Hello HTTP1".
pub proof fn lemma_get_hello_line(request: Seq<char>, version: Seq<char>)
    requires
        first_line(request) == "GET /hello "@ + version,
    ensures
        response_for(request) == handlers::make_response("200 OK"@, "Hello HTTP1"@),
{
    reveal_strlit("GET /hello ");
    reveal_strlit("GET");
    reveal_strlit("/hello");
    let line = first_line(request);
    assert(line[0] == 'G' && line[1] == 'E' && line[2] == 'T' && line[3] == ' '
        && line[4] == '/' && line[5] == 'h' && line[6] == 'e' && line[7] == 'l'
        && line[8] == 'l' && line[9] == 'o' && line[10] == ' ');
    assert(method_start(line) == 0);
    assert(method_end(line) == 3) by {
        reveal_with_fuel(token_end_from, 5);
    }
    assert(method_of(request) =~= "GET"@);
    assert(path_start(line) == 4) by {
        reveal_with_fuel(skip_spaces_from, 3);
    }
    assert(path_end(line) == 10) by {
        reveal_with_fuel(token_end_from, 8);
    }
    assert(path_token_of(request) =~= "/hello"@);
    assert(path_token_of(request) != "/"@) by {
        reveal_strlit("/");
    }
}

/// Every request whose method and path make neither (GET, /) nor
/// (GET, /hello) gets the 404 response whose body is "Not Found".
pub proof fn lemma_unmatched_not_found(request: Seq<char>)
    requires
        !(method_of(request) == "GET"@ && path_of(request) == "/"@),
        !(method_of(request) == "GET"@ && path_of(request) == "/hello"@),
    ensures
        response_for(request) == handlers::make_response("404 NOT FOUND"@, "Not Found"@),
{
}

/// A request whose first line holds no token at all — empty, or nothing
/// but whitespace — has an empty method and gets the 404 response.
pub proof fn lemma_no_tokens_not_found(request: Seq<char>)
    requires
        forall|i: int|
            0 <= i < first_line(request).len() ==> is_space(#[trigger] first_line(request)[i]),
    ensures
        method_of(request) == Seq::<char>::empty(),
        response_for(request) == handlers::make_response("404 NOT FOUND"@, "Not Found"@),
{
    let line = first_line(request);
    lemma_skip_spaces_all(line, 0);
    assert(method_of(request) =~= Seq::<char>::empty());
    assert(method_of(request) != "GET"@) by {
        reveal_strlit("GET");
    }
}

/// Scanning past whitespace runs to the end of a sequence that holds
/// nothing but whitespace from the scan's start on.
proof fn lemma_skip_spaces_all(s: Seq<char>, i: int)
    requires
        0 <= i <= s.len(),
        forall|j: int| i <= j < s.len() ==> is_space(#[trigger] s[j]),
    ensures
        skip_spaces_from(s, i) == s.len(),
    decreases s.len() - i,
{
    if i < s.len() {
        lemma_skip_spaces_all(s, i + 1);
    }
}

fn is_space_char(c: char) -> (b: bool)
    ensures
        b == is_space(c),
{
    c == ' ' || c == '\t' || c == '\n' || c == '\u{b}' || c == '\u{c}' || c == '\r'
        || c == '\u{85}' || c == '\u{a0}' || c == '\u{1680}'
        || ('\u{2000}' <= c && c <= '\u{200a}')
        || c == '\u{2028}' || c == '\u{2029}' || c == '\u{202f}' || c == '\u{205f}'
        || c == '\u{3000}'
}

fn str_eq(a: &str, b: &str) -> (r: bool)
    ensures
        r == (a@ == b@),
{
    let n = a.unicode_len();
    if n != b.unicode_len() {
        return false;
    }
    let mut i: usize = 0;
    while i < n
        invariant
            i <= n,
            n == a@.len(),
            n == b@.len(),
            forall|j: int| 0 <= j < i ==> a@[j] == b@[j],
        decreases n - i,
    {
        if a.get_char(i) != b.get_char(i) {
            return false;
        }
        i = i + 1;
    }
    proof {
        assert(a@ =~= b@);
    }
    true
}

/// The next whitespace-delimited token of `line` at or after `from`: its
/// start (`from` moved past any whitespace) and its end. The two are equal
/// exactly when no token is left.
fn scan_token(line: &str, from: usize) -> (r: (usize, usize))
    requires
        from <= line@.len(),
    ensures
        r.0 == skip_spaces_from(line@, from as int),
        r.1 == token_end_from(line@, r.0 as int),
        from <= r.0 <= r.1 <= line@.len(),
{
    let n = line.unicode_len();
    let mut start: usize = from;
    loop
        invariant
            from <= start <= n,
            n == line@.len(),
            skip_spaces_from(line@, from as int) == skip_spaces_from(line@, start as int),
        ensures
            from <= start <= n,
            start == skip_spaces_from(line@, from as int),
        decreases n - start,
    {
        if start == n {
            break;
        }
        if !is_space_char(line.get_char(start)) {
            break;
        }
        start = start + 1;
    }
    let mut end: usize = start;
    loop
        invariant
            start <= end <= n,
            n == line@.len(),
            token_end_from(line@, start as int) == token_end_from(line@, end as int),
        ensures
            start <= end <= n,
            end == token_end_from(line@, start as int),
        decreases n - end,
    {
        if end == n {
            break;
        }
        if is_space_char(line.get_char(end)) {
            break;
        }
        end = end + 1;
    }
    (start, end)
}

/// Select the response for a raw request: the first line is split into a
/// method and a path, and the matching handler builds the reply.
pub fn route(request: &str) -> (response: String)
    ensures
        response@ == response_for(request@),
{
    let n = request.unicode_len();
    let mut line_end: usize = 0;
    loop
        invariant
            line_end <= n,
            n == request@.len(),
            line_end_from(request@, 0) == line_end_from(request@, line_end as int),
        ensures
            line_end <= n,
            line_end == line_end_from(request@, 0),
        decreases n - line_end,
    {
        if line_end == n {
            break;
        }
        if request.get_char(line_end) == '\n' {
            break;
        }
        line_end = line_end + 1;
    }
    let line = request.substring_char(0, line_end);
    let (method_from, method_to) = scan_token(line, 0);
    let (path_from, path_to) = scan_token(line, method_to);
    let method = line.substring_char(method_from, method_to);
    if str_eq(method, "GET") {
        if path_to == path_from {
            // the second token is absent, and the path defaults to "/"
            handlers::index()
        } else {
            let path = line.substring_char(path_from, path_to);
            if str_eq(path, "/") {
                handlers::index()
            } else if str_eq(path, "/hello") {
                handlers::hello()
            } else {
                handlers::not_found()
            }
        }
    } else {
        handlers::not_found()
    }
}

} // verus!
