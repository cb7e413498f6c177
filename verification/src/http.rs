//! The job that the server gives to the pool for each connection, without
//! its input and output: which page answers a request line, and the text
//! of the response.

use vstd::prelude::*;
use vstd::string::{StrSliceExecFns, StringExecFns, StringSliceAdditionalSpecFns};
use vstd::utf8::encode_utf8_decode_utf8;

verus! {

/// How a request is answered.
#[derive(Clone, Copy, Debug)]
pub struct Route {
    /// The status code and reason of the response.
    pub status: &'static str,
    /// The name of the file whose content is the body of the response.
    pub file_name: &'static str,
    /// How many seconds to wait before answering.
    pub delay_secs: u64,
}

/// Whether `line` asks for the front page.
pub open spec fn is_root_request(line: Seq<char>) -> bool {
    line == "GET / HTTP/1.1"@
}

/// Whether `line` asks for the front page after a pause.
pub open spec fn is_sleep_request(line: Seq<char>) -> bool {
    line == "GET /sleep HTTP/1.1"@
}

/// The character of the decimal digit `d`.
pub open spec fn digit(d: nat) -> char
    recommends
        d < 10,
{
    "0123456789"@[d as int]
}

/// The decimal numeral of `n`, without leading zeros.
pub open spec fn decimal(n: nat) -> Seq<char>
    decreases n,
{
    if n < 10 {
        seq![digit(n)]
    } else {
        decimal(n / 10).push(digit(n % 10))
    }
}

/// The text of a response with the given status and body, where `length`
/// is the length of the body in bytes.
pub open spec fn response_text(status: Seq<char>, length: nat, content: Seq<char>) -> Seq<char> {
    "HTTP/1.1 "@ + status + "\nContent-Length: "@ + decimal(length) + "\n\n"@ + content
}

/// Whether two strings hold the same text.
fn same_text(a: &str, b: &str) -> (same: bool)
    ensures
        same == (a@ == b@),
{
    let x = a.as_bytes();
    let y = b.as_bytes();
    proof {
        encode_utf8_decode_utf8(a@);
        encode_utf8_decode_utf8(b@);
    }
    if x.len() != y.len() {
        return false;
    }
    let mut i: usize = 0;
    while i < x.len()
        invariant
            x@ == a.spec_bytes(),
            y@ == b.spec_bytes(),
            x@.len() == y@.len(),
            i <= x@.len(),
            forall|j: int| 0 <= j < i ==> x@[j] == y@[j],
        decreases x@.len() - i,
    {
        if x[i] != y[i] {
            return false;
        }
        i = i + 1;
    }
    assert(x@ =~= y@);
    true
}

/// Chooses the answer to a request line. The front page is served for
/// `GET / HTTP/1.1`, and after five seconds for `GET /sleep HTTP/1.1`;
/// every other line gets the page for what was not found.
pub fn route(request_line: &str) -> (route: Route)
    ensures
        route.delay_secs == if is_sleep_request(request_line@) {
            5u64
        } else {
            0u64
        },
        is_root_request(request_line@) || is_sleep_request(request_line@) ==> route.status@
            == "200 OK"@ && route.file_name@ == "hello.html"@,
        !is_root_request(request_line@) && !is_sleep_request(request_line@) ==> route.status@
            == "404 NOT FOUND"@ && route.file_name@ == "404.html"@,
{
    proof {
        reveal_strlit("GET / HTTP/1.1");
        reveal_strlit("GET /sleep HTTP/1.1");
        assert("GET / HTTP/1.1"@.len() != "GET /sleep HTTP/1.1"@.len());
    }
    if same_text(request_line, "GET / HTTP/1.1") {
        Route { status: "200 OK", file_name: "hello.html", delay_secs: 0 }
    } else if same_text(request_line, "GET /sleep HTTP/1.1") {
        Route { status: "200 OK", file_name: "hello.html", delay_secs: 5 }
    } else {
        Route { status: "404 NOT FOUND", file_name: "404.html", delay_secs: 0 }
    }
}

/// The text of one decimal digit.
fn digit_text(d: usize) -> (text: &'static str)
    requires
        d < 10,
    ensures
        text@ == seq![digit(d as nat)],
{
    let digits = "0123456789";
    proof {
        reveal_strlit("0123456789");
    }
    let text = digits.substring_ascii(d, d + 1);
    assert(text@ =~= seq![digit(d as nat)]);
    text
}

/// Appends the decimal numeral of `n` to `text`.
fn append_decimal(text: &mut String, n: usize)
    ensures
        final(text)@ == old(text)@ + decimal(n as nat),
    decreases n,
{
    if n >= 10 {
        append_decimal(text, n / 10);
    }
    text.append(digit_text(n % 10));
    assert(text@ =~= old(text)@ + decimal(n as nat));
}

/// Builds the response: the status line, the length of the body in bytes,
/// an empty line and the body.
pub fn render_response(status: &str, content: &str) -> (response: String)
    ensures
        response@ == response_text(status@, content.spec_bytes().len(), content@),
{
    let mut response = String::from_str("HTTP/1.1 ");
    response.append(status);
    response.append("\nContent-Length: ");
    append_decimal(&mut response, content.as_bytes().len());
    response.append("\n\n");
    response.append(content);
    assert(response@ =~= response_text(status@, content.spec_bytes().len(), content@));
    response
}

} // verus!
