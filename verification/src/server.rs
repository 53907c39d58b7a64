//! What a small web server decides for each connection: which page answers
//! a request line, and the text of the response.

use vstd::prelude::*;
use vstd::string::StringExecFns;

verus! {

/// The answer to a request line.
pub struct Route {
    /// The status line of the response.
    pub status_line: &'static str,
    /// The file whose contents are the body of the response.
    pub filename: &'static str,
    /// How many seconds to wait before answering.
    pub delay_secs: u64,
}

/// `str`'s `==`: whether two strings hold the same characters.
#[verifier::external_body]
fn same_text(left: &str, right: &str) -> (same: bool)
    ensures
        same == (left@ == right@),
{
    left == right
}

/// Chooses the answer to `request_line`. The root page is served at once,
/// the slow page after five seconds, and anything else is not found.
pub fn route(request_line: &str) -> (route: Route)
    ensures
        route.status_line@ == if request_line@ == "GET / HTTP/1.1"@ || request_line@
            == "GET /sleep HTTP/1.1"@ {
            "HTTP/1.1 200 OK"@
        } else {
            "HTTP/1.1 404 NOT FOUND"@
        },
        route.filename@ == if request_line@ == "GET / HTTP/1.1"@ || request_line@
            == "GET /sleep HTTP/1.1"@ {
            "hello.html"@
        } else {
            "404.html"@
        },
        route.delay_secs == if request_line@ == "GET /sleep HTTP/1.1"@ {
            5u64
        } else {
            0u64
        },
{
    proof {
        reveal_strlit("GET / HTTP/1.1");
        reveal_strlit("GET /sleep HTTP/1.1");
        assert("GET / HTTP/1.1"@.len() != "GET /sleep HTTP/1.1"@.len());
    }
    if same_text(request_line, "GET / HTTP/1.1") {
        Route { status_line: "HTTP/1.1 200 OK", filename: "hello.html", delay_secs: 0 }
    } else if same_text(request_line, "GET /sleep HTTP/1.1") {
        Route { status_line: "HTTP/1.1 200 OK", filename: "hello.html", delay_secs: 5 }
    } else {
        Route { status_line: "HTTP/1.1 404 NOT FOUND", filename: "404.html", delay_secs: 0 }
    }
}

/// The character of the decimal digit `digit`.
pub open spec fn digit_of(digit: nat) -> char {
    if digit == 0 {
        '0'
    } else if digit == 1 {
        '1'
    } else if digit == 2 {
        '2'
    } else if digit == 3 {
        '3'
    } else if digit == 4 {
        '4'
    } else if digit == 5 {
        '5'
    } else if digit == 6 {
        '6'
    } else if digit == 7 {
        '7'
    } else if digit == 8 {
        '8'
    } else {
        '9'
    }
}

/// `number` in decimal digits, without leading zeros.
pub open spec fn decimal_of(number: nat) -> Seq<char>
    decreases number,
{
    if number < 10 {
        seq![digit_of(number)]
    } else {
        decimal_of(number / 10).push(digit_of(number % 10))
    }
}

/// The text of a response: the status line, the length of the body, an empty
/// line and the body, each line ended by a carriage return and a line feed.
pub open spec fn response_of(status_line: Seq<char>, length: nat, body: Seq<char>) -> Seq<char> {
    status_line + "\r\nContent-Length: "@ + decimal_of(length) + "\r\n\r\n"@ + body
}

/// The text of one decimal digit.
fn digit(value: usize) -> (text: &'static str)
    requires
        value < 10,
    ensures
        text@ == seq![digit_of(value as nat)],
{
    proof {
        reveal_strlit("0");
        reveal_strlit("1");
        reveal_strlit("2");
        reveal_strlit("3");
        reveal_strlit("4");
        reveal_strlit("5");
        reveal_strlit("6");
        reveal_strlit("7");
        reveal_strlit("8");
        reveal_strlit("9");
    }
    let text = if value == 0 {
        "0"
    } else if value == 1 {
        "1"
    } else if value == 2 {
        "2"
    } else if value == 3 {
        "3"
    } else if value == 4 {
        "4"
    } else if value == 5 {
        "5"
    } else if value == 6 {
        "6"
    } else if value == 7 {
        "7"
    } else if value == 8 {
        "8"
    } else {
        "9"
    };
    assert(text@ =~= seq![digit_of(value as nat)]);
    text
}

/// Writes `number` in decimal digits.
pub fn decimal(number: usize) -> (text: String)
    ensures
        text@ == decimal_of(number as nat),
    decreases number,
{
    if number < 10 {
        String::from_str(digit(number))
    } else {
        let text = decimal(number / 10).concat(digit(number % 10));
        assert(text@ =~= decimal_of(number as nat));
        text
    }
}

/// Builds the response with the given status line and body. `Content-Length`
/// is the length of the body in bytes.
pub fn response(status_line: &str, contents: &str) -> (text: String)
    ensures
        text@ == response_of(status_line@, contents.len() as nat, contents@),
{
    let mut text = String::from_str(status_line);
    text.append("\r\nContent-Length: ");
    text.append(decimal(contents.len()).as_str());
    text.append("\r\n\r\n");
    text.append(contents);
    text
}

/// The port to try when `port` could not be had: the next one, if there is
/// a next one.
pub fn next_port(port: usize) -> (next: Option<usize>)
    ensures
        next == if port < usize::MAX {
            Some((port + 1) as usize)
        } else {
            None
        },
{
    if port < usize::MAX {
        Some(port + 1)
    } else {
        None
    }
}

} // verus!
