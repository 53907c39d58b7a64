use rust_note::color::Color;
use rust_note::server::{decimal, next_port, response, route};

#[test]
fn root_page_is_served_at_once() {
    let chosen = route("GET / HTTP/1.1");
    assert_eq!(chosen.status_line, "HTTP/1.1 200 OK");
    assert_eq!(chosen.filename, "hello.html");
    assert_eq!(chosen.delay_secs, 0);
}

#[test]
fn slow_page_is_served_after_five_seconds() {
    let chosen = route("GET /sleep HTTP/1.1");
    assert_eq!(chosen.status_line, "HTTP/1.1 200 OK");
    assert_eq!(chosen.filename, "hello.html");
    assert_eq!(chosen.delay_secs, 5);
}

#[test]
fn anything_else_is_not_found() {
    for line in ["", "GET /other HTTP/1.1", "POST / HTTP/1.1", "GET / HTTP/1.0", "get / http/1.1", "GET / HTTP/1.1 "] {
        let chosen = route(line);
        assert_eq!(chosen.status_line, "HTTP/1.1 404 NOT FOUND");
        assert_eq!(chosen.filename, "404.html");
        assert_eq!(chosen.delay_secs, 0);
    }
}

#[test]
fn decimal_writes_numbers_without_leading_zeros() {
    assert_eq!(decimal(0), "0");
    assert_eq!(decimal(7), "7");
    assert_eq!(decimal(10), "10");
    assert_eq!(decimal(109), "109");
    assert_eq!(decimal(1234567890), "1234567890");
    assert_eq!(decimal(usize::MAX), usize::MAX.to_string());
}

#[test]
fn response_carries_status_length_and_body() {
    assert_eq!(
        response("HTTP/1.1 200 OK", "<h1>Hello!</h1>"),
        "HTTP/1.1 200 OK\r\nContent-Length: 15\r\n\r\n<h1>Hello!</h1>"
    );
}

#[test]
fn response_with_empty_body_has_length_zero() {
    assert_eq!(response("HTTP/1.1 404 NOT FOUND", ""), "HTTP/1.1 404 NOT FOUND\r\nContent-Length: 0\r\n\r\n");
}

#[test]
fn content_length_counts_bytes() {
    assert_eq!(response("S", "schön"), "S\r\nContent-Length: 6\r\n\r\nschön");
}

#[test]
fn next_port_is_one_higher() {
    assert_eq!(next_port(7878), Some(7879));
    assert_eq!(next_port(0), Some(1));
    assert_eq!(next_port(usize::MAX - 1), Some(usize::MAX));
    assert_eq!(next_port(usize::MAX), None);
}

#[test]
fn colours_know_their_names() {
    assert_eq!(Color::Red.name(), "Red");
    assert_eq!(Color::Green.name(), "Green");
    assert_eq!(Color::Blue.name(), "Blue");
}
