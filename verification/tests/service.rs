use echo_service::service::{echo_text, get_hello, post_echo};
use echo_service::text::{bytes_eq, text_eq};
use hyper::body::Bytes;

#[test]
fn hello_is_the_fixed_greeting() {
    assert_eq!(get_hello(), "Hello, World!");
    assert_eq!(get_hello(), get_hello());
}

#[test]
fn echo_text_puts_the_prefix_first() {
    assert_eq!(echo_text("abc"), "Echo: abc");
    assert_eq!(echo_text(""), "Echo: ");
    assert_eq!(echo_text("Echo: "), "Echo: Echo: ");
}

#[test]
fn post_echo_of_ascii_body() {
    assert_eq!(post_echo(Bytes::from_static(b"hello")), "Echo: hello");
}

#[test]
fn post_echo_of_empty_body() {
    assert_eq!(post_echo(Bytes::new()), "Echo: ");
}

#[test]
fn post_echo_of_multibyte_body() {
    let body = Bytes::from("gr\u{fc}\u{df} \u{4e16}\u{754c} \u{1f600}".as_bytes().to_vec());
    assert_eq!(post_echo(body), "Echo: gr\u{fc}\u{df} \u{4e16}\u{754c} \u{1f600}");
}

#[test]
fn post_echo_replaces_an_invalid_byte() {
    let body = Bytes::from(vec![0x61, 0xff, 0x62]);
    assert_eq!(post_echo(body), "Echo: a\u{fffd}b");
}

#[test]
fn post_echo_replaces_a_truncated_sequence() {
    // The first two bytes of a three-byte character, then an ASCII letter.
    let body = Bytes::from(vec![0xe4, 0xb8, 0x41]);
    assert_eq!(post_echo(body), "Echo: \u{fffd}A");
}

#[test]
fn post_echo_of_only_invalid_bytes() {
    let body = Bytes::from(vec![0x80, 0xfe]);
    assert_eq!(post_echo(body), "Echo: \u{fffd}\u{fffd}");
}

#[test]
fn post_echo_keeps_line_breaks_and_nul() {
    let body = Bytes::from_static(b"a\r\nb\0c");
    assert_eq!(post_echo(body), "Echo: a\r\nb\0c");
}

#[test]
fn post_echo_reads_a_slice_of_a_larger_buffer() {
    let whole = Bytes::from_static(b"0123456789");
    assert_eq!(post_echo(whole.slice(3..6)), "Echo: 345");
}

#[test]
fn text_eq_compares_characters() {
    assert!(text_eq("", ""));
    assert!(text_eq("GET", "GET"));
    assert!(!text_eq("GET", "get"));
    assert!(!text_eq("GET", "GE"));
    assert!(!text_eq("GE", "GET"));
    assert!(!text_eq("/api/hello", "/api/hellp"));
    assert!(text_eq("\u{4e16}\u{754c}", "\u{4e16}\u{754c}"));
    assert!(!text_eq("\u{4e16}", "\u{754c}"));
}

#[test]
fn bytes_eq_compares_bytes() {
    assert!(bytes_eq(&[], &[]));
    assert!(bytes_eq(&[1, 2, 3], &[1, 2, 3]));
    assert!(!bytes_eq(&[1, 2, 3], &[1, 2, 4]));
    assert!(!bytes_eq(&[0, 2, 3], &[1, 2, 3]));
    assert!(!bytes_eq(&[1, 2], &[1, 2, 3]));
    assert!(!bytes_eq(&[1, 2, 3], &[]));
}
