//! Tests of the termcolor-backed in-memory terminal driven through the
//! verified cursor.

use term_style::ansi::AnsiTerminal;
use term_style::cursor::StyleCursor;
use term_style::style::{Style, BOLD, FG_RED};

#[test]
fn styled_writes_render_ansi_escapes() {
    let t = AnsiTerminal::new(true);
    let mut cursor = StyleCursor::new(t).unwrap();
    cursor.term().write_bytes(b"plain ").unwrap();
    cursor.set_style(Style::from_bits(FG_RED | BOLD)).unwrap();
    cursor.term().write_bytes(b"loud").unwrap();
    let bytes = cursor.term().contents();
    assert!(bytes.starts_with(b"\x1b["));
    assert!(bytes.ends_with(b"loud"));
    let text: Vec<u8> = bytes.iter().copied().filter(|&b| b != 0x1b).collect();
    assert!(String::from_utf8_lossy(&text).contains("plain "));
}

#[test]
fn without_color_support_only_plain_bytes_remain() {
    let t = AnsiTerminal::new(false);
    let mut cursor = StyleCursor::new(t).unwrap();
    cursor.term().write_bytes(b"plain ").unwrap();
    cursor.set_style(Style::from_bits(FG_RED | BOLD)).unwrap();
    cursor.term().write_bytes(b"quiet").unwrap();
    assert_eq!(cursor.term().contents(), b"plain quiet");
}

#[test]
fn deduplication_adds_no_second_escape_run() {
    let t = AnsiTerminal::new(true);
    let mut cursor = StyleCursor::new(t).unwrap();
    let s = Style::from_bits(FG_RED);
    cursor.set_style(s).unwrap();
    let after_first = cursor.term().contents().len();
    cursor.set_style(s).unwrap();
    assert_eq!(cursor.term().contents().len(), after_first);
}
