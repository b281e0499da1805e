use rvim::lines::read_lines;
use rvim::strings::{chars_of, decode_line, push_chars};

#[test]
fn chars_of_lists_the_characters() {
    assert_eq!(chars_of("ab\u{e9}"), vec!['a', 'b', '\u{e9}']);
    assert_eq!(chars_of(""), Vec::<char>::new());
}

#[test]
fn decode_line_reads_utf8() {
    assert_eq!(decode_line(b"abc"), vec!['a', 'b', 'c']);
    assert_eq!(decode_line("\u{4e16}\u{754c}".as_bytes()), vec!['\u{4e16}', '\u{754c}']);
    assert_eq!(decode_line(b""), Vec::<char>::new());
}

#[test]
fn decode_line_reads_bad_bytes_as_empty() {
    assert_eq!(decode_line(b"ab\xff"), Vec::<char>::new());
    assert_eq!(decode_line(b"\xc0\x80"), Vec::<char>::new());
    assert_eq!(decode_line(b"\xed\xa0\x80"), Vec::<char>::new());
    assert_eq!(decode_line(b"\xe4\xb8"), Vec::<char>::new());
}

#[test]
fn push_chars_appends() {
    let mut text = String::from("ab");
    push_chars(&mut text, &vec!['c', 'd']);
    assert_eq!(text, "abcd");
    push_chars(&mut text, &Vec::new());
    assert_eq!(text, "abcd");
}

#[test]
fn read_lines_splits_and_decodes() {
    assert_eq!(read_lines(b"ab\ncd\n"), vec![vec!['a', 'b'], vec!['c', 'd']]);
    assert_eq!(read_lines(b""), vec![Vec::<char>::new()]);
    assert_eq!(read_lines(b"x\r\n\xff\ny"), vec![vec!['x'], vec![], vec!['y']]);
}
