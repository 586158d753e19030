use mpv::text::{c_string, decode_text, text_len};
use mpv::DecodeError;

#[test]
fn text_ends_at_the_first_zero_byte() {
    assert_eq!(text_len(b"no\0"), 2);
    assert_eq!(text_len(b"\0"), 0);
    assert_eq!(text_len(b"ab\0cd\0"), 2);
    assert_eq!(text_len(b"abc"), 3);
    assert_eq!(text_len(b""), 0);
}

#[test]
fn reads_text_up_to_the_terminator() {
    assert_eq!(decode_text(Some(b"no\0")), Ok("no"));
    assert_eq!(decode_text(Some(b"\0")), Ok(""));
    assert_eq!(decode_text(Some(b"loop\0left over\0")), Ok("loop"));
}

#[test]
fn reads_text_of_several_bytes_per_character() {
    let mut buf = "h\u{e9}llo \u{4e16}\u{754c} \u{1f3b5}".as_bytes().to_vec();
    buf.push(0);
    assert_eq!(decode_text(Some(&buf)), Ok("h\u{e9}llo \u{4e16}\u{754c} \u{1f3b5}"));
}

#[test]
fn a_null_pointer_is_a_fault() {
    assert_eq!(decode_text(None), Err(DecodeError::NullPointer));
}

#[test]
fn a_buffer_without_terminator_is_a_fault() {
    assert_eq!(decode_text(Some(b"abc")), Err(DecodeError::Unterminated));
    assert_eq!(decode_text(Some(b"")), Err(DecodeError::Unterminated));
}

#[test]
fn bytes_that_are_not_utf8_are_a_fault() {
    assert_eq!(decode_text(Some(b"\xff\0")), Err(DecodeError::InvalidUtf8));
    assert_eq!(decode_text(Some(b"ab\xc3\0")), Err(DecodeError::InvalidUtf8));
    assert_eq!(decode_text(Some(b"\xed\xa0\x80\0")), Err(DecodeError::InvalidUtf8));
    assert_eq!(decode_text(Some(b"\xc0\x80\0")), Err(DecodeError::InvalidUtf8));
    assert_eq!(decode_text(Some(b"\xf4\x90\x80\x80\0")), Err(DecodeError::InvalidUtf8));
    assert_eq!(decode_text(Some(b"\x80\0")), Err(DecodeError::InvalidUtf8));
}

#[test]
fn the_widest_characters_are_read() {
    assert_eq!(decode_text(Some(b"\xf4\x8f\xbf\xbf\0")), Ok("\u{10ffff}"));
    assert_eq!(decode_text(Some(b"\xed\x9f\xbf\0")), Ok("\u{d7ff}"));
    assert_eq!(decode_text(Some(b"\xc2\x80\0")), Ok("\u{80}"));
}

#[test]
fn bytes_after_the_terminator_are_not_looked_at() {
    assert_eq!(decode_text(Some(b"ok\0\xff\xff")), Ok("ok"));
}

#[test]
fn writes_text_with_its_terminator() {
    assert_eq!(c_string("no"), Some(b"no\0".to_vec()));
    assert_eq!(c_string(""), Some(b"\0".to_vec()));
    assert_eq!(c_string("h\u{e9}"), Some(vec![b'h', 0xc3, 0xa9, 0]));
}

#[test]
fn text_with_a_zero_byte_has_no_buffer() {
    assert_eq!(c_string("a\0b"), None);
    assert_eq!(c_string("\0"), None);
    assert_eq!(c_string("ab\0"), None);
}

#[test]
fn written_text_is_read_back() {
    for text in ["no", "2", "", "loadfile", "gr\u{fc}\u{df}e", "\u{1f3b5}"] {
        let buf = c_string(text).unwrap();
        assert_eq!(decode_text(Some(&buf)), Ok(text));
    }
}
