use cql_session::error::CassError;
use cql_session::text::c_string;

#[test]
fn c_string_appends_the_terminator() {
    assert_eq!(c_string("abc"), Ok(vec![97u8, 98, 99, 0]));
    assert_eq!(c_string("SELECT * FROM t"), Ok(b"SELECT * FROM t\0".to_vec()));
}

#[test]
fn c_string_of_the_empty_text_is_the_terminator() {
    assert_eq!(c_string(""), Ok(vec![0u8]));
}

#[test]
fn c_string_keeps_bytes_beyond_ascii() {
    assert_eq!(c_string("é"), Ok(vec![0xC3u8, 0xA9, 0]));
}

#[test]
fn c_string_refuses_a_zero_byte() {
    assert_eq!(c_string("bad\0query"), Err(CassError::Encoding));
    assert_eq!(c_string("\0"), Err(CassError::Encoding));
    assert_eq!(c_string("tail\0"), Err(CassError::Encoding));
}
