use cql_session::error::CassError;
use cql_session::error::CASS_OK;

#[test]
fn success_status_is_zero() {
    assert_eq!(CASS_OK, 0);
}

#[test]
fn build_keeps_the_status() {
    assert_eq!(CassError::build(0), CassError::Native(0));
    assert_eq!(CassError::build(16777217), CassError::Native(16777217));
    assert_eq!(CassError::build(u32::MAX), CassError::Native(u32::MAX));
}

#[test]
fn wrap_hands_the_value_on_for_success() {
    assert_eq!(CassError::build(0).wrap(5u8), Ok(5u8));
    assert_eq!(CassError::build(CASS_OK).wrap("kept"), Ok("kept"));
}

#[test]
fn wrap_fails_with_the_status() {
    // "Bad parameters" of the driver's library errors.
    assert_eq!(CassError::build(16777217).wrap(5u8), Err(CassError::Native(16777217)));
    // "Unavailable" of the server errors.
    assert_eq!(CassError::build(33558528).wrap(()), Err(CassError::Native(33558528)));
    assert_eq!(CassError::build(1).wrap(()), Err(CassError::Native(1)));
}

#[test]
fn wrap_fails_with_an_encoding_error() {
    assert_eq!(CassError::Encoding.wrap(5u8), Err(CassError::Encoding));
}
