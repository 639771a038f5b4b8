use tower_defense::rpc::{ErrorCode, RequestId};

#[test]
fn null_id_text() {
    assert_eq!(RequestId::Null.text_bytes(), b"null".to_vec());
}

#[test]
fn number_id_text() {
    assert_eq!(RequestId::Number(0).text_bytes(), b"0".to_vec());
    assert_eq!(RequestId::Number(7).text_bytes(), b"7".to_vec());
    assert_eq!(RequestId::Number(10).text_bytes(), b"10".to_vec());
    assert_eq!(RequestId::Number(1234567890).text_bytes(), b"1234567890".to_vec());
    assert_eq!(RequestId::Number(u64::MAX).text_bytes(), u64::MAX.to_string().into_bytes());
}

#[test]
fn string_id_text() {
    assert_eq!(RequestId::Str("abc".to_string()).text_bytes(), b"abc".to_vec());
    assert_eq!(RequestId::Str("é".to_string()).text_bytes(), vec![0xc3, 0xa9]);
    assert_eq!(RequestId::Str(String::new()).text_bytes(), Vec::<u8>::new());
}

#[test]
fn error_codes() {
    assert_eq!(ErrorCode::InvalidRequest.code(), -32600);
    assert_eq!(ErrorCode::InternalError.code(), -32603);
}
