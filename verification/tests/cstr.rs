use mooncake_transfer_engine::{c_string, string_from_c_buffer, EngineError};

#[test]
fn c_string_appends_terminator() {
    assert_eq!(c_string("abc").unwrap(), vec![b'a', b'b', b'c', 0]);
}

#[test]
fn c_string_of_empty_string_is_terminator_only() {
    assert_eq!(c_string("").unwrap(), vec![0u8]);
}

#[test]
fn c_string_encodes_utf8() {
    assert_eq!(c_string("é").unwrap(), vec![0xC3, 0xA9, 0]);
    assert_eq!(c_string("rdma://日本").unwrap().len(), "rdma://日本".len() + 1);
}

#[test]
fn c_string_refuses_interior_nul() {
    assert_eq!(c_string("a\0b"), Err(EngineError::NulInString));
    assert_eq!(c_string("\0"), Err(EngineError::NulInString));
}

#[test]
fn buffer_is_read_up_to_first_nul() {
    let buffer = b"10.0.0.1:12345\0garbage\0";
    assert_eq!(string_from_c_buffer(buffer).unwrap(), "10.0.0.1:12345");
}

#[test]
fn buffer_with_leading_nul_is_empty_string() {
    assert_eq!(string_from_c_buffer(&[0u8, 65, 66]).unwrap(), "");
}

#[test]
fn buffer_bytes_after_nul_need_not_be_utf8() {
    assert_eq!(string_from_c_buffer(&[b'o', b'k', 0, 0xFF, 0xFE]).unwrap(), "ok");
}

#[test]
fn invalid_utf8_is_refused_with_reason() {
    let r = string_from_c_buffer(&[b'a', 0xFF, 0]);
    match r {
        Err(EngineError::InvalidSession { detail }) => {
            assert_eq!(detail, "invalid utf-8 sequence of 1 bytes from index 1");
        }
        other => panic!("unexpected {:?}", other),
    }
}

#[test]
fn round_trip_through_c_buffer() {
    for s in ["", "host-a:17777", "ünïcödé 日本 🚀"] {
        let mut buffer = c_string(s).unwrap();
        buffer.extend_from_slice(&[0x41, 0xFF, 0x00]);
        assert_eq!(string_from_c_buffer(&buffer).unwrap(), s);
    }
}
