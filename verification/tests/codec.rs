use coap_header::ClientError;
use coap_header::DecodeError;
use coap_header::Header;
use coap_header::Method;
use coap_header::MsgType;
use coap_header::RqCode;
use coap_header::ServerError;
use coap_header::Signaling;
use coap_header::Success;

/// Every valid (class, detail) pair decodes, and encoding the decoded
/// code gives the pair back.
#[test]
fn round_trip_all_pairs() {
    for class in 0u8..8 {
        for detail in 0u8..=255 {
            if let Ok(code) = RqCode::from_pair(class, detail) {
                assert_eq!(code.to_pair(), (class, detail));
                assert!(code.is_valid());
            }
        }
    }
}

/// Every 4-byte buffer that decodes successfully is reproduced, byte for
/// byte, by encoding the decoded header.
#[test]
fn round_trip_all_code_bytes() {
    for b0 in 0u8..=255 {
        for b1 in 0u8..=255 {
            let data = [b0, b1, 0x12, 0x34];
            if let Ok(header) = Header::from_bytes(data) {
                assert!(header.is_valid());
                assert_eq!(header.to_bytes(), data);
            }
        }
    }
}

/// All four 2-bit type values decode to their message type; the type
/// check cannot fail on a 4-byte input.
#[test]
fn message_type_exhaustive() {
    let expected = [
        MsgType::Confirmable,
        MsgType::NonConfirmable,
        MsgType::Acknowledgment,
        MsgType::Reset,
    ];
    for v in 0u8..4 {
        let data = [v << 4, 1, 0, 0];
        let header = Header::from_bytes(data).unwrap();
        assert_eq!(header.msg_type, expected[v as usize]);
        assert_eq!(MsgType::from_u8(v), Ok(expected[v as usize]));
        assert_eq!(expected[v as usize].to_u8(), v);
    }
}

/// A raw message-type value above 3 is rejected with the value it held.
#[test]
fn message_type_out_of_range() {
    for v in 4u8..=255 {
        assert_eq!(MsgType::from_u8(v), Err(DecodeError::InvalidMessageType(v)));
    }
}

/// Success details: 0 and 1 are named, 2..=5 and 31 are `Other`, the
/// rest are rejected.
#[test]
fn success_details() {
    assert_eq!(Success::from_u8(0), Ok(Success::Created));
    assert_eq!(Success::from_u8(1), Ok(Success::Deleted));
    for v in [2u8, 3, 4, 5, 31] {
        assert_eq!(Success::from_u8(v), Ok(Success::Other(v)));
    }
    for v in (6u8..=30).chain(32..=255) {
        assert_eq!(Success::from_u8(v), Err(DecodeError::InvalidCode(2, v)));
    }
}

/// Client-error details: 0 and 1 are named, 2..=9 and 12, 13, 15 are
/// `Other`, the rest are rejected.
#[test]
fn client_error_details() {
    assert_eq!(ClientError::from_u8(0), Ok(ClientError::BadRequest));
    assert_eq!(ClientError::from_u8(1), Ok(ClientError::Unauthorized));
    for v in (2u8..=9).chain([12, 13, 15]) {
        assert_eq!(ClientError::from_u8(v), Ok(ClientError::Other(v)));
    }
    for v in [10u8, 11, 14].into_iter().chain(16..=255) {
        assert_eq!(ClientError::from_u8(v), Err(DecodeError::InvalidCode(4, v)));
    }
}

/// Method details: 0, 1 and 2 are named, 3..=7 are `Other`, the rest are
/// rejected.
#[test]
fn method_details() {
    assert_eq!(Method::from_u8(0), Ok(Method::Empty));
    assert_eq!(Method::from_u8(1), Ok(Method::Get));
    assert_eq!(Method::from_u8(2), Ok(Method::Post));
    for v in 3u8..=7 {
        assert_eq!(Method::from_u8(v), Ok(Method::Other(v)));
    }
    for v in 8u8..=255 {
        assert_eq!(Method::from_u8(v), Err(DecodeError::InvalidCode(0, v)));
    }
}

/// Server-error details: 0 and 1 are named, 2..=5 are `Other`, the rest
/// are rejected.
#[test]
fn server_error_details() {
    assert_eq!(ServerError::from_u8(0), Ok(ServerError::Internal));
    assert_eq!(ServerError::from_u8(1), Ok(ServerError::NotImplemented));
    for v in 2u8..=5 {
        assert_eq!(ServerError::from_u8(v), Ok(ServerError::Other(v)));
    }
    for v in 6u8..=255 {
        assert_eq!(ServerError::from_u8(v), Err(DecodeError::InvalidCode(5, v)));
    }
}

/// Signaling details: 0 and 1 are named, 2..=5 are `Other`, the rest are
/// rejected.
#[test]
fn signaling_details() {
    assert_eq!(Signaling::from_u8(0), Ok(Signaling::Unassigned));
    assert_eq!(Signaling::from_u8(1), Ok(Signaling::CSM));
    for v in 2u8..=5 {
        assert_eq!(Signaling::from_u8(v), Ok(Signaling::Other(v)));
    }
    for v in 6u8..=255 {
        assert_eq!(Signaling::from_u8(v), Err(DecodeError::InvalidCode(7, v)));
    }
}

/// A class outside {0, 2, 4, 5, 7} is rejected whatever the detail.
#[test]
fn invalid_classes_rejected() {
    for class in [1u8, 3, 6] {
        for detail in 0u8..=255 {
            assert_eq!(
                RqCode::from_pair(class, detail),
                Err(DecodeError::InvalidCode(class, detail))
            );
        }
    }
}

/// A code byte with an invalid class fails the whole header decode with
/// the offending pair.
#[test]
fn invalid_class_fails_decode() {
    // Byte 1 = 0x2A: class 1, detail 10.
    let r = Header::from_bytes([64, 0x2A, 0, 1]);
    assert_eq!(r, Err(DecodeError::InvalidCode(1, 10)));
    // Byte 1 = 0x46: class 2, detail 6, outside the success range.
    let r = Header::from_bytes([64, 0x46, 0, 1]);
    assert_eq!(r, Err(DecodeError::InvalidCode(2, 6)));
}

/// Bytes 0x40,0x01,0x00,0x01: version 1, type bits 0, token length 0,
/// code Method Get, message id 1.
#[test]
fn scenario_first_header() {
    let header = Header::from_bytes([64, 1, 0, 1]).unwrap();
    assert_eq!(header.version, 1);
    assert_eq!(header.msg_type, MsgType::Confirmable);
    assert_eq!(header.token_length, 0);
    assert_eq!(header.code, RqCode::Method(Method::Get));
    assert_eq!(header.message_id, 1);
}

/// Bytes 0x60,0x5F,0x00,0x01: version 1, type bits 2, token length 0,
/// code class 2 detail 31, message id 1.
#[test]
fn scenario_second_header() {
    let header = Header::from_bytes([96, 95, 0, 1]).unwrap();
    assert_eq!(header.version, 1);
    assert_eq!(header.msg_type, MsgType::Acknowledgment);
    assert_eq!(header.token_length, 0);
    assert_eq!(header.code, RqCode::Success(Success::Other(31)));
    assert_eq!(header.message_id, 1);
}

/// The message id is composed big-endian from bytes 2 and 3.
#[test]
fn message_id_big_endian() {
    let header = Header::from_bytes([64, 1, 0xAB, 0xCD]).unwrap();
    assert_eq!(header.message_id, 0xABCD);
    assert_eq!(header.to_bytes(), [64, 1, 0xAB, 0xCD]);
}

/// The non-validating constructor stores its arguments as given; a valid
/// header round-trips through the wire form.
#[test]
fn constructed_header_encodes() {
    let header = Header::new(1, MsgType::Acknowledgment, 0, RqCode::Success(Success::Created), 1);
    assert!(header.is_valid());
    let bytes = header.to_bytes();
    assert_eq!(bytes, [0x60, 0x40, 0x00, 0x01]);
    assert_eq!(Header::from_bytes(bytes), Ok(header));
}

/// Encoding a header whose code is out of range is a documented logic
/// error, a precondition of `to_bytes`; `is_valid` detects such a header,
/// so a caller can refuse it before encoding.
#[test]
fn out_of_range_construction_detected() {
    let header = Header::new(1, MsgType::Confirmable, 0, RqCode::Success(Success::Other(9)), 1);
    assert!(!header.is_valid());
    let header = Header::new(4, MsgType::Confirmable, 0, RqCode::Method(Method::Get), 1);
    assert!(!header.is_valid());
    let header = Header::new(1, MsgType::Confirmable, 16, RqCode::Method(Method::Get), 1);
    assert!(!header.is_valid());
}
