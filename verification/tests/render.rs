use coap_header::ClientError;
use coap_header::Header;
use coap_header::Method;
use coap_header::MsgType;
use coap_header::RqCode;
use coap_header::ServerError;
use coap_header::Signaling;
use coap_header::Success;
use coap_header::text::u16_dec;

/// Decimal rendering: exact digits, no leading zeros.
#[test]
fn decimal_rendering() {
    assert_eq!(u16_dec(0), "0");
    assert_eq!(u16_dec(7), "7");
    assert_eq!(u16_dec(10), "10");
    assert_eq!(u16_dec(255), "255");
    assert_eq!(u16_dec(65535), "65535");
}

/// A code renders as its class name, a space, and the detail's name.
#[test]
fn code_rendering_named() {
    assert_eq!(RqCode::Method(Method::Get).render(), "Method Get");
    assert_eq!(RqCode::Success(Success::Created).render(), "Success Created");
    assert_eq!(
        RqCode::ClientError(ClientError::Unauthorized).render(),
        "ClientError Unauthorized"
    );
    assert_eq!(
        RqCode::ServerError(ServerError::NotImplemented).render(),
        "ServerError NotImplemented"
    );
    assert_eq!(RqCode::Signaling(Signaling::CSM).render(), "Signaling CSM");
}

/// An `Other` detail renders with its value in decimal.
#[test]
fn code_rendering_other() {
    assert_eq!(RqCode::Success(Success::Other(31)).render(), "Success Other(31)");
    assert_eq!(RqCode::ClientError(ClientError::Other(13)).render(), "ClientError Other(13)");
}

/// The full multi-line header rendering, field by field.
#[test]
fn header_rendering() {
    let header = Header::from_bytes([64, 1, 0, 1]).unwrap();
    assert_eq!(
        header.render(),
        "Version: 1\nType: Confirmable\nToken length: 0\nCode: Method Get\nMessage ID: 1"
    );
    let header = Header::from_bytes([96, 95, 0, 1]).unwrap();
    assert_eq!(
        header.render(),
        "Version: 1\nType: Acknowledgment\nToken length: 0\nCode: Success Other(31)\nMessage ID: 1"
    );
    let header = Header::new(1, MsgType::Acknowledgment, 0, RqCode::Success(Success::Created), 1);
    assert_eq!(
        header.render(),
        "Version: 1\nType: Acknowledgment\nToken length: 0\nCode: Success Created\nMessage ID: 1"
    );
}

/// Each message type renders under its own name.
#[test]
fn message_type_names() {
    assert_eq!(MsgType::Confirmable.name(), "Confirmable");
    assert_eq!(MsgType::NonConfirmable.name(), "NonConfirmable");
    assert_eq!(MsgType::Acknowledgment.name(), "Acknowledgment");
    assert_eq!(MsgType::Reset.name(), "Reset");
}
