//! The fixed 4-byte wire header and its decoder and encoder.
//!
//! Byte 0 packs version (bits 7:6), message type (bits 5:4) and token
//! length (bits 3:0); byte 1 packs the code class (bits 7:5) and detail
//! (bits 4:0); bytes 2 and 3 are the message identifier, high octet first.

use vstd::prelude::*;

use crate::codes::lemma_msg_type_exhaustive;
use crate::codes::lemma_pair_decode_encode;
use crate::codes::lemma_pair_encode_decode;
use crate::codes::DecodeError;
use crate::codes::MsgType;
use crate::codes::RqCode;

verus! {

/// The version field of byte 0: bits 7:6.
pub open spec fn version_bits(b0: u8) -> u8 {
    (0xC0 & b0) >> 6
}

/// The message-type field of byte 0: bits 5:4.
pub open spec fn type_bits(b0: u8) -> u8 {
    (0x30 & b0) >> 4
}

/// The token-length field of byte 0: bits 3:0.
pub open spec fn token_bits(b0: u8) -> u8 {
    0x0F & b0
}

/// The code-class field of byte 1: bits 7:5.
pub open spec fn class_bits(b1: u8) -> u8 {
    (b1 >> 5) & 0x07
}

/// The code-detail field of byte 1: bits 4:0.
pub open spec fn detail_bits(b1: u8) -> u8 {
    b1 & 0x1F
}

/// The message identifier carried by bytes 2 and 3, byte 2 high.
pub open spec fn msg_id_of(b2: u8, b3: u8) -> u16 {
    ((b2 as u16) << 8) | (b3 as u16)
}

/// Whether a header whose code byte is `b1` decodes successfully: the
/// version, type and token-length fields admit every value their widths
/// allow, so only the code byte can be rejected.
pub open spec fn wire_valid(b1: u8) -> bool {
    RqCode::valid_pair(class_bits(b1), detail_bits(b1))
}

/// The header that a valid 4-byte buffer decodes to.
pub open spec fn decoded(b0: u8, b1: u8, b2: u8, b3: u8) -> Header {
    Header {
        version: version_bits(b0),
        msg_type: MsgType::of_u8(type_bits(b0)),
        token_length: token_bits(b0),
        code: RqCode::of_pair(class_bits(b1), detail_bits(b1)),
        message_id: msg_id_of(b2, b3),
    }
}

/// The decoded 4-byte header.
#[derive(Debug, Clone, Copy, PartialEq, Eq, Structural)]
pub struct Header {
    /// Protocol version, a 2-bit value.
    pub version: u8,
    /// Message type, a 2-bit value.
    pub msg_type: MsgType,
    /// Length of the token that follows the header, a 4-bit value.
    pub token_length: u8,
    /// The request/response code.
    pub code: RqCode,
    /// Message identifier, a 16-bit value.
    pub message_id: u16,
}

impl Header {
    /// A header is well formed when every field fits its wire width and
    /// the code is well formed; exactly the headers the decoder can
    /// produce, and the precondition of `to_bytes`.
    pub open spec fn wf(self) -> bool {
        self.version <= 3 && self.token_length <= 15 && self.code.wf()
    }

    /// Build a header from already-validated components, without
    /// re-running wire-format validation: the caller is responsible for
    /// keeping each value within its field's range.
    pub fn new(version: u8, msg_type: MsgType, token_length: u8, code: RqCode, message_id: u16) -> (r:
        Header)
        ensures
            r == (Header { version, msg_type, token_length, code, message_id }),
    {
        Header { version, msg_type, token_length, code, message_id }
    }

    /// Whether this header satisfies `wf`, so that `to_bytes` may be
    /// called on it.
    pub fn is_valid(&self) -> (r: bool)
        ensures
            r == self.wf(),
    {
        self.version <= 3 && self.token_length <= 15 && self.code.is_valid()
    }

    /// Decode a 4-byte buffer. Succeeds exactly when the code byte holds
    /// a valid (class, detail) pair; the 2-bit message-type field cannot
    /// hold an invalid value, so `InvalidMessageType` is never returned
    /// here and the check on it is purely defensive.
    pub fn from_bytes(data: [u8; 4]) -> (r: Result<Header, DecodeError>)
        ensures
            wire_valid(data[1]) ==> r == Ok::<Header, DecodeError>(
                decoded(data[0], data[1], data[2], data[3]),
            ),
            !wire_valid(data[1]) ==> r == Err::<Header, DecodeError>(
                DecodeError::InvalidCode(class_bits(data[1]), detail_bits(data[1])),
            ),
            r matches Ok(h) ==> h.wf(),
    {
        let b0 = data[0];
        let b1 = data[1];
        let b2 = data[2];
        let b3 = data[3];
        let ver = (0xC0 & b0) >> 6;
        let msg_type_number = (0x30 & b0) >> 4;
        proof {
            assert(((0xC0 & b0) >> 6) <= 3) by (bit_vector);
            assert(((0x30 & b0) >> 4) <= 3) by (bit_vector);
            assert((0x0F & b0) <= 15) by (bit_vector);
        }
        let msg_type = match MsgType::from_u8(msg_type_number) {
            Ok(t) => t,
            Err(e) => {
                return Err(e);
            },
        };
        let token_length = 0x0F & b0;
        let rq_code_0 = (b1 >> 5) & 0x07;
        let rq_code_1 = b1 & 0x1F;
        let code = match RqCode::from_pair(rq_code_0, rq_code_1) {
            Ok(c) => c,
            Err(e) => {
                return Err(e);
            },
        };
        proof {
            lemma_pair_decode_encode(rq_code_0, rq_code_1);
        }
        let msg_id = ((b2 as u16) << 8) | (b3 as u16);
        Ok(
            Header {
                version: ver,
                msg_type,
                token_length,
                code,
                message_id: msg_id,
            },
        )
    }

    /// Encode a well-formed header back to its 4-byte wire form. The
    /// result decodes to this header, so encoding after a successful
    /// decode reproduces the input bytes (`lemma_bytes_round_trip`).
    /// Calling this on a header that violates `wf` is a logic error;
    /// `is_valid` tests the precondition at run time.
    pub fn to_bytes(&self) -> (r: [u8; 4])
        requires
            self.wf(),
        ensures
            r[0] == byte0_of(*self),
            r[1] == byte1_of(*self),
            r[2] == byte2_of(*self),
            r[3] == byte3_of(*self),
            wire_valid(r[1]),
            decoded(r[0], r[1], r[2], r[3]) == *self,
    {
        let v = self.version;
        let t = self.msg_type.to_u8();
        let tok = self.token_length;
        let (class, detail) = self.code.to_pair();
        let b0 = ((v << 6) | (t << 4)) | tok;
        let b1 = (class << 5) | detail;
        let b2 = (self.message_id >> 8) as u8;
        let b3 = (self.message_id & 0xFF) as u8;
        proof {
            let ghost id = self.message_id;
            lemma_pair_encode_decode(self.code);
            assert(class <= 7 && detail <= 31) by {
                assert(RqCode::valid_pair(class as u8, detail as u8));
            }
            assert(MsgType::of_u8(self.msg_type.spec_to_u8()) == self.msg_type);
            assert(((0xC0 & (((v << 6) | (t << 4)) | tok)) >> 6) == v && ((0x30 & (((v << 6) | (t
                << 4)) | tok)) >> 4) == t && (0x0F & (((v << 6) | (t << 4)) | tok)) == tok)
                by (bit_vector)
                requires
                    v <= 3 && t <= 3 && tok <= 15,
            ;
            assert(((((class << 5) | detail) >> 5) & 0x07) == class && (((class << 5) | detail)
                & 0x1F) == detail) by (bit_vector)
                requires
                    class <= 7 && detail <= 31,
            ;
            assert(((((id >> 8) as u8) as u16) << 8) | (((id & 0xFF) as u8) as u16) == id)
                by (bit_vector);
        }
        [b0, b1, b2, b3]
    }
}

/// Byte 0 of a header's wire form: version, message type and token length.
pub open spec fn byte0_of(h: Header) -> u8 {
    ((h.version << 6) | (h.msg_type.spec_to_u8() << 4)) | h.token_length
}

/// Byte 1 of a header's wire form: code class and detail.
pub open spec fn byte1_of(h: Header) -> u8 {
    (h.code.spec_class() << 5) | h.code.spec_detail()
}

/// Byte 2 of a header's wire form: the high octet of the message id.
pub open spec fn byte2_of(h: Header) -> u8 {
    (h.message_id >> 8) as u8
}

/// Byte 3 of a header's wire form: the low octet of the message id.
pub open spec fn byte3_of(h: Header) -> u8 {
    (h.message_id & 0xFF) as u8
}

/// Round trip through the header: any 4-byte buffer that decodes
/// successfully is reproduced, byte for byte, by encoding the decoded
/// header; and that header is well formed.
pub proof fn lemma_bytes_round_trip(b0: u8, b1: u8, b2: u8, b3: u8)
    requires
        wire_valid(b1),
    ensures
        decoded(b0, b1, b2, b3).wf(),
        byte0_of(decoded(b0, b1, b2, b3)) == b0,
        byte1_of(decoded(b0, b1, b2, b3)) == b1,
        byte2_of(decoded(b0, b1, b2, b3)) == b2,
        byte3_of(decoded(b0, b1, b2, b3)) == b3,
{
    let h = decoded(b0, b1, b2, b3);
    lemma_pair_decode_encode(class_bits(b1), detail_bits(b1));
    assert(((0xC0 & b0) >> 6) <= 3 && ((0x30 & b0) >> 4) <= 3 && (0x0F & b0) <= 15)
        by (bit_vector);
    lemma_msg_type_exhaustive(type_bits(b0));
    assert(((((0xC0 & b0) >> 6) << 6) | (((0x30 & b0) >> 4) << 4)) | (0x0F & b0) == b0)
        by (bit_vector);
    assert((((b1 >> 5) & 0x07) << 5) | (b1 & 0x1F) == b1) by (bit_vector);
    assert(((((b2 as u16) << 8) | (b3 as u16)) >> 8) as u8 == b2) by (bit_vector);
    assert(((((b2 as u16) << 8) | (b3 as u16)) & 0xFF) as u8 == b3) by (bit_vector);
}

} // verus!
