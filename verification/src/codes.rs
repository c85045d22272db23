//! The message-type field and the five classes of the request/response code.
//!
//! The code byte of the wire header carries a 3-bit class and a 5-bit
//! detail. Each valid class has a few named details and an `Other` catch-all
//! for the remaining details inside the class's valid range; a detail
//! outside that range is a decode failure.

use vstd::prelude::*;

verus! {

/// The class tag of a method code on the wire.
pub const METHOD_CLASS: u8 = 0;

/// The class tag of a success code on the wire.
pub const SUCCESS_CLASS: u8 = 2;

/// The class tag of a client-error code on the wire.
pub const CLIENT_ERROR_CLASS: u8 = 4;

/// The class tag of a server-error code on the wire.
pub const SERVER_ERROR_CLASS: u8 = 5;

/// The class tag of a signaling code on the wire.
pub const SIGNALING_CLASS: u8 = 7;

/// Why a 4-byte buffer failed to decode, carrying the offending raw values.
#[derive(Debug, Clone, Copy, PartialEq, Eq, Structural)]
pub enum DecodeError {
    /// The 2-bit message-type field held a value outside {0, 1, 2, 3}.
    /// Unreachable from a 4-byte decode, kept for defensive completeness.
    InvalidMessageType(u8),
    /// The code byte held an invalid class, or a detail outside the
    /// class's valid range; carries the raw (class, detail) pair.
    InvalidCode(u8, u8),
}

/// The 2-bit message-type field of the header.
#[derive(Debug, Clone, Copy, PartialEq, Eq, Structural)]
pub enum MsgType {
    Confirmable,
    NonConfirmable,
    Acknowledgment,
    Reset,
}

impl MsgType {
    /// The wire value of this message type.
    pub open spec fn spec_to_u8(self) -> u8 {
        match self {
            MsgType::Confirmable => 0,
            MsgType::NonConfirmable => 1,
            MsgType::Acknowledgment => 2,
            MsgType::Reset => 3,
        }
    }

    /// The message type a wire value decodes to; meaningful for `v <= 3`.
    pub open spec fn of_u8(v: u8) -> MsgType {
        if v == 0 {
            MsgType::Confirmable
        } else if v == 1 {
            MsgType::NonConfirmable
        } else if v == 2 {
            MsgType::Acknowledgment
        } else {
            MsgType::Reset
        }
    }

    /// Encode this message type as its wire value.
    pub fn to_u8(&self) -> (r: u8)
        ensures
            r == self.spec_to_u8(),
    {
        match self {
            MsgType::Confirmable => 0,
            MsgType::NonConfirmable => 1,
            MsgType::Acknowledgment => 2,
            MsgType::Reset => 3,
        }
    }

    /// Decode a raw message-type value; every value above 3 is rejected.
    pub fn from_u8(v: u8) -> (r: Result<MsgType, DecodeError>)
        ensures
            v <= 3 ==> r == Ok::<MsgType, DecodeError>(MsgType::of_u8(v)),
            v > 3 ==> r == Err::<MsgType, DecodeError>(DecodeError::InvalidMessageType(v)),
    {
        match v {
            0 => Ok(MsgType::Confirmable),
            1 => Ok(MsgType::NonConfirmable),
            2 => Ok(MsgType::Acknowledgment),
            3 => Ok(MsgType::Reset),
            _ => Err(DecodeError::InvalidMessageType(v)),
        }
    }
}

/// A method code (class 0): named details 0..=2, `Other` up to 7.
#[derive(Debug, Clone, Copy, PartialEq, Eq, Structural)]
pub enum Method {
    Empty,
    Get,
    Post,
    Other(u8),
}

impl Method {
    /// Which details are valid for the method class.
    pub open spec fn valid_detail(v: u8) -> bool {
        v <= 7
    }

    /// The method a valid detail decodes to.
    pub open spec fn of_u8(v: u8) -> Method {
        if v == 0 {
            Method::Empty
        } else if v == 1 {
            Method::Get
        } else if v == 2 {
            Method::Post
        } else {
            Method::Other(v)
        }
    }

    /// The wire detail of this method.
    pub open spec fn spec_to_u8(self) -> u8 {
        match self {
            Method::Empty => 0,
            Method::Get => 1,
            Method::Post => 2,
            Method::Other(v) => v,
        }
    }

    /// A method is well formed when its `Other` value lies in the class's
    /// valid range and does not shadow a named detail; exactly the values
    /// the decoder can produce.
    pub open spec fn wf(self) -> bool {
        match self {
            Method::Other(v) => 3 <= v <= 7,
            _ => true,
        }
    }

    /// Encode this method as its wire detail; an already-constructed value
    /// is not re-validated.
    pub fn to_u8(&self) -> (r: u8)
        ensures
            r == self.spec_to_u8(),
    {
        match self {
            Method::Empty => 0,
            Method::Get => 1,
            Method::Post => 2,
            Method::Other(v) => *v,
        }
    }

    /// Decode a method detail; details above 7 are rejected.
    pub fn from_u8(v: u8) -> (r: Result<Method, DecodeError>)
        ensures
            Method::valid_detail(v) ==> r == Ok::<Method, DecodeError>(Method::of_u8(v)),
            !Method::valid_detail(v) ==> r == Err::<Method, DecodeError>(
                DecodeError::InvalidCode(METHOD_CLASS, v),
            ),
    {
        match v {
            0 => Ok(Method::Empty),
            1 => Ok(Method::Get),
            2 => Ok(Method::Post),
            _ => {
                if v > 7 {
                    Err(DecodeError::InvalidCode(METHOD_CLASS, v))
                } else {
                    Ok(Method::Other(v))
                }
            },
        }
    }
}

/// A success code (class 2): named details 0..=1, `Other` up to 5 or
/// exactly 31.
#[derive(Debug, Clone, Copy, PartialEq, Eq, Structural)]
pub enum Success {
    Created,
    Deleted,
    Other(u8),
}

impl Success {
    /// Which details are valid for the success class.
    pub open spec fn valid_detail(v: u8) -> bool {
        v <= 5 || v == 31
    }

    /// The success code a valid detail decodes to.
    pub open spec fn of_u8(v: u8) -> Success {
        if v == 0 {
            Success::Created
        } else if v == 1 {
            Success::Deleted
        } else {
            Success::Other(v)
        }
    }

    /// The wire detail of this success code.
    pub open spec fn spec_to_u8(self) -> u8 {
        match self {
            Success::Created => 0,
            Success::Deleted => 1,
            Success::Other(v) => v,
        }
    }

    /// A success code is well formed when its `Other` value lies in the
    /// class's valid range and does not shadow a named detail.
    pub open spec fn wf(self) -> bool {
        match self {
            Success::Other(v) => 2 <= v <= 5 || v == 31,
            _ => true,
        }
    }

    /// Encode this success code as its wire detail.
    pub fn to_u8(&self) -> (r: u8)
        ensures
            r == self.spec_to_u8(),
    {
        match self {
            Success::Created => 0,
            Success::Deleted => 1,
            Success::Other(v) => *v,
        }
    }

    /// Decode a success detail; details above 5 other than 31 are rejected.
    pub fn from_u8(v: u8) -> (r: Result<Success, DecodeError>)
        ensures
            Success::valid_detail(v) ==> r == Ok::<Success, DecodeError>(Success::of_u8(v)),
            !Success::valid_detail(v) ==> r == Err::<Success, DecodeError>(
                DecodeError::InvalidCode(SUCCESS_CLASS, v),
            ),
    {
        match v {
            0 => Ok(Success::Created),
            1 => Ok(Success::Deleted),
            _ => {
                if v > 5 && v != 31 {
                    Err(DecodeError::InvalidCode(SUCCESS_CLASS, v))
                } else {
                    Ok(Success::Other(v))
                }
            },
        }
    }
}

/// A client-error code (class 4): named details 0..=1, `Other` up to 9 or
/// one of 12, 13, 15.
#[derive(Debug, Clone, Copy, PartialEq, Eq, Structural)]
pub enum ClientError {
    BadRequest,
    Unauthorized,
    Other(u8),
}

impl ClientError {
    /// Which details are valid for the client-error class.
    pub open spec fn valid_detail(v: u8) -> bool {
        v <= 9 || v == 12 || v == 13 || v == 15
    }

    /// The client-error code a valid detail decodes to.
    pub open spec fn of_u8(v: u8) -> ClientError {
        if v == 0 {
            ClientError::BadRequest
        } else if v == 1 {
            ClientError::Unauthorized
        } else {
            ClientError::Other(v)
        }
    }

    /// The wire detail of this client-error code.
    pub open spec fn spec_to_u8(self) -> u8 {
        match self {
            ClientError::BadRequest => 0,
            ClientError::Unauthorized => 1,
            ClientError::Other(v) => v,
        }
    }

    /// A client-error code is well formed when its `Other` value lies in
    /// the class's valid range and does not shadow a named detail.
    pub open spec fn wf(self) -> bool {
        match self {
            ClientError::Other(v) => 2 <= v <= 9 || v == 12 || v == 13 || v == 15,
            _ => true,
        }
    }

    /// Encode this client-error code as its wire detail.
    pub fn to_u8(&self) -> (r: u8)
        ensures
            r == self.spec_to_u8(),
    {
        match self {
            ClientError::BadRequest => 0,
            ClientError::Unauthorized => 1,
            ClientError::Other(v) => *v,
        }
    }

    /// Decode a client-error detail; details above 9 other than 12, 13
    /// and 15 are rejected.
    pub fn from_u8(v: u8) -> (r: Result<ClientError, DecodeError>)
        ensures
            ClientError::valid_detail(v) ==> r == Ok::<ClientError, DecodeError>(
                ClientError::of_u8(v),
            ),
            !ClientError::valid_detail(v) ==> r == Err::<ClientError, DecodeError>(
                DecodeError::InvalidCode(CLIENT_ERROR_CLASS, v),
            ),
    {
        match v {
            0 => Ok(ClientError::BadRequest),
            1 => Ok(ClientError::Unauthorized),
            _ => {
                if v > 9 && v != 12 && v != 13 && v != 15 {
                    Err(DecodeError::InvalidCode(CLIENT_ERROR_CLASS, v))
                } else {
                    Ok(ClientError::Other(v))
                }
            },
        }
    }
}

/// A server-error code (class 5): named details 0..=1, `Other` up to 5.
#[derive(Debug, Clone, Copy, PartialEq, Eq, Structural)]
pub enum ServerError {
    Internal,
    NotImplemented,
    Other(u8),
}

impl ServerError {
    /// Which details are valid for the server-error class.
    pub open spec fn valid_detail(v: u8) -> bool {
        v <= 5
    }

    /// The server-error code a valid detail decodes to.
    pub open spec fn of_u8(v: u8) -> ServerError {
        if v == 0 {
            ServerError::Internal
        } else if v == 1 {
            ServerError::NotImplemented
        } else {
            ServerError::Other(v)
        }
    }

    /// The wire detail of this server-error code.
    pub open spec fn spec_to_u8(self) -> u8 {
        match self {
            ServerError::Internal => 0,
            ServerError::NotImplemented => 1,
            ServerError::Other(v) => v,
        }
    }

    /// A server-error code is well formed when its `Other` value lies in
    /// the class's valid range and does not shadow a named detail.
    pub open spec fn wf(self) -> bool {
        match self {
            ServerError::Other(v) => 2 <= v <= 5,
            _ => true,
        }
    }

    /// Encode this server-error code as its wire detail.
    pub fn to_u8(&self) -> (r: u8)
        ensures
            r == self.spec_to_u8(),
    {
        match self {
            ServerError::Internal => 0,
            ServerError::NotImplemented => 1,
            ServerError::Other(v) => *v,
        }
    }

    /// Decode a server-error detail; details above 5 are rejected.
    pub fn from_u8(v: u8) -> (r: Result<ServerError, DecodeError>)
        ensures
            ServerError::valid_detail(v) ==> r == Ok::<ServerError, DecodeError>(
                ServerError::of_u8(v),
            ),
            !ServerError::valid_detail(v) ==> r == Err::<ServerError, DecodeError>(
                DecodeError::InvalidCode(SERVER_ERROR_CLASS, v),
            ),
    {
        match v {
            0 => Ok(ServerError::Internal),
            1 => Ok(ServerError::NotImplemented),
            _ => {
                if v > 5 {
                    Err(DecodeError::InvalidCode(SERVER_ERROR_CLASS, v))
                } else {
                    Ok(ServerError::Other(v))
                }
            },
        }
    }
}

/// A signaling code (class 7): named details 0..=1, `Other` up to 5.
#[derive(Debug, Clone, Copy, PartialEq, Eq, Structural)]
pub enum Signaling {
    Unassigned,
    CSM,
    Other(u8),
}

impl Signaling {
    /// Which details are valid for the signaling class.
    pub open spec fn valid_detail(v: u8) -> bool {
        v <= 5
    }

    /// The signaling code a valid detail decodes to.
    pub open spec fn of_u8(v: u8) -> Signaling {
        if v == 0 {
            Signaling::Unassigned
        } else if v == 1 {
            Signaling::CSM
        } else {
            Signaling::Other(v)
        }
    }

    /// The wire detail of this signaling code.
    pub open spec fn spec_to_u8(self) -> u8 {
        match self {
            Signaling::Unassigned => 0,
            Signaling::CSM => 1,
            Signaling::Other(v) => v,
        }
    }

    /// A signaling code is well formed when its `Other` value lies in the
    /// class's valid range and does not shadow a named detail.
    pub open spec fn wf(self) -> bool {
        match self {
            Signaling::Other(v) => 2 <= v <= 5,
            _ => true,
        }
    }

    /// Encode this signaling code as its wire detail.
    pub fn to_u8(&self) -> (r: u8)
        ensures
            r == self.spec_to_u8(),
    {
        match self {
            Signaling::Unassigned => 0,
            Signaling::CSM => 1,
            Signaling::Other(v) => *v,
        }
    }

    /// Decode a signaling detail; details above 5 are rejected.
    pub fn from_u8(v: u8) -> (r: Result<Signaling, DecodeError>)
        ensures
            Signaling::valid_detail(v) ==> r == Ok::<Signaling, DecodeError>(Signaling::of_u8(v)),
            !Signaling::valid_detail(v) ==> r == Err::<Signaling, DecodeError>(
                DecodeError::InvalidCode(SIGNALING_CLASS, v),
            ),
    {
        match v {
            0 => Ok(Signaling::Unassigned),
            1 => Ok(Signaling::CSM),
            _ => {
                if v > 5 {
                    Err(DecodeError::InvalidCode(SIGNALING_CLASS, v))
                } else {
                    Ok(Signaling::Other(v))
                }
            },
        }
    }
}

/// The request/response code: a detail value tagged by its class.
#[derive(Debug, Clone, Copy, PartialEq, Eq, Structural)]
pub enum RqCode {
    Method(Method),
    Success(Success),
    ClientError(ClientError),
    ServerError(ServerError),
    Signaling(Signaling),
}

impl RqCode {
    /// The 3-bit class tag of this code on the wire.
    pub open spec fn spec_class(self) -> u8 {
        match self {
            RqCode::Method(_) => METHOD_CLASS,
            RqCode::Success(_) => SUCCESS_CLASS,
            RqCode::ClientError(_) => CLIENT_ERROR_CLASS,
            RqCode::ServerError(_) => SERVER_ERROR_CLASS,
            RqCode::Signaling(_) => SIGNALING_CLASS,
        }
    }

    /// The 5-bit detail value of this code on the wire.
    pub open spec fn spec_detail(self) -> u8 {
        match self {
            RqCode::Method(m) => m.spec_to_u8(),
            RqCode::Success(s) => s.spec_to_u8(),
            RqCode::ClientError(ce) => ce.spec_to_u8(),
            RqCode::ServerError(se) => se.spec_to_u8(),
            RqCode::Signaling(s) => s.spec_to_u8(),
        }
    }

    /// Which (class, detail) pairs are valid: the class must be one of
    /// 0, 2, 4, 5, 7 and the detail must lie in that class's range.
    pub open spec fn valid_pair(class: u8, detail: u8) -> bool {
        if class == METHOD_CLASS {
            Method::valid_detail(detail)
        } else if class == SUCCESS_CLASS {
            Success::valid_detail(detail)
        } else if class == CLIENT_ERROR_CLASS {
            ClientError::valid_detail(detail)
        } else if class == SERVER_ERROR_CLASS {
            ServerError::valid_detail(detail)
        } else if class == SIGNALING_CLASS {
            Signaling::valid_detail(detail)
        } else {
            false
        }
    }

    /// The code a valid (class, detail) pair decodes to; meaningful only
    /// where `valid_pair` holds.
    pub open spec fn of_pair(class: u8, detail: u8) -> RqCode {
        if class == SUCCESS_CLASS {
            RqCode::Success(Success::of_u8(detail))
        } else if class == CLIENT_ERROR_CLASS {
            RqCode::ClientError(ClientError::of_u8(detail))
        } else if class == SERVER_ERROR_CLASS {
            RqCode::ServerError(ServerError::of_u8(detail))
        } else if class == SIGNALING_CLASS {
            RqCode::Signaling(Signaling::of_u8(detail))
        } else {
            RqCode::Method(Method::of_u8(detail))
        }
    }

    /// A code is well formed when its detail is; exactly the values the
    /// decoder can produce.
    pub open spec fn wf(self) -> bool {
        match self {
            RqCode::Method(m) => m.wf(),
            RqCode::Success(s) => s.wf(),
            RqCode::ClientError(ce) => ce.wf(),
            RqCode::ServerError(se) => se.wf(),
            RqCode::Signaling(s) => s.wf(),
        }
    }

    /// Decode a raw (class, detail) pair into a code. A class outside
    /// {0, 2, 4, 5, 7} is always rejected, whatever the detail; a valid
    /// class rejects exactly the details outside its range.
    pub fn from_pair(class: u8, detail: u8) -> (r: Result<RqCode, DecodeError>)
        ensures
            RqCode::valid_pair(class, detail) ==> r == Ok::<RqCode, DecodeError>(
                RqCode::of_pair(class, detail),
            ),
            !RqCode::valid_pair(class, detail) ==> r == Err::<RqCode, DecodeError>(
                DecodeError::InvalidCode(class, detail),
            ),
    {
        match class {
            0 => match Method::from_u8(detail) {
                Ok(m) => Ok(RqCode::Method(m)),
                Err(e) => Err(e),
            },
            2 => match Success::from_u8(detail) {
                Ok(s) => Ok(RqCode::Success(s)),
                Err(e) => Err(e),
            },
            4 => match ClientError::from_u8(detail) {
                Ok(ce) => Ok(RqCode::ClientError(ce)),
                Err(e) => Err(e),
            },
            5 => match ServerError::from_u8(detail) {
                Ok(se) => Ok(RqCode::ServerError(se)),
                Err(e) => Err(e),
            },
            7 => match Signaling::from_u8(detail) {
                Ok(s) => Ok(RqCode::Signaling(s)),
                Err(e) => Err(e),
            },
            _ => Err(DecodeError::InvalidCode(class, detail)),
        }
    }

    /// Encode this code as its raw (class, detail) pair; an
    /// already-constructed value is not re-validated.
    pub fn to_pair(&self) -> (r: (u8, u8))
        ensures
            r.0 == self.spec_class(),
            r.1 == self.spec_detail(),
    {
        match self {
            RqCode::Method(m) => (0, m.to_u8()),
            RqCode::Success(s) => (2, s.to_u8()),
            RqCode::ClientError(ce) => (4, ce.to_u8()),
            RqCode::ServerError(se) => (5, se.to_u8()),
            RqCode::Signaling(s) => (7, s.to_u8()),
        }
    }

    /// Whether this code satisfies `wf`: its detail lies in its class's
    /// valid range and does not shadow a named detail.
    pub fn is_valid(&self) -> (r: bool)
        ensures
            r == self.wf(),
    {
        match self {
            RqCode::Method(m) => match m {
                Method::Other(v) => 3 <= *v && *v <= 7,
                _ => true,
            },
            RqCode::Success(s) => match s {
                Success::Other(v) => (2 <= *v && *v <= 5) || *v == 31,
                _ => true,
            },
            RqCode::ClientError(ce) => match ce {
                ClientError::Other(v) => (2 <= *v && *v <= 9) || *v == 12 || *v == 13 || *v == 15,
                _ => true,
            },
            RqCode::ServerError(se) => match se {
                ServerError::Other(v) => 2 <= *v && *v <= 5,
                _ => true,
            },
            RqCode::Signaling(s) => match s {
                Signaling::Other(v) => 2 <= *v && *v <= 5,
                _ => true,
            },
        }
    }
}

/// Every 2-bit value is a valid message type, and decoding then encoding
/// gives the value back: the message-type check can never fail on a
/// conformant 4-byte input.
pub proof fn lemma_msg_type_exhaustive(v: u8)
    requires
        v <= 3,
    ensures
        MsgType::of_u8(v).spec_to_u8() == v,
{
}

/// Decoding a valid (class, detail) pair and encoding the result gives the
/// pair back, and the decoded code is well formed.
pub proof fn lemma_pair_decode_encode(class: u8, detail: u8)
    requires
        RqCode::valid_pair(class, detail),
    ensures
        RqCode::of_pair(class, detail).wf(),
        RqCode::of_pair(class, detail).spec_class() == class,
        RqCode::of_pair(class, detail).spec_detail() == detail,
{
}

/// Encoding a well-formed code and decoding the resulting pair gives the
/// code back, and the pair is valid.
pub proof fn lemma_pair_encode_decode(code: RqCode)
    requires
        code.wf(),
    ensures
        RqCode::valid_pair(code.spec_class(), code.spec_detail()),
        RqCode::of_pair(code.spec_class(), code.spec_detail()) == code,
{
}

/// A class outside {0, 2, 4, 5, 7} is rejected whatever the detail.
pub proof fn lemma_invalid_class_rejected(class: u8, detail: u8)
    requires
        class != METHOD_CLASS,
        class != SUCCESS_CLASS,
        class != CLIENT_ERROR_CLASS,
        class != SERVER_ERROR_CLASS,
        class != SIGNALING_CLASS,
    ensures
        !RqCode::valid_pair(class, detail),
{
}

} // verus!
