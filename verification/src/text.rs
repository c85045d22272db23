//! Human-readable rendering of headers and codes.
//!
//! Every rendering is a pure function of the value: each method's result
//! is pinned, character for character, by a spec-level counterpart.

use vstd::prelude::*;
use vstd::string::StringExecFns;

use crate::codes::ClientError;
use crate::codes::Method;
use crate::codes::MsgType;
use crate::codes::RqCode;
use crate::codes::ServerError;
use crate::codes::Signaling;
use crate::codes::Success;
use crate::header::Header;

verus! {

/// The decimal digit character for a value in 0..=9.
pub open spec fn dec_digit(d: int) -> char {
    if d == 0 {
        '0'
    } else if d == 1 {
        '1'
    } else if d == 2 {
        '2'
    } else if d == 3 {
        '3'
    } else if d == 4 {
        '4'
    } else if d == 5 {
        '5'
    } else if d == 6 {
        '6'
    } else if d == 7 {
        '7'
    } else if d == 8 {
        '8'
    } else {
        '9'
    }
}

/// The decimal rendering of a number, without leading zeros (a single
/// zero for 0).
pub open spec fn dec_string(n: nat) -> Seq<char>
    decreases n,
{
    if n < 10 {
        seq![dec_digit(n as int)]
    } else {
        dec_string(n / 10) + seq![dec_digit((n % 10) as int)]
    }
}

/// The one-character string for a decimal digit.
fn digit_str(d: u8) -> (r: &'static str)
    requires
        d <= 9,
    ensures
        r@ == seq![dec_digit(d as int)],
{
    match d {
        0 => {
            proof {
                reveal_strlit("0");
            }
            assert("0"@ =~= seq![dec_digit(0)]);
            "0"
        },
        1 => {
            proof {
                reveal_strlit("1");
            }
            assert("1"@ =~= seq![dec_digit(1)]);
            "1"
        },
        2 => {
            proof {
                reveal_strlit("2");
            }
            assert("2"@ =~= seq![dec_digit(2)]);
            "2"
        },
        3 => {
            proof {
                reveal_strlit("3");
            }
            assert("3"@ =~= seq![dec_digit(3)]);
            "3"
        },
        4 => {
            proof {
                reveal_strlit("4");
            }
            assert("4"@ =~= seq![dec_digit(4)]);
            "4"
        },
        5 => {
            proof {
                reveal_strlit("5");
            }
            assert("5"@ =~= seq![dec_digit(5)]);
            "5"
        },
        6 => {
            proof {
                reveal_strlit("6");
            }
            assert("6"@ =~= seq![dec_digit(6)]);
            "6"
        },
        7 => {
            proof {
                reveal_strlit("7");
            }
            assert("7"@ =~= seq![dec_digit(7)]);
            "7"
        },
        8 => {
            proof {
                reveal_strlit("8");
            }
            assert("8"@ =~= seq![dec_digit(8)]);
            "8"
        },
        _ => {
            proof {
                reveal_strlit("9");
            }
            assert("9"@ =~= seq![dec_digit(9)]);
            "9"
        },
    }
}

/// Render a number in decimal, most significant digit first.
pub fn u16_dec(n: u16) -> (r: String)
    ensures
        r@ == dec_string(n as nat),
    decreases n,
{
    if n < 10 {
        String::from_str(digit_str(n as u8))
    } else {
        let mut s = u16_dec(n / 10);
        let d = digit_str((n % 10) as u8);
        s.append(d);
        s
    }
}

impl MsgType {
    /// The name of this message type in a rendered header.
    pub open spec fn spec_name(self) -> Seq<char> {
        match self {
            MsgType::Confirmable => "Confirmable"@,
            MsgType::NonConfirmable => "NonConfirmable"@,
            MsgType::Acknowledgment => "Acknowledgment"@,
            MsgType::Reset => "Reset"@,
        }
    }

    /// The name of this message type.
    pub fn name(&self) -> (r: &'static str)
        ensures
            r@ == self.spec_name(),
    {
        match self {
            MsgType::Confirmable => "Confirmable",
            MsgType::NonConfirmable => "NonConfirmable",
            MsgType::Acknowledgment => "Acknowledgment",
            MsgType::Reset => "Reset",
        }
    }
}

impl Method {
    /// The rendering of this method: its name, or `Other(v)` in decimal.
    pub open spec fn spec_render(self) -> Seq<char> {
        match self {
            Method::Empty => "Empty"@,
            Method::Get => "Get"@,
            Method::Post => "Post"@,
            Method::Other(v) => "Other("@ + dec_string(v as nat) + ")"@,
        }
    }

    /// Render this method.
    pub fn render(&self) -> (r: String)
        ensures
            r@ == self.spec_render(),
    {
        match self {
            Method::Empty => String::from_str("Empty"),
            Method::Get => String::from_str("Get"),
            Method::Post => String::from_str("Post"),
            Method::Other(v) => other_render(*v),
        }
    }
}

impl Success {
    /// The rendering of this success code: its name, or `Other(v)` in
    /// decimal.
    pub open spec fn spec_render(self) -> Seq<char> {
        match self {
            Success::Created => "Created"@,
            Success::Deleted => "Deleted"@,
            Success::Other(v) => "Other("@ + dec_string(v as nat) + ")"@,
        }
    }

    /// Render this success code.
    pub fn render(&self) -> (r: String)
        ensures
            r@ == self.spec_render(),
    {
        match self {
            Success::Created => String::from_str("Created"),
            Success::Deleted => String::from_str("Deleted"),
            Success::Other(v) => other_render(*v),
        }
    }
}

impl ClientError {
    /// The rendering of this client-error code: its name, or `Other(v)`
    /// in decimal.
    pub open spec fn spec_render(self) -> Seq<char> {
        match self {
            ClientError::BadRequest => "BadRequest"@,
            ClientError::Unauthorized => "Unauthorized"@,
            ClientError::Other(v) => "Other("@ + dec_string(v as nat) + ")"@,
        }
    }

    /// Render this client-error code.
    pub fn render(&self) -> (r: String)
        ensures
            r@ == self.spec_render(),
    {
        match self {
            ClientError::BadRequest => String::from_str("BadRequest"),
            ClientError::Unauthorized => String::from_str("Unauthorized"),
            ClientError::Other(v) => other_render(*v),
        }
    }
}

impl ServerError {
    /// The rendering of this server-error code: its name, or `Other(v)`
    /// in decimal.
    pub open spec fn spec_render(self) -> Seq<char> {
        match self {
            ServerError::Internal => "Internal"@,
            ServerError::NotImplemented => "NotImplemented"@,
            ServerError::Other(v) => "Other("@ + dec_string(v as nat) + ")"@,
        }
    }

    /// Render this server-error code.
    pub fn render(&self) -> (r: String)
        ensures
            r@ == self.spec_render(),
    {
        match self {
            ServerError::Internal => String::from_str("Internal"),
            ServerError::NotImplemented => String::from_str("NotImplemented"),
            ServerError::Other(v) => other_render(*v),
        }
    }
}

impl Signaling {
    /// The rendering of this signaling code: its name, or `Other(v)` in
    /// decimal.
    pub open spec fn spec_render(self) -> Seq<char> {
        match self {
            Signaling::Unassigned => "Unassigned"@,
            Signaling::CSM => "CSM"@,
            Signaling::Other(v) => "Other("@ + dec_string(v as nat) + ")"@,
        }
    }

    /// Render this signaling code.
    pub fn render(&self) -> (r: String)
        ensures
            r@ == self.spec_render(),
    {
        match self {
            Signaling::Unassigned => String::from_str("Unassigned"),
            Signaling::CSM => String::from_str("CSM"),
            Signaling::Other(v) => other_render(*v),
        }
    }
}

/// Render an `Other` detail as `Other(v)` with `v` in decimal.
fn other_render(v: u8) -> (r: String)
    ensures
        r@ == "Other("@ + dec_string(v as nat) + ")"@,
{
    let mut s = String::from_str("Other(");
    let digits = u16_dec(v as u16);
    s.append(digits.as_str());
    s.append(")");
    s
}

impl RqCode {
    /// The rendering of this code: its class name, a space, then the
    /// rendered detail.
    pub open spec fn spec_render(self) -> Seq<char> {
        match self {
            RqCode::Method(m) => "Method "@ + m.spec_render(),
            RqCode::Success(s) => "Success "@ + s.spec_render(),
            RqCode::ClientError(ce) => "ClientError "@ + ce.spec_render(),
            RqCode::ServerError(se) => "ServerError "@ + se.spec_render(),
            RqCode::Signaling(s) => "Signaling "@ + s.spec_render(),
        }
    }

    /// Render this code.
    pub fn render(&self) -> (r: String)
        ensures
            r@ == self.spec_render(),
    {
        match self {
            RqCode::Method(m) => {
                let mut s = String::from_str("Method ");
                s.append(m.render().as_str());
                s
            },
            RqCode::Success(sc) => {
                let mut s = String::from_str("Success ");
                s.append(sc.render().as_str());
                s
            },
            RqCode::ClientError(ce) => {
                let mut s = String::from_str("ClientError ");
                s.append(ce.render().as_str());
                s
            },
            RqCode::ServerError(se) => {
                let mut s = String::from_str("ServerError ");
                s.append(se.render().as_str());
                s
            },
            RqCode::Signaling(sg) => {
                let mut s = String::from_str("Signaling ");
                s.append(sg.render().as_str());
                s
            },
        }
    }
}

impl Header {
    /// The deterministic multi-line rendering of a header: version,
    /// message type, token length, code and message id, one per line.
    pub open spec fn spec_render(self) -> Seq<char> {
        "Version: "@ + dec_string(self.version as nat) + "\nType: "@ + self.msg_type.spec_name()
            + "\nToken length: "@ + dec_string(self.token_length as nat) + "\nCode: "@
            + self.code.spec_render() + "\nMessage ID: "@ + dec_string(self.message_id as nat)
    }

    /// Render this header.
    pub fn render(&self) -> (r: String)
        ensures
            r@ == self.spec_render(),
    {
        let mut s = String::from_str("Version: ");
        s.append(u16_dec(self.version as u16).as_str());
        s.append("\nType: ");
        s.append(self.msg_type.name());
        s.append("\nToken length: ");
        s.append(u16_dec(self.token_length as u16).as_str());
        s.append("\nCode: ");
        s.append(self.code.render().as_str());
        s.append("\nMessage ID: ");
        s.append(u16_dec(self.message_id).as_str());
        s
    }
}

} // verus!
