use vstd::prelude::*;

verus! {

/// Status code carried by a WebSocket close frame.
#[derive(Debug, Clone, PartialEq, Eq, Structural)]
pub enum CloseCode {
    /// Normal closure: the purpose of the connection was fulfilled.
    Normal,
    /// An endpoint is going away (server going down, page navigated away).
    Away,
    /// Protocol error.
    Protocol,
    /// Received a type of data the endpoint cannot accept.
    Unsupported,
    /// No status code was present in the close frame.
    Status,
    /// The connection was dropped without a close frame.
    Abnormal,
    /// Received data inconsistent with the message type.
    Invalid,
    /// Received a message that violates the endpoint's policy.
    Policy,
    /// Received a message too big to process.
    Size,
    /// The client expected the server to negotiate an extension.
    Extension,
    /// The server met an unexpected condition.
    Error,
    /// The server is restarting.
    Restart,
    /// The server is overloaded; try again later.
    Again,
    /// TLS handshake failure (never sent in a frame).
    Tls,
    /// A code in the range reserved for future protocol use (1016-2999).
    Reserved(u16),
    /// A code registered with IANA (3000-3999).
    Iana(u16),
    /// A code private to an application or library (4000-4999).
    Library(u16),
    /// A code outside every range above.
    Bad(u16),
}

/// The numeric code that a close code stands for on the wire.
pub open spec fn code_number(code: CloseCode) -> u16 {
    match code {
        CloseCode::Normal => 1000,
        CloseCode::Away => 1001,
        CloseCode::Protocol => 1002,
        CloseCode::Unsupported => 1003,
        CloseCode::Status => 1005,
        CloseCode::Abnormal => 1006,
        CloseCode::Invalid => 1007,
        CloseCode::Policy => 1008,
        CloseCode::Size => 1009,
        CloseCode::Extension => 1010,
        CloseCode::Error => 1011,
        CloseCode::Restart => 1012,
        CloseCode::Again => 1013,
        CloseCode::Tls => 1015,
        CloseCode::Reserved(n) => n,
        CloseCode::Iana(n) => n,
        CloseCode::Library(n) => n,
        CloseCode::Bad(n) => n,
    }
}

/// The close code that a number on the wire is read as.
pub open spec fn code_of_number(n: u16) -> CloseCode {
    if n == 1000 {
        CloseCode::Normal
    } else if n == 1001 {
        CloseCode::Away
    } else if n == 1002 {
        CloseCode::Protocol
    } else if n == 1003 {
        CloseCode::Unsupported
    } else if n == 1005 {
        CloseCode::Status
    } else if n == 1006 {
        CloseCode::Abnormal
    } else if n == 1007 {
        CloseCode::Invalid
    } else if n == 1008 {
        CloseCode::Policy
    } else if n == 1009 {
        CloseCode::Size
    } else if n == 1010 {
        CloseCode::Extension
    } else if n == 1011 {
        CloseCode::Error
    } else if n == 1012 {
        CloseCode::Restart
    } else if n == 1013 {
        CloseCode::Again
    } else if n == 1015 {
        CloseCode::Tls
    } else if 1 <= n <= 999 {
        CloseCode::Bad(n)
    } else if 1016 <= n <= 2999 {
        CloseCode::Reserved(n)
    } else if 3000 <= n <= 3999 {
        CloseCode::Iana(n)
    } else if 4000 <= n <= 4999 {
        CloseCode::Library(n)
    } else {
        CloseCode::Bad(n)
    }
}

/// A close code in the form that reading its own number gives back:
/// a named code, or a numbered one whose number lies in its variant's range
/// and is not the number of a named code.
pub open spec fn is_canonical(code: CloseCode) -> bool {
    match code {
        CloseCode::Reserved(n) => 1016 <= n <= 2999,
        CloseCode::Iana(n) => 3000 <= n <= 3999,
        CloseCode::Library(n) => 4000 <= n <= 4999,
        CloseCode::Bad(n) => (1 <= n <= 999) || n == 0 || n == 1004 || n == 1014 || n >= 5000,
        _ => true,
    }
}

impl CloseCode {
    /// The number this close code is sent as.
    pub fn code(&self) -> (n: u16)
        ensures
            n == code_number(*self),
    {
        match self {
            CloseCode::Normal => 1000,
            CloseCode::Away => 1001,
            CloseCode::Protocol => 1002,
            CloseCode::Unsupported => 1003,
            CloseCode::Status => 1005,
            CloseCode::Abnormal => 1006,
            CloseCode::Invalid => 1007,
            CloseCode::Policy => 1008,
            CloseCode::Size => 1009,
            CloseCode::Extension => 1010,
            CloseCode::Error => 1011,
            CloseCode::Restart => 1012,
            CloseCode::Again => 1013,
            CloseCode::Tls => 1015,
            CloseCode::Reserved(n) => *n,
            CloseCode::Iana(n) => *n,
            CloseCode::Library(n) => *n,
            CloseCode::Bad(n) => *n,
        }
    }

    /// Reads a number from the wire as a close code.
    pub fn from_number(n: u16) -> (code: CloseCode)
        ensures
            code == code_of_number(n),
    {
        match n {
            1000 => CloseCode::Normal,
            1001 => CloseCode::Away,
            1002 => CloseCode::Protocol,
            1003 => CloseCode::Unsupported,
            1005 => CloseCode::Status,
            1006 => CloseCode::Abnormal,
            1007 => CloseCode::Invalid,
            1008 => CloseCode::Policy,
            1009 => CloseCode::Size,
            1010 => CloseCode::Extension,
            1011 => CloseCode::Error,
            1012 => CloseCode::Restart,
            1013 => CloseCode::Again,
            1015 => CloseCode::Tls,
            1..=999 => CloseCode::Bad(n),
            1016..=2999 => CloseCode::Reserved(n),
            3000..=3999 => CloseCode::Iana(n),
            4000..=4999 => CloseCode::Library(n),
            _ => CloseCode::Bad(n),
        }
    }
}

impl From<CloseCode> for u16 {
    fn from(code: CloseCode) -> (n: u16) {
        code.code()
    }
}

impl vstd::std_specs::convert::FromSpecImpl<CloseCode> for u16 {
    open spec fn obeys_from_spec() -> bool {
        true
    }

    open spec fn from_spec(code: CloseCode) -> u16 {
        code_number(code)
    }
}

impl From<u16> for CloseCode {
    fn from(n: u16) -> (code: CloseCode) {
        CloseCode::from_number(n)
    }
}

impl vstd::std_specs::convert::FromSpecImpl<u16> for CloseCode {
    open spec fn obeys_from_spec() -> bool {
        true
    }

    open spec fn from_spec(n: u16) -> CloseCode {
        code_of_number(n)
    }
}

/// Reading a number as a close code and sending that code gives back the
/// same number, for every number.
pub proof fn lemma_number_round_trip(n: u16)
    ensures
        code_number(code_of_number(n)) == n,
{
}

/// Sending a canonical close code and reading the number back gives the same
/// code.
pub proof fn lemma_code_round_trip(code: CloseCode)
    requires
        is_canonical(code),
    ensures
        code_of_number(code_number(code)) == code,
{
}

/// Every number is read as a canonical close code, so canonical codes are
/// exactly the codes that can come off the wire.
pub proof fn lemma_read_code_is_canonical(n: u16)
    ensures
        is_canonical(code_of_number(n)),
{
}

/// A close frame: its status code and a textual reason.
#[derive(Debug, Clone)]
pub struct CloseFrame {
    pub code: CloseCode,
    pub reason: String,
}

impl CloseCode {
    /// A copy of this close code.
    pub fn duplicate(&self) -> (c: CloseCode)
        ensures
            c == *self,
    {
        match self {
            CloseCode::Normal => CloseCode::Normal,
            CloseCode::Away => CloseCode::Away,
            CloseCode::Protocol => CloseCode::Protocol,
            CloseCode::Unsupported => CloseCode::Unsupported,
            CloseCode::Status => CloseCode::Status,
            CloseCode::Abnormal => CloseCode::Abnormal,
            CloseCode::Invalid => CloseCode::Invalid,
            CloseCode::Policy => CloseCode::Policy,
            CloseCode::Size => CloseCode::Size,
            CloseCode::Extension => CloseCode::Extension,
            CloseCode::Error => CloseCode::Error,
            CloseCode::Restart => CloseCode::Restart,
            CloseCode::Again => CloseCode::Again,
            CloseCode::Tls => CloseCode::Tls,
            CloseCode::Reserved(n) => CloseCode::Reserved(*n),
            CloseCode::Iana(n) => CloseCode::Iana(*n),
            CloseCode::Library(n) => CloseCode::Library(*n),
            CloseCode::Bad(n) => CloseCode::Bad(*n),
        }
    }
}

impl CloseFrame {
    /// A copy of this close frame.
    pub fn duplicate(&self) -> (f: CloseFrame)
        ensures
            f == *self,
    {
        CloseFrame { code: self.code.duplicate(), reason: self.reason.clone() }
    }
}

} // verus!
