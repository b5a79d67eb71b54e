use vstd::prelude::*;

verus! {

/// Every way in which a session with the converter can fail. None is retried.
#[derive(Debug, PartialEq, Eq)]
pub enum ClientError {
    /// The TCP connection could not be made; holds the system's reason.
    Connect(String),
    /// The device closed the connection while a reply was awaited.
    ConnectionDropped,
    /// Reading failed for another reason; holds the system's reason.
    ReadFailed(String),
    /// Sending a command line failed; holds the system's reason.
    WriteFailed(String),
    /// The device answered a command with something other than `ACK`.
    RequestFailed,
    /// A mode name outside the converter's format table.
    InvalidMode,
}

/// The text that reports an error to the user.
pub open spec fn error_message(e: ClientError) -> Seq<char> {
    match e {
        ClientError::Connect(m) => "connection failed: "@ + m@,
        ClientError::ConnectionDropped => "connection dropped"@,
        ClientError::ReadFailed(m) => "reading failed: "@ + m@,
        ClientError::WriteFailed(m) => "writing failed: "@ + m@,
        ClientError::RequestFailed => "request failed"@,
        ClientError::InvalidMode => "invalid video mode"@,
    }
}

impl ClientError {
    /// The text that reports this error to the user.
    pub fn message(&self) -> (r: String)
        ensures
            r@ == error_message(*self),
    {
        match self {
            ClientError::Connect(m) => {
                let mut r = String::from_str("connection failed: ");
                r.append(m.as_str());
                r
            },
            ClientError::ConnectionDropped => String::from_str("connection dropped"),
            ClientError::ReadFailed(m) => {
                let mut r = String::from_str("reading failed: ");
                r.append(m.as_str());
                r
            },
            ClientError::WriteFailed(m) => {
                let mut r = String::from_str("writing failed: ");
                r.append(m.as_str());
                r
            },
            ClientError::RequestFailed => String::from_str("request failed"),
            ClientError::InvalidMode => String::from_str("invalid video mode"),
        }
    }
}

} // verus!
