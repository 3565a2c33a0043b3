use vstd::prelude::*;

verus! {

// The protocol's error taxonomy. Transport failures are reported as `Io` with a
// kind of the library's own; a real socket's error is mapped to a kind at the
// transport boundary, outside the library. Format violations (an unknown tag,
// bytes that are not UTF-8) are `InvalidFormat`, so callers can tell a peer
// that sent garbage from a transport that died.

/// The transport failure kinds the protocol layer distinguishes.
#[derive(Debug, Clone, Copy, PartialEq, Eq)]
pub enum IoErrorKind {
    /// The stream ended before a full packet was read or written.
    UnexpectedEof,
    /// Any other transport failure.
    Other,
}

/// Receive error: transport failure or a malformed packet.
#[derive(Debug, Clone, PartialEq, Eq)]
pub enum RecvError {
    Io(IoErrorKind),
    InvalidFormat,
}

/// Send error: transport failure or a packet without a defined wire layout.
#[derive(Debug, Clone, PartialEq, Eq)]
pub enum SendError {
    Io(IoErrorKind),
    UnexpectedPacket,
}

/// Connection error: a failed handshake, or a transport failure while connecting.
#[derive(Debug, Clone, PartialEq, Eq)]
pub enum ConnectError {
    BadHandshake(String),
    Io(IoErrorKind),
}

/// Bind error: the listener socket could not be opened.
#[derive(Debug, Clone, PartialEq, Eq)]
pub enum BindError {
    Io(IoErrorKind),
}

/// Command error: one round trip failed while sending or while receiving.
#[derive(Debug, Clone, PartialEq, Eq)]
pub enum CmdError {
    Send(SendError),
    Recv(RecvError),
}

/// The error codes a device itself can answer with.
#[derive(Debug, Clone, PartialEq, Eq)]
pub enum ErrorCode {
    /// Device is offline.
    Off,
    /// No physical device is connected.
    Unbound,
    /// Physical device is already bound.
    AlreadyBound,
    /// Requested command is unsupported.
    UnsupportedCommand,
    /// Command failed; the value may carry details.
    CommandFailed(String),
}

impl RecvError {
    /// A short description, in place of a `Display` form.
    pub fn message(&self) -> (r: String)
        ensures
            *self matches RecvError::Io(_) ==> r@ == "IO error"@,
            *self == RecvError::InvalidFormat ==> r@ == "invalid format"@,
    {
        match self {
            RecvError::Io(_) => "IO error".to_owned(),
            RecvError::InvalidFormat => "invalid format".to_owned(),
        }
    }
}

impl SendError {
    /// A short description, in place of a `Display` form.
    pub fn message(&self) -> (r: String)
        ensures
            *self matches SendError::Io(_) ==> r@ == "IO error"@,
            *self == SendError::UnexpectedPacket ==> r@ == "Unexpected packet"@,
    {
        match self {
            SendError::Io(_) => "IO error".to_owned(),
            SendError::UnexpectedPacket => "Unexpected packet".to_owned(),
        }
    }
}

} // verus!
