use vstd::prelude::*;

use crate::error::{CmdError, ConnectError, RecvError};
use crate::handshake::{
    reply_model, spec_client_on_reply, HandshakeState, HANDSHAKE_REQUEST, HANDSHAKE_RESPONSE,
};
use crate::packet::{Packet, SpecPacket};

verus! {

// The client's side of the protocol: the handshake decisions and the
// request/response shaping of one synchronous command call. Moving the bytes
// over a socket is the transport layer's affair; these functions decide what
// to send and what a received packet means.

/// The packet a conforming client opens the handshake with.
pub fn client_hello() -> (p: Packet)
    ensures
        p@ == SpecPacket::Byte(HANDSHAKE_REQUEST),
{
    Packet::Byte(HANDSHAKE_REQUEST)
}

/// The client's verdict on the peer's reply to its hello: the session is
/// established exactly when the reply is the server's handshake byte, and
/// every other outcome is a handshake failure.
pub fn client_on_reply(reply: Result<Packet, RecvError>) -> (r: (
    HandshakeState,
    Result<(), ConnectError>,
))
    ensures
        r.0 == spec_client_on_reply(reply_model(reply)),
        r.0 is Established <==> r.1 is Ok,
        r.1 matches Err(e) ==> e is BadHandshake,
{
    match reply {
        Err(v) => (
            HandshakeState::Failed,
            Err(ConnectError::BadHandshake(v.message())),
        ),
        Ok(Packet::Byte(b)) => {
            if b == HANDSHAKE_RESPONSE {
                (HandshakeState::Established, Ok(()))
            } else {
                (
                    HandshakeState::Failed,
                    Err(ConnectError::BadHandshake("invalid handshake code".to_owned())),
                )
            }
        },
        Ok(_) => (
            HandshakeState::Failed,
            Err(ConnectError::BadHandshake("invalid handshake code".to_owned())),
        ),
    }
}

/// The request packet that carries one command opcode.
pub fn cmd_request(cmd: u8) -> (p: Packet)
    ensures
        p@ == SpecPacket::Byte(cmd),
{
    Packet::from(cmd)
}

/// The client's reading of what came back after a command was sent: the
/// response packet as the call's result, or the receive error as a command
/// error.
pub fn cmd_response(read: Result<Packet, RecvError>) -> (r: Result<Packet, CmdError>)
    ensures
        read matches Ok(p) ==> r matches Ok(q) && q == p,
        read matches Err(e) ==> r == Err::<Packet, CmdError>(CmdError::Recv(e)),
{
    match read {
        Ok(p) => Ok(p),
        Err(e) => Err(CmdError::Recv(e)),
    }
}

} // verus!
