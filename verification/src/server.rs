use vstd::prelude::*;

use crate::error::{ConnectError, RecvError};
use crate::handshake::{
    reply_model, spec_server_accepts, HandshakeState, HANDSHAKE_REQUEST, HANDSHAKE_RESPONSE,
};
use crate::packet::{Packet, SpecPacket};

verus! {

// The server's side of the handshake: the verdict on a freshly accepted
// connection's first packet. A conforming hello earns the fixed answer byte;
// anything else fails that connection alone, and the transport layer drops
// it without touching the listener.

/// The server's verdict on the first packet of a new connection: when it is
/// the client's handshake byte, the connection is established and the reply
/// to send back is returned; every other outcome is a handshake failure.
pub fn server_on_hello(req: Result<Packet, RecvError>) -> (r: (
    HandshakeState,
    Result<Packet, ConnectError>,
))
    ensures
        r.0 is Established <==> spec_server_accepts(reply_model(req)),
        r.0 is Established ==> (r.1 matches Ok(p) && p@ == SpecPacket::Byte(HANDSHAKE_RESPONSE)),
        !(r.0 is Established) ==> r.0 is Failed && (r.1 matches Err(e) && e is BadHandshake),
{
    match req {
        Err(v) => (
            HandshakeState::Failed,
            Err(ConnectError::BadHandshake(v.message())),
        ),
        Ok(Packet::Byte(b)) => {
            if b == HANDSHAKE_REQUEST {
                (HandshakeState::Established, Ok(Packet::Byte(HANDSHAKE_RESPONSE)))
            } else {
                (
                    HandshakeState::Failed,
                    Err(ConnectError::BadHandshake("invalid packet".to_owned())),
                )
            }
        },
        Ok(_) => (
            HandshakeState::Failed,
            Err(ConnectError::BadHandshake("invalid packet".to_owned())),
        ),
    }
}

} // verus!
