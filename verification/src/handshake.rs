use vstd::prelude::*;

use crate::codec::{lemma_round_trip, spec_read_packet};
use crate::error::RecvError;
use crate::packet::{spec_encode, Packet, SpecPacket};

verus! {

// The two-message liveness check that precedes application traffic: the
// client opens with one fixed byte, the server answers with another. The
// values are the protocol's magic constants; both ends must reproduce them
// exactly. Nothing here is a security mechanism.

/// The byte a conforming client opens the handshake with.
pub const HANDSHAKE_REQUEST: u8 = 42;

/// The byte a conforming server answers the handshake with.
pub const HANDSHAKE_RESPONSE: u8 = 24;

/// One endpoint's progress through the handshake. `Established` is the only
/// state from which application packets may flow.
#[derive(Debug, Clone, Copy, PartialEq, Eq, Structural)]
pub enum HandshakeState {
    AwaitSend,
    AwaitPeerReply,
    Established,
    Failed,
}

/// The model of a received packet: the packet's model, or the receive error.
pub open spec fn reply_model(r: Result<Packet, RecvError>) -> Result<SpecPacket, RecvError> {
    match r {
        Ok(p) => Ok(p@),
        Err(e) => Err(e),
    }
}

/// The client's verdict on the peer's reply to its hello.
pub open spec fn spec_client_on_reply(reply: Result<SpecPacket, RecvError>) -> HandshakeState {
    if reply == Ok::<SpecPacket, RecvError>(SpecPacket::Byte(HANDSHAKE_RESPONSE)) {
        HandshakeState::Established
    } else {
        HandshakeState::Failed
    }
}

/// Whether the server accepts what it received as a conforming hello.
pub open spec fn spec_server_accepts(req: Result<SpecPacket, RecvError>) -> bool {
    req == Ok::<SpecPacket, RecvError>(SpecPacket::Byte(HANDSHAKE_REQUEST))
}

/// A conforming exchange establishes the session on both ends: the hello
/// survives the wire, the server accepts it and answers, and the answer
/// survives the wire and satisfies the client — whatever bytes follow each
/// message on its stream.
pub proof fn lemma_handshake_success(rest_to_server: Seq<u8>, rest_to_client: Seq<u8>)
    ensures
        spec_read_packet(spec_encode(SpecPacket::Byte(HANDSHAKE_REQUEST)) + rest_to_server)
            == Ok::<(SpecPacket, int), (RecvError, int)>((SpecPacket::Byte(HANDSHAKE_REQUEST), 2)),
        spec_server_accepts(Ok(SpecPacket::Byte(HANDSHAKE_REQUEST))),
        spec_read_packet(spec_encode(SpecPacket::Byte(HANDSHAKE_RESPONSE)) + rest_to_client)
            == Ok::<(SpecPacket, int), (RecvError, int)>((SpecPacket::Byte(HANDSHAKE_RESPONSE), 2)),
        spec_client_on_reply(Ok(SpecPacket::Byte(HANDSHAKE_RESPONSE))) is Established,
{
    lemma_round_trip(SpecPacket::Byte(HANDSHAKE_REQUEST), rest_to_server);
    lemma_round_trip(SpecPacket::Byte(HANDSHAKE_RESPONSE), rest_to_client);
}

/// Any reply byte other than the server's answer fails the client; any hello
/// byte other than the client's opening fails the server; so does any
/// non-byte packet or receive error on either side.
pub proof fn lemma_handshake_failure(b: u8, other: Result<SpecPacket, RecvError>)
    ensures
        b != HANDSHAKE_RESPONSE ==> spec_client_on_reply(Ok(SpecPacket::Byte(b))) is Failed,
        b != HANDSHAKE_REQUEST ==> !spec_server_accepts(Ok(SpecPacket::Byte(b))),
        !(other matches Ok(p) && p is Byte) ==> spec_client_on_reply(other) is Failed
            && !spec_server_accepts(other),
{
}

} // verus!
