use vstd::prelude::*;
use vstd::string::StringExecFns;

use crate::error::{IoErrorKind, RecvError};
use crate::packet::{Packet, SpecPacket};
use crate::socket::{spec_consumption, spec_status_text, ACSocket, PowerState, SocketModel};

verus! {

// The per-connection dispatch: one decoded request in, at most one response
// out, against the shared device registry. Commands address the registry's
// first socket; listing enumerates them all. Single-device deployments are
// the configuration the protocol fully specifies; the first-socket addressing
// is this library's explicit choice for larger registries.

/// The server's closed set of commands, one opcode byte each.
#[derive(Debug, Clone, Copy, PartialEq, Eq, Structural)]
pub enum Commands {
    PowerOn,
    PowerOff,
    GetStatus,
    GetConsumption,
    ListDevices,
}

impl Commands {
    /// The opcode byte that carries this command on the wire.
    pub open spec fn spec_opcode(self) -> u8 {
        match self {
            Commands::PowerOn => 1,
            Commands::PowerOff => 2,
            Commands::GetStatus => 3,
            Commands::GetConsumption => 4,
            Commands::ListDevices => 5,
        }
    }

    /// The opcode byte that carries this command on the wire.
    pub fn opcode(self) -> (r: u8)
        ensures
            r == self.spec_opcode(),
    {
        match self {
            Commands::PowerOn => 1,
            Commands::PowerOff => 2,
            Commands::GetStatus => 3,
            Commands::GetConsumption => 4,
            Commands::ListDevices => 5,
        }
    }

    /// The command a received opcode byte names, if any: the set is closed,
    /// and every other byte is an unsupported command.
    pub open spec fn spec_from_opcode(v: u8) -> Option<Commands> {
        if v == 1 {
            Some(Commands::PowerOn)
        } else if v == 2 {
            Some(Commands::PowerOff)
        } else if v == 3 {
            Some(Commands::GetStatus)
        } else if v == 4 {
            Some(Commands::GetConsumption)
        } else if v == 5 {
            Some(Commands::ListDevices)
        } else {
            None
        }
    }

    /// The command a received opcode byte names, if any.
    pub fn from_opcode(v: u8) -> (r: Option<Commands>)
        ensures
            r == Commands::spec_from_opcode(v),
    {
        if v == 1 {
            Some(Commands::PowerOn)
        } else if v == 2 {
            Some(Commands::PowerOff)
        } else if v == 3 {
            Some(Commands::GetStatus)
        } else if v == 4 {
            Some(Commands::GetConsumption)
        } else if v == 5 {
            Some(Commands::ListDevices)
        } else {
            None
        }
    }
}

/// What the dispatch loop does after one receive: answer with one packet,
/// skip an unsupported request and keep serving, end the loop because the
/// peer left cleanly, or end it because this connection failed.
#[derive(Debug)]
pub enum ServerAction {
    Reply(Packet),
    Unsupported,
    Disconnect,
    ConnFail(RecvError),
}

/// The mathematical model of a dispatch outcome.
pub enum SpecServerAction {
    Reply(SpecPacket),
    Unsupported,
    Disconnect,
    ConnFail(RecvError),
}

impl View for ServerAction {
    type V = SpecServerAction;

    open spec fn view(&self) -> SpecServerAction {
        match self {
            ServerAction::Reply(p) => SpecServerAction::Reply(p@),
            ServerAction::Unsupported => SpecServerAction::Unsupported,
            ServerAction::Disconnect => SpecServerAction::Disconnect,
            ServerAction::ConnFail(e) => SpecServerAction::ConnFail(*e),
        }
    }
}

/// The models of a registry's sockets, in registry order.
pub open spec fn models_of(devs: Seq<ACSocket>) -> Seq<SocketModel> {
    devs.map_values(|d: ACSocket| d@)
}

/// The device listing: every identifier, one per line, in registry order.
pub open spec fn spec_list_text(ms: Seq<SocketModel>) -> Seq<char>
    decreases ms.len(),
{
    if ms.len() == 0 {
        Seq::empty()
    } else {
        spec_list_text(ms.drop_last()) + ms.last().id + "\n"@
    }
}

/// The registry after the first socket's power is set, identities untouched.
pub open spec fn spec_set_first(ms: Seq<SocketModel>, p: PowerState) -> Seq<SocketModel>
    recommends
        ms.len() >= 1,
{
    ms.update(0, SocketModel { power: p, id: ms[0].id })
}

/// What one dispatch step does: the registry afterwards, and the action
/// taken. A clean end of stream ends the loop normally; any other receive
/// error fails the connection; a packet that is not a byte, or a byte
/// outside the opcode set, is reported and skipped; each defined opcode
/// produces exactly one reply. `measured` and `consumption_text` are the
/// measurement collaborator's current reading, as bits and as text.
pub open spec fn spec_handle(
    ms: Seq<SocketModel>,
    req: Result<SpecPacket, RecvError>,
    measured: u32,
    consumption_text: Seq<char>,
) -> (Seq<SocketModel>, SpecServerAction)
    recommends
        ms.len() >= 1,
{
    match req {
        Err(e) => {
            if e == RecvError::Io(IoErrorKind::UnexpectedEof) {
                (ms, SpecServerAction::Disconnect)
            } else {
                (ms, SpecServerAction::ConnFail(e))
            }
        },
        Ok(p) => match p {
            SpecPacket::Byte(v) => match Commands::spec_from_opcode(v) {
                Some(Commands::PowerOn) => (
                    spec_set_first(ms, PowerState::ON),
                    SpecServerAction::Reply(SpecPacket::Byte(1)),
                ),
                Some(Commands::PowerOff) => (
                    spec_set_first(ms, PowerState::OFF),
                    SpecServerAction::Reply(SpecPacket::Byte(1)),
                ),
                Some(Commands::GetStatus) => (
                    ms,
                    SpecServerAction::Reply(
                        SpecPacket::Str(spec_status_text(ms[0], consumption_text)),
                    ),
                ),
                Some(Commands::GetConsumption) => (
                    ms,
                    SpecServerAction::Reply(SpecPacket::Float32(spec_consumption(ms[0], measured))),
                ),
                Some(Commands::ListDevices) => (
                    ms,
                    SpecServerAction::Reply(SpecPacket::Str(spec_list_text(ms))),
                ),
                None => (ms, SpecServerAction::Unsupported),
            },
            _ => (ms, SpecServerAction::Unsupported),
        },
    }
}

/// The device listing of the registry, one identifier per line.
pub fn list_devices_text(devices: &Vec<ACSocket>) -> (r: String)
    ensures
        r@ == spec_list_text(models_of(devices@)),
{
    let ghost ms = models_of(devices@);
    let mut out = String::new();
    let mut i: usize = 0;
    proof {
        assert(ms.take(0) =~= Seq::<SocketModel>::empty());
    }
    while i < devices.len()
        invariant
            i <= devices@.len(),
            ms == models_of(devices@),
            out@ == spec_list_text(ms.take(i as int)),
        decreases devices@.len() - i,
    {
        out.append(devices[i].get_id().as_str());
        out.append("\n");
        proof {
            assert(ms.take(i as int + 1).drop_last() =~= ms.take(i as int));
            assert(ms.take(i as int + 1).last() == ms[i as int]);
        }
        i = i + 1;
    }
    proof {
        assert(ms.take(devices@.len() as int) =~= ms);
    }
    out
}

/// One step of the per-connection loop: decides what the received packet
/// asks, executes it against the registry, and says what to do next. The
/// registry must hold at least one socket, which commands address.
pub fn handle_request(
    devices: &mut Vec<ACSocket>,
    request: Result<Packet, RecvError>,
    measured: u32,
    consumption_text: &str,
) -> (act: ServerAction)
    requires
        old(devices)@.len() >= 1,
    ensures
        ({
            let (ms2, a) = spec_handle(
                models_of(old(devices)@),
                crate::handshake::reply_model(request),
                measured,
                consumption_text@,
            );
            models_of(final(devices)@) == ms2 && act@ == a
        }),
{
    let ghost ms = models_of(devices@);
    match request {
        Err(RecvError::Io(IoErrorKind::UnexpectedEof)) => ServerAction::Disconnect,
        Err(e) => ServerAction::ConnFail(e),
        Ok(p) => match p {
            Packet::Byte(v) => match Commands::from_opcode(v) {
                Some(Commands::PowerOn) => {
                    let mut d = devices.remove(0);
                    d.switch(PowerState::ON);
                    devices.insert(0, d);
                    proof {
                        assert(models_of(devices@) =~= spec_set_first(ms, PowerState::ON));
                    }
                    ServerAction::Reply(Packet::Byte(1))
                },
                Some(Commands::PowerOff) => {
                    let mut d = devices.remove(0);
                    d.switch(PowerState::OFF);
                    devices.insert(0, d);
                    proof {
                        assert(models_of(devices@) =~= spec_set_first(ms, PowerState::OFF));
                    }
                    ServerAction::Reply(Packet::Byte(1))
                },
                Some(Commands::GetStatus) => {
                    let text = devices[0].get_status(consumption_text);
                    proof {
                        assert(ms[0] == devices@[0]@);
                    }
                    ServerAction::Reply(Packet::Str(text))
                },
                Some(Commands::GetConsumption) => {
                    let c = devices[0].get_consumption(measured);
                    proof {
                        assert(ms[0] == devices@[0]@);
                    }
                    ServerAction::Reply(Packet::Float32(c))
                },
                Some(Commands::ListDevices) => {
                    let text = list_devices_text(devices);
                    ServerAction::Reply(Packet::Str(text))
                },
                None => ServerAction::Unsupported,
            },
            _ => ServerAction::Unsupported,
        },
    }
}

/// One command round trip against a conforming server succeeds end to end:
/// the request byte survives the wire, every defined opcode makes the server
/// reply with exactly one packet, and that reply survives the wire back to
/// the client — whatever bytes follow each message on its stream. The bounds
/// on the two reply texts only keep them inside the wire format's 4-byte
/// length field.
pub proof fn lemma_command_round_trip(
    ms: Seq<SocketModel>,
    cmd: u8,
    measured: u32,
    consumption_text: Seq<char>,
    rest_to_server: Seq<u8>,
    rest_to_client: Seq<u8>,
)
    requires
        ms.len() >= 1,
        1 <= cmd <= 5,
        vstd::utf8::encode_utf8(spec_status_text(ms[0], consumption_text)).len() <= u32::MAX,
        vstd::utf8::encode_utf8(spec_list_text(ms)).len() <= u32::MAX,
    ensures
        crate::codec::spec_read_packet(
            crate::packet::spec_encode(SpecPacket::Byte(cmd)) + rest_to_server,
        ) == Ok::<(SpecPacket, int), (RecvError, int)>((SpecPacket::Byte(cmd), 2)),
        ({
            let (_, a) = spec_handle(ms, Ok(SpecPacket::Byte(cmd)), measured, consumption_text);
            &&& a matches SpecServerAction::Reply(reply)
            &&& reply.wire_len_ok()
            &&& crate::codec::spec_read_packet(
                crate::packet::spec_encode(reply) + rest_to_client,
            ) == Ok::<(SpecPacket, int), (RecvError, int)>(
                (reply, crate::packet::spec_encode(reply).len() as int),
            )
        }),
{
    crate::codec::lemma_round_trip(SpecPacket::Byte(cmd), rest_to_server);
    let (_, a) = spec_handle(ms, Ok(SpecPacket::Byte(cmd)), measured, consumption_text);
    let reply = a->Reply_0;
    crate::codec::lemma_round_trip(reply, rest_to_client);
}

/// Consumption is exactly zero while the socket is off; and once a power-on
/// command has been handled, a consumption query reports exactly the
/// measured reading — so a positive reading is reported positive.
pub proof fn lemma_consumption(
    ms: Seq<SocketModel>,
    measured: u32,
    consumption_text: Seq<char>,
)
    requires
        ms.len() >= 1,
    ensures
        ms[0].power is OFF ==> spec_handle(
            ms,
            Ok(SpecPacket::Byte(4)),
            measured,
            consumption_text,
        ).1 == SpecServerAction::Reply(SpecPacket::Float32(0)),
        ({
            let (after_on, _) = spec_handle(ms, Ok(SpecPacket::Byte(1)), measured, consumption_text);
            spec_handle(after_on, Ok(SpecPacket::Byte(4)), measured, consumption_text).1
                == SpecServerAction::Reply(SpecPacket::Float32(measured))
        }),
{
}

} // verus!
