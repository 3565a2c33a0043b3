use iotproto::client::{client_hello, client_on_reply, cmd_request, cmd_response};
use iotproto::codec::read_packet;
use iotproto::error::{CmdError, ConnectError, RecvError};
use iotproto::handshake::HandshakeState;
use iotproto::iotserver::{handle_request, Commands, ServerAction};
use iotproto::packet::{write_packet, Packet};
use iotproto::server::server_on_hello;
use iotproto::socket::{ACSocket, PowerState};
use iotproto::stream::MemStream;

fn one_packet_wire(p: Packet) -> Result<Packet, RecvError> {
    let mut buf = vec![];
    write_packet(&mut buf, p).unwrap();
    read_packet(&mut MemStream::new(buf))
}

fn socket(id: &str) -> ACSocket {
    ACSocket::with_id(String::from(id))
}

/// One full request/response round trip through the wire against a registry.
fn round_trip_cmd(
    devices: &mut Vec<ACSocket>,
    cmd: u8,
    measured: f32,
) -> Result<Packet, CmdError> {
    // Client side: send the command.
    let mut to_server = vec![];
    write_packet(&mut to_server, cmd_request(cmd)).unwrap();
    // Server side: decode, dispatch, answer.
    let request = read_packet(&mut MemStream::new(to_server));
    let act = handle_request(
        devices,
        request,
        measured.to_bits(),
        &format!("{}", measured),
    );
    match act {
        ServerAction::Reply(response) => {
            let mut to_client = vec![];
            write_packet(&mut to_client, response).unwrap();
            cmd_response(read_packet(&mut MemStream::new(to_client)))
        }
        other => panic!("no reply: {:?}", other),
    }
}

#[test]
fn handshake_success_establishes_both_ends() {
    // Client -> server.
    let server_view = one_packet_wire(client_hello());
    let (server_state, reply) = server_on_hello(server_view);
    assert_eq!(server_state, HandshakeState::Established);
    // Server -> client.
    let client_view = one_packet_wire(reply.unwrap());
    let (client_state, verdict) = client_on_reply(client_view);
    assert_eq!(client_state, HandshakeState::Established);
    assert!(verdict.is_ok());
}

#[test]
fn handshake_wrong_reply_fails_client() {
    for b in [0u8, 23, 25, 42, 255] {
        let (state, verdict) = client_on_reply(one_packet_wire(Packet::Byte(b)));
        assert_eq!(state, HandshakeState::Failed);
        assert!(matches!(verdict, Err(ConnectError::BadHandshake(_))));
    }
    // A non-byte reply fails too.
    let (state, _) = client_on_reply(one_packet_wire(Packet::Int32(24)));
    assert_eq!(state, HandshakeState::Failed);
}

#[test]
fn handshake_wrong_hello_fails_server_only_for_that_connection() {
    for b in [0u8, 24, 41, 43, 255] {
        let (state, reply) = server_on_hello(one_packet_wire(Packet::Byte(b)));
        assert_eq!(state, HandshakeState::Failed);
        assert!(matches!(reply, Err(ConnectError::BadHandshake(_))));
    }
    // The next, conforming attempt still succeeds: a failed handshake does
    // not poison the accept path.
    let (state, reply) = server_on_hello(one_packet_wire(client_hello()));
    assert_eq!(state, HandshakeState::Established);
    assert_eq!(reply.unwrap(), Packet::Byte(24));
}

#[test]
fn consumption_off_is_zero_and_positive_after_power_on() {
    let mut devices = vec![socket("sock-1")];
    // OFF: exactly 0.0, whatever was measured.
    let r = round_trip_cmd(&mut devices, Commands::GetConsumption.opcode(), 55.5).unwrap();
    match r {
        Packet::Float32(bits) => assert_eq!(f32::from_bits(bits), 0.0),
        other => panic!("unexpected response {:?}", other),
    }
    // Power on, then query: the measured (positive) reading comes back.
    let ack = round_trip_cmd(&mut devices, Commands::PowerOn.opcode(), 55.5).unwrap();
    assert_eq!(ack, Packet::Byte(1));
    let r = round_trip_cmd(&mut devices, Commands::GetConsumption.opcode(), 55.5).unwrap();
    match r {
        Packet::Float32(bits) => {
            assert!(f32::from_bits(bits) > 0.0);
            assert_eq!(f32::from_bits(bits), 55.5);
        }
        other => panic!("unexpected response {:?}", other),
    }
}

#[test]
fn status_and_listing_texts() {
    let mut devices = vec![socket("alpha"), socket("beta")];
    let r = round_trip_cmd(&mut devices, Commands::GetStatus.opcode(), 1.5).unwrap();
    assert_eq!(
        r,
        Packet::Str(String::from("id = alpha, power = OFF, consumption = 1.5"))
    );
    let r = round_trip_cmd(&mut devices, Commands::ListDevices.opcode(), 1.5).unwrap();
    assert_eq!(r, Packet::Str(String::from("alpha\nbeta\n")));
    // Power state is reflected once switched.
    round_trip_cmd(&mut devices, Commands::PowerOn.opcode(), 1.5).unwrap();
    let r = round_trip_cmd(&mut devices, Commands::GetStatus.opcode(), 2.5).unwrap();
    assert_eq!(
        r,
        Packet::Str(String::from("id = alpha, power = ON, consumption = 2.5"))
    );
}

#[test]
fn unsupported_requests_are_skipped_not_fatal() {
    let mut devices = vec![socket("s")];
    // An opcode outside the closed set.
    let act = handle_request(&mut devices, one_packet_wire(Packet::Byte(9)), 0, "0");
    assert!(matches!(act, ServerAction::Unsupported));
    // A non-byte packet in opcode position.
    let act = handle_request(&mut devices, one_packet_wire(Packet::Int32(1)), 0, "0");
    assert!(matches!(act, ServerAction::Unsupported));
    // The connection still serves the next, valid command.
    let r = round_trip_cmd(&mut devices, Commands::PowerOn.opcode(), 0.5).unwrap();
    assert_eq!(r, Packet::Byte(1));
}

#[test]
fn clean_eof_disconnects_and_garbage_fails_connection() {
    let mut devices = vec![socket("s")];
    let act = handle_request(
        &mut devices,
        read_packet(&mut MemStream::new(vec![])),
        0,
        "0",
    );
    assert!(matches!(act, ServerAction::Disconnect));
    let act = handle_request(
        &mut devices,
        read_packet(&mut MemStream::new(vec![0x10])),
        0,
        "0",
    );
    assert!(matches!(
        act,
        ServerAction::ConnFail(RecvError::InvalidFormat)
    ));
}

#[test]
fn two_clients_share_the_registry_and_fail_independently() {
    // One registry, two connections served against it.
    let mut devices = vec![socket("shared")];
    // Client A powers the socket on.
    let r = round_trip_cmd(&mut devices, Commands::PowerOn.opcode(), 9.25).unwrap();
    assert_eq!(r, Packet::Byte(1));
    // Client B sees the state A set: the registry is shared, not cloned.
    let r = round_trip_cmd(&mut devices, Commands::GetConsumption.opcode(), 9.25).unwrap();
    assert_eq!(r, Packet::Float32(9.25f32.to_bits()));
    // Client A's connection dies on garbage; B's next request is unaffected.
    let act = handle_request(
        &mut devices,
        read_packet(&mut MemStream::new(vec![0x42, 0, 0])),
        0,
        "0",
    );
    assert!(matches!(act, ServerAction::ConnFail(_)));
    let r = round_trip_cmd(&mut devices, Commands::GetStatus.opcode(), 9.25).unwrap();
    assert_eq!(
        r,
        Packet::Str(String::from("id = shared, power = ON, consumption = 9.25"))
    );
}

#[test]
fn socket_state_text() {
    let mut s = socket("s1");
    assert_eq!(s.get_state("0"), "power = OFF, consumption = 0");
    s.switch(PowerState::ON);
    assert_eq!(s.get_state("12.5"), "power = ON, consumption = 12.5");
}

#[test]
fn fresh_socket_ids_have_generator_shape() {
    // The generated identifier is 20 base32-hex characters; two sockets get
    // distinct identifiers.
    let a = ACSocket::new();
    let b = ACSocket::new();
    assert_eq!(a.get_id().len(), 20);
    assert_eq!(b.get_id().len(), 20);
    assert!(a.get_id().chars().all(|c| c.is_ascii_alphanumeric()));
    assert_ne!(a.get_id(), b.get_id());
    assert_eq!(a.get_power(), PowerState::OFF);
}

#[test]
fn switch_is_idempotent() {
    let mut s = socket("x");
    s.switch(PowerState::ON);
    assert_eq!(s.get_power(), PowerState::ON);
    s.switch(PowerState::ON);
    assert_eq!(s.get_power(), PowerState::ON);
    s.switch(PowerState::OFF);
    assert_eq!(s.get_power(), PowerState::OFF);
    s.switch(PowerState::OFF);
    assert_eq!(s.get_power(), PowerState::OFF);
}

#[test]
fn opcode_mapping_is_closed() {
    let all = [
        Commands::PowerOn,
        Commands::PowerOff,
        Commands::GetStatus,
        Commands::GetConsumption,
        Commands::ListDevices,
    ];
    for c in all {
        assert_eq!(Commands::from_opcode(c.opcode()), Some(c));
    }
    for v in [0u8, 6, 7, 42, 255] {
        assert_eq!(Commands::from_opcode(v), None);
    }
}

#[test]
fn command_errors_carry_the_receive_error() {
    let r = cmd_response(Err(RecvError::InvalidFormat));
    assert_eq!(r, Err(CmdError::Recv(RecvError::InvalidFormat)));
    let r = cmd_response(Ok(Packet::Byte(3)));
    assert_eq!(r, Ok(Packet::Byte(3)));
}

#[test]
fn error_messages() {
    assert_eq!(RecvError::InvalidFormat.message(), "invalid format");
    assert_eq!(
        iotproto::error::SendError::UnexpectedPacket.message(),
        "Unexpected packet"
    );
}
