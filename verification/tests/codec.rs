use iotproto::codec::{read_packet, Decoder};
use iotproto::error::{IoErrorKind, RecvError};
use iotproto::packet::{write_packet, Packet};
use iotproto::stream::MemStream;

fn encode(p: Packet) -> Vec<u8> {
    let mut buf = vec![];
    write_packet(&mut buf, p).unwrap();
    buf
}

#[test]
fn test_read_send() {
    let mut buff = vec![];
    write_packet(&mut buff, Packet::Byte(100)).unwrap();
    write_packet(&mut buff, Packet::Float32(100.2f32.to_bits())).unwrap();
    write_packet(&mut buff, Packet::Int32(342)).unwrap();
    write_packet(&mut buff, Packet::Str(String::from("Hello World!"))).unwrap();

    let mut cursor = MemStream::new(buff);
    assert!(matches!(
        read_packet(&mut cursor).unwrap(),
        Packet::Byte(100)
    ));
    assert!(matches!(
        read_packet(&mut cursor).unwrap(),
        Packet::Float32(_)
    ));
    assert!(matches!(
        read_packet(&mut cursor).unwrap(),
        Packet::Int32(342)
    ));
    let spack = read_packet(&mut cursor).unwrap();
    assert!(matches!(&spack, Packet::Str(_),));
    match spack {
        Packet::Str(v) => assert_eq!(v, String::from("Hello World!")),
        _ => panic!("bad packet"),
    }
}

#[test]
fn round_trip_representative_values() {
    let cases = vec![
        Packet::Byte(0),
        Packet::Byte(255),
        Packet::Int32(-1),
        Packet::Int32(342),
        Packet::Float32(100.2f32.to_bits()),
        Packet::Str(String::new()),
        Packet::Str(String::from("Hello World!")),
    ];
    for p in cases {
        let mut stream = MemStream::new(encode(p.clone()));
        let decoded = read_packet(&mut stream).unwrap();
        assert_eq!(decoded, p);
        assert_eq!(stream.remaining_len(), 0);
    }
}

#[test]
fn exact_wire_bytes() {
    assert_eq!(encode(Packet::Byte(42)), vec![0x01, 0x2A]);
    assert_eq!(encode(Packet::Byte(24)), vec![0x01, 0x18]);
    assert_eq!(
        encode(Packet::Int32(-1)),
        vec![0x02, 0xFF, 0xFF, 0xFF, 0xFF]
    );
    assert_eq!(encode(Packet::Int32(342)), vec![0x02, 0x00, 0x00, 0x01, 0x56]);
    assert_eq!(
        encode(Packet::Float32(1.0f32.to_bits())),
        vec![0x04, 0x3F, 0x80, 0x00, 0x00]
    );
    let mut expected = vec![0x08, 0x00, 0x00, 0x00, 0x02];
    expected.extend_from_slice(b"hi");
    assert_eq!(encode(Packet::Str(String::from("hi"))), expected);
    assert_eq!(encode(Packet::Str(String::new())), vec![0x08, 0, 0, 0, 0]);
}

#[test]
fn truncated_string_payload_is_io_error() {
    // The length field claims 100 bytes; only 10 are there.
    let mut bytes = vec![0x08, 0x00, 0x00, 0x00, 100];
    bytes.extend_from_slice(&[0u8; 10]);
    let mut stream = MemStream::new(bytes);
    let r = read_packet(&mut stream);
    assert_eq!(r, Err(RecvError::Io(IoErrorKind::UnexpectedEof)));
    // The stream is left in its defined failed state: drained.
    assert_eq!(stream.remaining_len(), 0);
}

#[test]
fn unknown_tag_is_invalid_format() {
    let mut stream = MemStream::new(vec![0x10, 0x00, 0x00]);
    assert_eq!(read_packet(&mut stream), Err(RecvError::InvalidFormat));
    // Only the tag byte was consumed.
    assert_eq!(stream.remaining_len(), 2);
}

#[test]
fn invalid_utf8_is_invalid_format() {
    let bytes = vec![0x08, 0x00, 0x00, 0x00, 0x02, 0xFF, 0xFE];
    let mut stream = MemStream::new(bytes);
    assert_eq!(read_packet(&mut stream), Err(RecvError::InvalidFormat));
}

#[test]
fn empty_stream_is_clean_eof() {
    let mut stream = MemStream::new(vec![]);
    assert_eq!(
        read_packet(&mut stream),
        Err(RecvError::Io(IoErrorKind::UnexpectedEof))
    );
}

#[test]
fn decoder_machine_assembles_packets() {
    for p in vec![
        Packet::Byte(7),
        Packet::Int32(-123456),
        Packet::Float32(3.5f32.to_bits()),
        Packet::Str(String::from("abc")),
    ] {
        let bytes = encode(p.clone());
        let mut dec = Decoder::AwaitTag;
        let mut pos = 0usize;
        loop {
            match dec {
                Decoder::Done(q) => {
                    assert_eq!(q, p);
                    assert_eq!(pos, bytes.len());
                    break;
                }
                Decoder::Failed(e) => panic!("decode failed: {:?}", e),
                _ => {}
            }
            let n = dec.need();
            let chunk = bytes[pos..pos + n].to_vec();
            pos += n;
            dec = dec.feed(chunk);
        }
    }
}

#[test]
fn decoder_machine_rejects_unknown_tag() {
    let dec = Decoder::AwaitTag;
    assert_eq!(dec.need(), 1);
    let next = dec.feed(vec![0x10]);
    assert!(matches!(next, Decoder::Failed(RecvError::InvalidFormat)));
}

#[test]
fn round_trip_multibyte_text() {
    // Multi-byte UTF-8: the length field counts bytes, not characters.
    let text = "héllo wörld ✓";
    let p = Packet::Str(String::from(text));
    let bytes = encode(p.clone());
    assert_eq!(bytes[0], 0x08);
    let byte_len = u32::from_be_bytes([bytes[1], bytes[2], bytes[3], bytes[4]]);
    assert_eq!(byte_len as usize, text.len());
    assert!(byte_len as usize > text.chars().count());
    let decoded = read_packet(&mut MemStream::new(bytes)).unwrap();
    assert_eq!(decoded, p);
}

#[test]
fn unknown_tag_leaves_following_packet_readable() {
    // An unrecognized tag consumes no further bytes, so the next packet on
    // the stream is still intact.
    let mut bytes = vec![0x10];
    bytes.extend_from_slice(&[0x01, 42]);
    let mut stream = MemStream::new(bytes);
    assert_eq!(read_packet(&mut stream), Err(RecvError::InvalidFormat));
    assert_eq!(read_packet(&mut stream).unwrap(), Packet::Byte(42));
}

#[test]
fn packet_equality_distinguishes_variants() {
    assert_ne!(Packet::Byte(1), Packet::Int32(1));
    assert_ne!(Packet::Byte(1), Packet::Byte(2));
    assert_eq!(
        Packet::Str(String::from("x")),
        Packet::Str(String::from("x"))
    );
    assert_eq!(Packet::from(5u8), Packet::Byte(5));
}
