use goldmine_lib::codec::{DecodeError, EncodeError};
use goldmine_lib::connection::{Connections, Ipv4Address};
use goldmine_lib::constants::{
    HandshakeCookie, HandshakeData, HandshakeDoubleNull, HandshakeFlags, HandshakeUnknown, Magic,
    NullByte,
};
use goldmine_lib::encapsulation::{Encapsulation, EncapsulationOf};
use goldmine_lib::game_packets::{GamePacket, GamePacketOf};
use goldmine_lib::packets::{Packet, PacketOf, RAKNET_VERSION};
use goldmine_lib::registry::{Registries, Registry, RegistryError};
use goldmine_lib::server::{
    ack_for, login_status, wrap_replies, DispatchError, Server, SERVER_VERSION,
};
use goldmine_lib::u24::u24;

const MAGIC: [u8; 16] = [
    0x00, 0xff, 0xff, 0x00, 0xfe, 0xfe, 0xfe, 0xfe, 0xfd, 0xfd, 0xfd, 0xfd, 0x12, 0x34, 0x56, 0x78,
];

fn seq24(v: u32) -> u24 {
    u24::from_le_bytes([(v & 0xff) as u8, ((v >> 8) & 0xff) as u8, ((v >> 16) & 0xff) as u8])
}

fn round_trip(p: Packet) {
    let bytes = p.encode().expect("encodable");
    let back = Packet::decode(&bytes).expect("decodable");
    assert_eq!(back, p);
}

fn game_round_trip(p: GamePacket) {
    let bytes = p.encode().expect("encodable");
    let back = GamePacket::decode(&bytes).expect("decodable");
    assert_eq!(back, p);
}

fn server() -> Server {
    Server::new(0x1122334455667788, "Goldmine server".to_string(), 19132, 1234, 1)
}

fn client() -> Ipv4Address {
    Ipv4Address { ip: 0xc0a80005, port: 40000 }
}

fn simple(payload: Vec<u8>) -> Encapsulation {
    Encapsulation::simple(payload).expect("fits")
}

#[test]
fn u24_be_bytes_round_trip() {
    for b in [[0u8, 0, 0], [1, 2, 3], [0xff, 0xfe, 0x80], [0xff, 0xff, 0xff]] {
        assert_eq!(u24::from_be_bytes(b).to_be_bytes(), b);
        assert_eq!(u24::from_le_bytes(b).to_le_bytes(), b);
    }
}

#[test]
fn u24_values_and_byte_orders() {
    let v = u24::from_be_bytes([1, 2, 3]);
    assert_eq!(v.get(), 0x010203);
    assert_eq!(v.to_le_bytes(), [3, 2, 1]);
    assert_eq!(u24::from_le_bytes([1, 2, 3]).get(), 0x030201);
    assert_eq!(v.to_be().get(), 0x030201);
    assert_eq!(u24::from_be(v).get(), 0x030201);
    assert_eq!(v.to_le(), v);
    assert_eq!(u24::from_le(v), v);
    assert_eq!(u24::default().get(), 0);
    assert_eq!(u24::from_be_bytes([0xff, 0xff, 0xff]).get(), 0xff_ffff);
}

#[test]
fn ping_request_bytes() {
    let p: Packet = PacketOf::PingRequest { ping_id: 7, magic: Magic };
    let bytes = p.encode().unwrap();
    let mut expected = vec![0x02, 0, 0, 0, 0, 0, 0, 0, 7];
    expected.extend_from_slice(&MAGIC);
    assert_eq!(bytes, expected);
}

#[test]
fn transport_round_trips() {
    round_trip(PacketOf::PingRequest { ping_id: u64::MAX, magic: Magic });
    round_trip(PacketOf::PongReply {
        ping_id: 1,
        server_guid: 2,
        magic: Magic,
        server_string: "MCCPP;Demo;Goldmine é".to_string(),
    });
    round_trip(PacketOf::PongReply { ping_id: 0, server_guid: 0, magic: Magic, server_string: String::new() });
    round_trip(PacketOf::ConnectionRequest1 { magic: Magic, protocol_version: RAKNET_VERSION });
    round_trip(PacketOf::ConnectionReply1 { magic: Magic, server_guid: 9, null_byte: NullByte, mtu: 1447 });
    round_trip(PacketOf::ConnectionRequest2 {
        magic: Magic,
        client_addr: [4, 127, 0, 0, 1],
        client_port: 19132,
        mtu: 1400,
    });
    round_trip(PacketOf::ConnectionReply2 {
        magic: Magic,
        server_guid: 3,
        client_ip_type: 4,
        client_ip: [10, 0, 0, 1],
        client_port: 5000,
        mtu: 1200,
        null_byte: NullByte,
    });
    round_trip(PacketOf::Custom { sequence: seq24(0x123456), frames: vec![simple(vec![0, 1, 2])] });
    round_trip(PacketOf::Ack { count: 1, single: true, seq: seq24(5), seq_range_end: u24::default() });
    round_trip(PacketOf::Ack { count: 1, single: false, seq: seq24(5), seq_range_end: seq24(9) });
    round_trip(PacketOf::Nak { count: 2, single: false, seq: seq24(1), seq_range_end: seq24(0xffffff) });
}

#[test]
fn longest_server_string_round_trips() {
    let name = "a".repeat(0xffff);
    let p: Packet = PacketOf::PongReply { ping_id: 1, server_guid: 2, magic: Magic, server_string: name };
    let bytes = p.encode().unwrap();
    assert_eq!(bytes.len(), 35 + 0xffff);
    assert_eq!(&bytes[33..35], &[0xff, 0xff]);
    assert_eq!(Packet::decode(&bytes), Ok(p));
}

#[test]
fn ping_with_too_long_name_gets_no_reply() {
    let mut s = Server::new(1, "a".repeat(0x10000), 19132, 0, 0);
    let ping: Packet = PacketOf::PingRequest { ping_id: 7, magic: Magic };
    assert_eq!(s.handle_packet(ping, client()), Err(DispatchError::ServerNameTooLong));
    let mut s = Server::new(1, "a".repeat(0xffff), 19132, 0, 0);
    let ping: Packet = PacketOf::PingRequest { ping_id: 7, magic: Magic };
    assert_eq!(s.handle_packet(ping, client()).unwrap().len(), 1);
}

#[test]
fn flipped_cookie_in_a_frame_fails_the_packet() {
    let mut s = server();
    let handshake: GamePacket = GamePacketOf::SCServerHandshake {
        cookie: HandshakeCookie,
        flags: HandshakeFlags,
        server_port: 19132,
        data: HandshakeData,
        unknown1: HandshakeDoubleNull,
        session: 1,
        unknown2: HandshakeUnknown,
    };
    let bytes = handshake.encode().unwrap();
    let intact: Packet = PacketOf::Custom { sequence: seq24(2), frames: vec![simple(bytes.clone())] };
    assert_eq!(s.handle_packet(intact, client()), Ok(vec![]));
    for i in 1..5 {
        let mut altered = bytes.clone();
        altered[i] ^= 0x04;
        let p: Packet = PacketOf::Custom { sequence: seq24(2), frames: vec![simple(altered)] };
        assert_eq!(
            s.handle_packet(p, client()),
            Err(DispatchError::Decode(DecodeError::ConstantMismatch))
        );
    }
}

#[test]
fn too_long_server_string_is_refused() {
    let p: Packet = PacketOf::PongReply {
        ping_id: 1,
        server_guid: 2,
        magic: Magic,
        server_string: "a".repeat(0x10000),
    };
    assert_eq!(p.encode(), Err(EncodeError::StringTooLong));
}

#[test]
fn mismatched_frame_length_is_refused() {
    let frame = EncapsulationOf::Simple { bit_length: 16, payload: vec![1, 2, 3] };
    let p: Packet = PacketOf::Custom { sequence: seq24(1), frames: vec![frame] };
    assert_eq!(p.encode(), Err(EncodeError::LengthMismatch));
}

#[test]
fn game_round_trips() {
    game_round_trip(GamePacketOf::CSPing { ping_id: 42 });
    game_round_trip(GamePacketOf::SCServerHandshake {
        cookie: HandshakeCookie,
        flags: HandshakeFlags,
        server_port: 19132,
        data: HandshakeData,
        unknown1: HandshakeDoubleNull,
        session: 77,
        unknown2: HandshakeUnknown,
    });
    game_round_trip(GamePacketOf::CSClientCancelConnect {});
    game_round_trip(GamePacketOf::CSLogin { username: "Steve".to_string(), proto1: 9, proto2: 9 });
    game_round_trip(GamePacketOf::SCAddPlayer {
        client_id: -5,
        username: "Alex".to_string(),
        entity_id: 3,
        pos_x: 1.5f32.to_bits(),
        pos_y: 64.0f32.to_bits(),
        pos_z: (-2.25f32).to_bits(),
        rot_y: 10,
        rot_x: 20,
        held_item_id: 1,
        held_item_aux: 0,
        metadata: 0x7f,
    });
    game_round_trip(GamePacketOf::SCAddItemEntity {
        entity_id: 1,
        item_id: 2,
        item_amount: 3,
        item_data: 4,
        pos_x: 5,
        pos_y: 6,
        pos_z: 7,
        speed_x: -1,
        speed_y: 0,
        speed_z: 127,
    });
    game_round_trip(GamePacketOf::SignUpdate {
        pos_x: 1,
        pos_y: 2,
        pos_z: 3,
        line_1: "one".to_string(),
        line_2: String::new(),
        line_3: "ünï".to_string(),
        line_4: "four".to_string(),
    });
}

#[test]
fn sign_lines_have_little_endian_counts() {
    let p: GamePacket = GamePacketOf::SignUpdate {
        pos_x: 0x0102,
        pos_y: 3,
        pos_z: 0x0405,
        line_1: "ab".to_string(),
        line_2: String::new(),
        line_3: String::new(),
        line_4: String::new(),
    };
    let bytes = p.encode().unwrap();
    assert_eq!(bytes, vec![0xb5, 1, 2, 3, 4, 5, 2, 0, b'a', b'b', 0, 0, 0, 0, 0, 0]);
}

#[test]
fn login_bytes() {
    let p: GamePacket = GamePacketOf::CSLogin { username: "Steve".to_string(), proto1: 9, proto2: 0 };
    let bytes = p.encode().unwrap();
    assert_eq!(bytes, vec![0x82, 0, 5, b'S', b't', b'e', b'v', b'e', 0, 0, 0, 9, 0, 0, 0, 0]);
}

#[test]
fn magic_bit_flip_is_rejected() {
    let p: Packet = PacketOf::PingRequest { ping_id: 7, magic: Magic };
    let bytes = p.encode().unwrap();
    assert!(Packet::decode(&bytes).is_ok());
    for i in 9..25 {
        let mut altered = bytes.clone();
        altered[i] ^= 0x01;
        assert_eq!(Packet::decode(&altered), Err(DecodeError::ConstantMismatch));
    }
}

#[test]
fn handshake_constant_is_checked() {
    let p: GamePacket = GamePacketOf::SCServerHandshake {
        cookie: HandshakeCookie,
        flags: HandshakeFlags,
        server_port: 1,
        data: HandshakeData,
        unknown1: HandshakeDoubleNull,
        session: 2,
        unknown2: HandshakeUnknown,
    };
    let mut bytes = p.encode().unwrap();
    assert_eq!(bytes.len(), 1 + 4 + 1 + 2 + 70 + 2 + 8 + 8);
    bytes[5] ^= 0x80;
    assert_eq!(GamePacket::decode(&bytes), Err(DecodeError::ConstantMismatch));
}

#[test]
fn decode_errors() {
    assert_eq!(Packet::decode(&[]), Err(DecodeError::UnexpectedEnd));
    assert_eq!(Packet::decode(&[0x42]), Err(DecodeError::UnknownId(0x42)));
    assert_eq!(Packet::decode(&[0x02, 0, 0]), Err(DecodeError::UnexpectedEnd));
    assert_eq!(Packet::decode(&[0xc0, 0, 1, 2, 0, 0, 0]), Err(DecodeError::InvalidFlag(2)));
    assert_eq!(GamePacket::decode(&[0x01]), Err(DecodeError::UnknownId(0x01)));
    assert_eq!(GamePacket::decode(&[0xb4, 0, 2, 0xff, 0xfe]), Err(DecodeError::InvalidUtf8));
    assert_eq!(GamePacket::decode(&[0xb4, 0, 3, b'a']), Err(DecodeError::UnexpectedEnd));
    assert_eq!(
        GamePacket::decode(&[0xb4, 0, 2, b'h', b'i']),
        Ok(GamePacketOf::CSChat { message: "hi".to_string() })
    );
}

#[test]
fn custom_frame_lists() {
    for n in [0usize, 1, 3] {
        let frames: Vec<Encapsulation> = (0..n).map(|i| simple(vec![0x00, i as u8, 0xaa])).collect();
        let p: Packet = PacketOf::Custom { sequence: seq24(4), frames: frames.clone() };
        let bytes = p.encode().unwrap();
        match Packet::decode(&bytes).unwrap() {
            PacketOf::Custom { sequence, frames: back } => {
                assert_eq!(sequence.get(), 4);
                assert_eq!(back.len(), n);
                assert_eq!(back, frames);
            }
            other => panic!("not a custom packet: {:?}", other),
        }
    }
}

#[test]
fn truncated_frame_is_an_error() {
    let p: Packet = PacketOf::Custom { sequence: seq24(4), frames: vec![simple(vec![1, 2, 3])] };
    let mut bytes = p.encode().unwrap();
    bytes.push(0x00);
    assert_eq!(Packet::decode(&bytes), Err(DecodeError::UnexpectedEnd));
    bytes.pop();
    bytes.push(0x13);
    assert_eq!(Packet::decode(&bytes), Err(DecodeError::UnknownId(0x13)));
}

#[test]
fn extended_frames_round_trip() {
    let frames = vec![
        EncapsulationOf::ExtendedCount { bit_length: 24, count: seq24(0x010203), payload: vec![1, 2, 3] },
        EncapsulationOf::ExtendedFull {
            bit_length: 8,
            count: seq24(7),
            unknown: [9, 8, 7, 6],
            payload: vec![0xee],
        },
    ];
    round_trip(PacketOf::Custom { sequence: seq24(0), frames });
}

#[test]
fn frame_payload() {
    let e = simple(vec![5, 6]);
    assert_eq!(e, EncapsulationOf::Simple { bit_length: 16, payload: vec![5, 6] });
    assert_eq!(e.to_game_packet(), vec![5, 6]);
}

#[test]
fn connection_ids() {
    let mut c = Connections::new();
    let a = Ipv4Address { ip: 0x7f000001, port: 1 };
    let b = Ipv4Address { ip: 0x7f000001, port: 2 };
    let ia = c.id_for(a).unwrap();
    assert_eq!(c.id_for(a), Some(ia));
    let ib = c.id_for(b).unwrap();
    assert_ne!(ia, ib);
    assert!(ia < ib);
    assert_eq!(c.address_for(ia), Some(a));
    assert_eq!(c.address_for(ib), Some(b));
    assert_eq!(c.address_for(ib + 1), None);
}

#[test]
fn scenario_ping() {
    let mut s = server();
    let ping: Packet = PacketOf::PingRequest { ping_id: 7, magic: Magic };
    let (id, p) = s.receive(&ping.encode().unwrap(), client()).unwrap();
    assert_eq!(id, 0);
    assert_eq!(ack_for(&p), None);
    let replies = s.handle_packet(p, client()).unwrap();
    assert_eq!(
        replies,
        vec![PacketOf::PongReply {
            ping_id: 7,
            server_guid: 0x1122334455667788,
            magic: Magic,
            server_string: "Goldmine server".to_string(),
        }]
    );
}

#[test]
fn scenario_connection_request() {
    let mut s = server();
    let req: Packet = PacketOf::ConnectionRequest1 { magic: Magic, protocol_version: 120 };
    let (_, p) = s.receive(&req.encode().unwrap(), client()).unwrap();
    let replies = s.handle_packet(p, client()).unwrap();
    assert_eq!(
        replies,
        vec![PacketOf::ConnectionReply1 {
            magic: Magic,
            server_guid: 0x1122334455667788,
            null_byte: NullByte,
            mtu: 1447,
        }]
    );
    let req2: Packet = PacketOf::ConnectionRequest2 {
        magic: Magic,
        client_addr: [4, 1, 2, 3, 4],
        client_port: 19132,
        mtu: 1400,
    };
    let replies = s.handle_packet(req2, client()).unwrap();
    assert_eq!(
        replies,
        vec![PacketOf::ConnectionReply2 {
            magic: Magic,
            server_guid: 0x1122334455667788,
            client_ip_type: 4,
            client_ip: [192, 168, 0, 5],
            client_port: 40000,
            mtu: 1400,
            null_byte: NullByte,
        }]
    );
}

#[test]
fn scenario_login() {
    let mut s = server();
    let login: GamePacket =
        GamePacketOf::CSLogin { username: "Steve".to_string(), proto1: SERVER_VERSION, proto2: 0 };
    let frame = simple(login.encode().unwrap());
    let custom: Packet = PacketOf::Custom { sequence: seq24(3), frames: vec![frame] };
    let (_, p) = s.receive(&custom.encode().unwrap(), client()).unwrap();
    let ack = ack_for(&p).unwrap();
    assert_eq!(ack, PacketOf::Ack { count: 1, single: true, seq: seq24(3), seq_range_end: u24::default() });
    assert_eq!(ack.encode().unwrap(), vec![0xc0, 0, 1, 1, 3, 0, 0]);
    let replies = s.handle_packet(p, client()).unwrap();
    assert_eq!(replies.len(), 1);
    assert_eq!(s.data.entities.len(), 1);
    let player = s.data.entities[0];
    match &replies[0] {
        PacketOf::Custom { sequence, frames } => {
            assert_eq!(sequence.get(), 3);
            assert_eq!(frames.len(), 2);
            assert_eq!(
                frames[0],
                EncapsulationOf::Simple { bit_length: 40, payload: vec![0x83, 0, 0, 0, 0] }
            );
            let start_bytes = frames[1].clone().to_game_packet();
            assert_eq!(frames[1], EncapsulationOf::Simple {
                bit_length: (8 * start_bytes.len()) as u16,
                payload: start_bytes.clone(),
            });
            assert_eq!(start_bytes.len(), 29);
            let status = GamePacket::decode(&frames[0].clone().to_game_packet()).unwrap();
            assert_eq!(status, GamePacketOf::SCLoginStatus { status: 0 });
            let start = GamePacket::decode(&frames[1].clone().to_game_packet()).unwrap();
            assert_eq!(
                start,
                GamePacketOf::SCStartGame {
                    seed: 1234,
                    worldgen_version: 4,
                    gamemode: 1,
                    entity_id: player.id,
                    pos_x: 0,
                    pos_y: 0,
                    pos_z: 0,
                }
            );
        }
        other => panic!("not a custom packet: {:?}", other),
    }
}

#[test]
fn version_mismatch() {
    assert_eq!(login_status(SERVER_VERSION), 0);
    assert_eq!(login_status(SERVER_VERSION - 1), 1);
    assert_eq!(login_status(SERVER_VERSION + 1), 2);
    let mut s = server();
    let older = s.handle_game_packet_with_id(
        GamePacketOf::CSLogin { username: "Steve".to_string(), proto1: SERVER_VERSION - 1, proto2: 0 },
        11,
    );
    assert_eq!(older[0], GamePacketOf::SCLoginStatus { status: 1 });
    let newer = s.handle_game_packet_with_id(
        GamePacketOf::CSLogin { username: "Steve".to_string(), proto1: SERVER_VERSION + 1, proto2: 0 },
        12,
    );
    assert_eq!(newer[0], GamePacketOf::SCLoginStatus { status: 2 });
    assert_eq!(s.data.entities.iter().map(|e| e.id).collect::<Vec<_>>(), vec![11, 12]);
}

#[test]
fn game_ping_and_connect() {
    let mut s = server();
    assert_eq!(
        s.handle_game_packet(GamePacketOf::CSPing { ping_id: 5 }),
        vec![GamePacketOf::SCPong { ping_id: 5, pong_id: 0 }]
    );
    assert_eq!(
        s.handle_game_packet(GamePacketOf::CSClientConnect { client_id: 1, session: 99, unknown: 0 }),
        vec![GamePacketOf::SCServerHandshake {
            cookie: HandshakeCookie,
            flags: HandshakeFlags,
            server_port: 19132,
            data: HandshakeData,
            unknown1: HandshakeDoubleNull,
            session: 99,
            unknown2: HandshakeUnknown,
        }]
    );
    assert_eq!(s.handle_game_packet(GamePacketOf::CSReady { status: 1 }), vec![]);
    assert!(s.data.entities.is_empty());
}

#[test]
fn custom_without_replies_gives_none() {
    let mut s = server();
    let ready: GamePacket = GamePacketOf::CSReady { status: 1 };
    let frame = simple(ready.encode().unwrap());
    let replies = s
        .handle_packet(PacketOf::Custom { sequence: seq24(1), frames: vec![frame] }, client())
        .unwrap();
    assert!(replies.is_empty());
    let bad = simple(vec![0x01]);
    assert_eq!(
        s.handle_packet(PacketOf::Custom { sequence: seq24(1), frames: vec![bad] }, client()),
        Err(DispatchError::Decode(DecodeError::UnknownId(0x01)))
    );
}

#[test]
fn wrapped_replies() {
    let frames = wrap_replies(vec![GamePacketOf::SCSetHealth { health: 20 }]);
    assert_eq!(frames, vec![EncapsulationOf::Simple { bit_length: 16, payload: vec![0xa8, 20] }]);
}

#[test]
fn add_player_records_entity() {
    let mut s = server();
    let e = s.add_player();
    assert_eq!(s.data.entities, vec![e]);
    assert_eq!(e.pos, (0, 0, 0));
    assert_eq!(s.get_seed(), 1234);
    assert_eq!(s.get_gamemode(), 1);
}

#[test]
fn registry_keeps_order() {
    let mut r: Registry<u32> = Registry::new();
    r.register("b", 1);
    r.register("a", 2);
    r.register("b", 3);
    assert_eq!(r.values(), &[3, 2]);
    assert_eq!(r.get("a"), Ok(&2));
    assert_eq!(r.get("c"), Err(RegistryError::NoSuchKey("c".to_string())));
    let rs: Registries<u32> = Registries::new();
    assert!(rs.pl_registry.values().is_empty());
}
