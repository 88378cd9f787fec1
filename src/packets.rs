use vstd::prelude::*;

use crate::codec::{
    check_fields, fields_bytes, fields_view, fields_wf, kind_of, kinds_of, lemma_field_round_trip,
    lemma_fields_round_trip, lemma_parse_fields_kinds, parse_field, parse_fields, pop_field,
    read_field, read_fields, take_be16, take_be64, take_byte, take_flag, take_le24, take_text,
    write_fields, DecodeError, EncodeError, Field, FieldKind, FieldOf, FieldView,
};
use crate::constants::{constant_bytes, Constant, Magic, NullByte};
use crate::encapsulation::{
    decode, encode, frames_bytes, frames_view, lemma_frames_round_trip, parse_frames, Encapsulation,
    EncapsulationView,
};
use crate::u24::{le24_bytes, u24};

verus! {

/// The RakNet protocol version that clients of this server speak.
pub const RAKNET_VERSION: u8 = 120;

/// A transport packet: the unit that travels in one UDP datagram. The text of
/// the server string is an `S` and the list of frames of a `Custom` packet an
/// `F`: a `String` and a `Vec<Encapsulation>` in a `Packet`, sequences in its
/// view.
#[derive(Clone, Debug, PartialEq, Eq)]
pub enum PacketOf<S, F> {
    /// Id 0x02: an unconnected ping.
    PingRequest { ping_id: u64, magic: Magic },
    /// Id 0x1c: the answer to a ping, with the server's description.
    PongReply { ping_id: u64, server_guid: u64, magic: Magic, server_string: S },
    /// Id 0x05: the first step of opening a connection.
    ConnectionRequest1 { magic: Magic, protocol_version: u8 },
    /// Id 0x06: the answer to the first step.
    ConnectionReply1 { magic: Magic, server_guid: u64, null_byte: NullByte, mtu: u16 },
    /// Id 0x07: the second step of opening a connection.
    ConnectionRequest2 { magic: Magic, client_addr: [u8; 5], client_port: u16, mtu: u16 },
    /// Id 0x08: the answer to the second step, with the client's address.
    ConnectionReply2 {
        magic: Magic,
        server_guid: u64,
        client_ip_type: u8,
        client_ip: [u8; 4],
        client_port: u16,
        mtu: u16,
        null_byte: NullByte,
    },
    /// Id 0x84: reliable data, a sequence number and the frames up to the
    /// end of the datagram.
    Custom { sequence: u24, frames: F },
    /// Id 0xc0: acknowledges one sequence number, or a range where `single`
    /// is false; `seq_range_end` is on the wire only then.
    Ack { count: u16, single: bool, seq: u24, seq_range_end: u24 },
    /// Id 0xa0: the same shape as `Ack`, asking for the packets again.
    Nak { count: u16, single: bool, seq: u24, seq_range_end: u24 },
}

pub type Packet = PacketOf<String, Vec<Encapsulation>>;

pub type PacketView = PacketOf<Seq<char>, Seq<EncapsulationView>>;

impl View for PacketOf<String, Vec<Encapsulation>> {
    type V = PacketView;

    open spec fn view(&self) -> PacketView {
        match *self {
            PacketOf::PingRequest { ping_id, magic } => PacketOf::PingRequest { ping_id, magic },
            PacketOf::PongReply { ping_id, server_guid, magic, server_string } =>
                PacketOf::PongReply { ping_id, server_guid, magic, server_string: server_string@ },
            PacketOf::ConnectionRequest1 { magic, protocol_version } =>
                PacketOf::ConnectionRequest1 { magic, protocol_version },
            PacketOf::ConnectionReply1 { magic, server_guid, null_byte, mtu } =>
                PacketOf::ConnectionReply1 { magic, server_guid, null_byte, mtu },
            PacketOf::ConnectionRequest2 { magic, client_addr, client_port, mtu } =>
                PacketOf::ConnectionRequest2 { magic, client_addr, client_port, mtu },
            PacketOf::ConnectionReply2 {
                magic,
                server_guid,
                client_ip_type,
                client_ip,
                client_port,
                mtu,
                null_byte,
            } => PacketOf::ConnectionReply2 {
                magic,
                server_guid,
                client_ip_type,
                client_ip,
                client_port,
                mtu,
                null_byte,
            },
            PacketOf::Custom { sequence, frames } => PacketOf::Custom {
                sequence,
                frames: frames_view(frames@),
            },
            PacketOf::Ack { count, single, seq, seq_range_end } => PacketOf::Ack {
                count,
                single,
                seq,
                seq_range_end,
            },
            PacketOf::Nak { count, single, seq, seq_range_end } => PacketOf::Nak {
                count,
                single,
                seq,
                seq_range_end,
            },
        }
    }
}

impl<S, F> PacketOf<S, F> {
    /// The id byte that leads the packet.
    pub open spec fn id(self) -> u8 {
        match self {
            PacketOf::PingRequest { .. } => 0x02,
            PacketOf::PongReply { .. } => 0x1c,
            PacketOf::ConnectionRequest1 { .. } => 0x05,
            PacketOf::ConnectionReply1 { .. } => 0x06,
            PacketOf::ConnectionRequest2 { .. } => 0x07,
            PacketOf::ConnectionReply2 { .. } => 0x08,
            PacketOf::Custom { .. } => 0x84,
            PacketOf::Ack { .. } => 0xc0,
            PacketOf::Nak { .. } => 0xa0,
        }
    }

    /// The fields of fixed shape after the id byte: all of them but the
    /// frames of a `Custom` packet and the range end of an `Ack` or `Nak`.
    pub open spec fn head_fields(self) -> Seq<FieldOf<S>> {
        match self {
            PacketOf::PingRequest { ping_id, .. } => seq![
                FieldOf::Be64(ping_id),
                FieldOf::Fixed(Constant::Magic),
            ],
            PacketOf::PongReply { ping_id, server_guid, server_string, .. } => seq![
                FieldOf::Be64(ping_id),
                FieldOf::Be64(server_guid),
                FieldOf::Fixed(Constant::Magic),
                FieldOf::StrBe(server_string),
            ],
            PacketOf::ConnectionRequest1 { protocol_version, .. } => seq![
                FieldOf::Fixed(Constant::Magic),
                FieldOf::Byte(protocol_version),
            ],
            PacketOf::ConnectionReply1 { server_guid, mtu, .. } => seq![
                FieldOf::Fixed(Constant::Magic),
                FieldOf::Be64(server_guid),
                FieldOf::Fixed(Constant::NullByte),
                FieldOf::Be16(mtu),
            ],
            PacketOf::ConnectionRequest2 { client_addr, client_port, mtu, .. } => seq![
                FieldOf::Fixed(Constant::Magic),
                FieldOf::Byte(client_addr[0]),
                FieldOf::Byte(client_addr[1]),
                FieldOf::Byte(client_addr[2]),
                FieldOf::Byte(client_addr[3]),
                FieldOf::Byte(client_addr[4]),
                FieldOf::Be16(client_port),
                FieldOf::Be16(mtu),
            ],
            PacketOf::ConnectionReply2 {
                server_guid,
                client_ip_type,
                client_ip,
                client_port,
                mtu,
                ..
            } => seq![
                FieldOf::Fixed(Constant::Magic),
                FieldOf::Be64(server_guid),
                FieldOf::Byte(client_ip_type),
                FieldOf::Byte(client_ip[0]),
                FieldOf::Byte(client_ip[1]),
                FieldOf::Byte(client_ip[2]),
                FieldOf::Byte(client_ip[3]),
                FieldOf::Be16(client_port),
                FieldOf::Be16(mtu),
                FieldOf::Fixed(Constant::NullByte),
            ],
            PacketOf::Custom { sequence, .. } => seq![FieldOf::Le24(sequence)],
            PacketOf::Ack { count, single, seq, .. } => seq![
                FieldOf::Be16(count),
                FieldOf::Flag(single),
                FieldOf::Le24(seq),
            ],
            PacketOf::Nak { count, single, seq, .. } => seq![
                FieldOf::Be16(count),
                FieldOf::Flag(single),
                FieldOf::Le24(seq),
            ],
        }
    }
}

/// The shapes of the head fields of the packet with id `id`, if there is one.
pub open spec fn head_shape(id: u8) -> Option<Seq<FieldKind>> {
    if id == 0x02 {
        Some(seq![FieldKind::Be64, FieldKind::Fixed(Constant::Magic)])
    } else if id == 0x1c {
        Some(
            seq![FieldKind::Be64, FieldKind::Be64, FieldKind::Fixed(Constant::Magic), FieldKind::StrBe],
        )
    } else if id == 0x05 {
        Some(seq![FieldKind::Fixed(Constant::Magic), FieldKind::Byte])
    } else if id == 0x06 {
        Some(
            seq![
                FieldKind::Fixed(Constant::Magic),
                FieldKind::Be64,
                FieldKind::Fixed(Constant::NullByte),
                FieldKind::Be16,
            ],
        )
    } else if id == 0x07 {
        Some(
            seq![
                FieldKind::Fixed(Constant::Magic),
                FieldKind::Byte,
                FieldKind::Byte,
                FieldKind::Byte,
                FieldKind::Byte,
                FieldKind::Byte,
                FieldKind::Be16,
                FieldKind::Be16,
            ],
        )
    } else if id == 0x08 {
        Some(
            seq![
                FieldKind::Fixed(Constant::Magic),
                FieldKind::Be64,
                FieldKind::Byte,
                FieldKind::Byte,
                FieldKind::Byte,
                FieldKind::Byte,
                FieldKind::Byte,
                FieldKind::Be16,
                FieldKind::Be16,
                FieldKind::Fixed(Constant::NullByte),
            ],
        )
    } else if id == 0x84 {
        Some(seq![FieldKind::Le24])
    } else if id == 0xc0 || id == 0xa0 {
        Some(seq![FieldKind::Be16, FieldKind::Flag, FieldKind::Le24])
    } else {
        None
    }
}

/// The packet with id `id` made of the head fields `fs`, with the frames
/// `frames` of a `Custom` packet and the range end `end` of an `Ack` or `Nak`.
pub open spec fn build_packet<S, F>(id: u8, fs: Seq<FieldOf<S>>, frames: F, end: u24) -> PacketOf<
    S,
    F,
> {
    if id == 0x02 {
        PacketOf::PingRequest { ping_id: fs[0]->Be64_0, magic: Magic }
    } else if id == 0x1c {
        PacketOf::PongReply {
            ping_id: fs[0]->Be64_0,
            server_guid: fs[1]->Be64_0,
            magic: Magic,
            server_string: fs[3]->StrBe_0,
        }
    } else if id == 0x05 {
        PacketOf::ConnectionRequest1 { magic: Magic, protocol_version: fs[1]->Byte_0 }
    } else if id == 0x06 {
        PacketOf::ConnectionReply1 {
            magic: Magic,
            server_guid: fs[1]->Be64_0,
            null_byte: NullByte,
            mtu: fs[3]->Be16_0,
        }
    } else if id == 0x07 {
        PacketOf::ConnectionRequest2 {
            magic: Magic,
            client_addr: [
                fs[1]->Byte_0,
                fs[2]->Byte_0,
                fs[3]->Byte_0,
                fs[4]->Byte_0,
                fs[5]->Byte_0,
            ],
            client_port: fs[6]->Be16_0,
            mtu: fs[7]->Be16_0,
        }
    } else if id == 0x08 {
        PacketOf::ConnectionReply2 {
            magic: Magic,
            server_guid: fs[1]->Be64_0,
            client_ip_type: fs[2]->Byte_0,
            client_ip: [fs[3]->Byte_0, fs[4]->Byte_0, fs[5]->Byte_0, fs[6]->Byte_0],
            client_port: fs[7]->Be16_0,
            mtu: fs[8]->Be16_0,
            null_byte: NullByte,
        }
    } else if id == 0x84 {
        PacketOf::Custom { sequence: fs[0]->Le24_0, frames }
    } else if id == 0xc0 {
        PacketOf::Ack {
            count: fs[0]->Be16_0,
            single: fs[1]->Flag_0,
            seq: fs[2]->Le24_0,
            seq_range_end: end,
        }
    } else {
        PacketOf::Nak {
            count: fs[0]->Be16_0,
            single: fs[1]->Flag_0,
            seq: fs[2]->Le24_0,
            seq_range_end: end,
        }
    }
}

/// The bytes after the head fields: the frames of a `Custom` packet, the
/// range end of an `Ack` or `Nak` that is not `single`.
pub open spec fn tail_bytes(p: PacketView) -> Seq<u8> {
    match p {
        PacketOf::Custom { frames, .. } => frames_bytes(frames),
        PacketOf::Ack { single, seq_range_end, .. } => if single {
            seq![]
        } else {
            le24_bytes(seq_range_end.value())
        },
        PacketOf::Nak { single, seq_range_end, .. } => if single {
            seq![]
        } else {
            le24_bytes(seq_range_end.value())
        },
        _ => seq![],
    }
}

/// The bytes of a transport packet.
pub open spec fn packet_bytes(p: PacketView) -> Seq<u8> {
    seq![p.id()] + fields_bytes(p.head_fields()) + tail_bytes(p)
}

/// Reads what follows the head fields `fs` of a packet with id `id`, which
/// end at `pos`, and makes the packet.
pub open spec fn parse_tail(id: u8, fs: Seq<FieldView>, b: Seq<u8>, pos: int) -> Result<
    PacketView,
    DecodeError,
> {
    if id == 0x84 {
        match parse_frames(b, pos) {
            Ok(frames) => Ok(build_packet(id, fs, frames, u24::spec_new(0))),
            Err(e) => Err(e),
        }
    } else if (id == 0xc0 || id == 0xa0) && !fs[1]->Flag_0 {
        match parse_field(FieldKind::Le24, b, pos) {
            Ok((f, _)) => Ok(build_packet(id, fs, seq![], f->Le24_0)),
            Err(e) => Err(e),
        }
    } else {
        Ok(build_packet(id, fs, seq![], u24::spec_new(0)))
    }
}

/// Reads a transport packet from the start of `b`. A `Custom` packet takes
/// the whole buffer; any other leaves the bytes after it unread.
pub open spec fn parse_packet(b: Seq<u8>) -> Result<PacketView, DecodeError> {
    if b.len() == 0 {
        Err(DecodeError::UnexpectedEnd)
    } else {
        match head_shape(b[0]) {
            None => Err(DecodeError::UnknownId(b[0])),
            Some(ks) => match parse_fields(ks, b, 1) {
                Ok((fs, p)) => parse_tail(b[0], fs, b, p),
                Err(e) => Err(e),
            },
        }
    }
}

impl PacketOf<Seq<char>, Seq<EncapsulationView>> {
    /// The packet can be written: its string fits its byte count and each
    /// frame's payload matches its bit length.
    pub open spec fn encodable(self) -> bool {
        &&& fields_wf(self.head_fields())
        &&& self matches PacketOf::Custom { frames, .. } ==> forall|i: int|
            0 <= i < frames.len() ==> (#[trigger] frames[i]).length_matches()
    }

    /// The packet is written and read back unchanged: it is encodable, its
    /// 24-bit numbers are in range, and a `single` acknowledgement has a zero
    /// range end, which is not on the wire.
    pub open spec fn wf(self) -> bool {
        &&& fields_wf(self.head_fields())
        &&& match self {
            PacketOf::Custom { frames, .. } => forall|i: int|
                0 <= i < frames.len() ==> (#[trigger] frames[i]).wf(),
            PacketOf::Ack { single, seq_range_end, .. } => seq_range_end.value() < 0x100_0000 && (
            single ==> seq_range_end.value() == 0),
            PacketOf::Nak { single, seq_range_end, .. } => seq_range_end.value() < 0x100_0000 && (
            single ==> seq_range_end.value() == 0),
            _ => true,
        }
    }
}

/// The head fields of a packet have the shapes its id prescribes, and the
/// packet is made again from them.
pub proof fn lemma_head_shape_and_build(p: PacketView)
    ensures
        head_shape(p.id()) == Some(kinds_of(p.head_fields())),
        p matches PacketOf::Custom { frames, .. } ==> build_packet(
            p.id(),
            p.head_fields(),
            frames,
            u24::spec_new(0),
        ) == p,
        p matches PacketOf::Ack { seq_range_end, .. } ==> build_packet(
            p.id(),
            p.head_fields(),
            Seq::<EncapsulationView>::empty(),
            seq_range_end,
        ) == p,
        p matches PacketOf::Nak { seq_range_end, .. } ==> build_packet(
            p.id(),
            p.head_fields(),
            Seq::<EncapsulationView>::empty(),
            seq_range_end,
        ) == p,
        !(p is Custom || p is Ack || p is Nak) ==> build_packet(
            p.id(),
            p.head_fields(),
            Seq::<EncapsulationView>::empty(),
            u24::spec_new(0),
        ) == p,
{
    match p {
        PacketOf::PingRequest { .. } => {
            assert(kinds_of(p.head_fields()) =~= head_shape(p.id())->0);
        },
        PacketOf::PongReply { .. } => {
            assert(kinds_of(p.head_fields()) =~= head_shape(p.id())->0);
        },
        PacketOf::ConnectionRequest1 { .. } => {
            assert(kinds_of(p.head_fields()) =~= head_shape(p.id())->0);
        },
        PacketOf::ConnectionReply1 { .. } => {
            assert(kinds_of(p.head_fields()) =~= head_shape(p.id())->0);
        },
        PacketOf::ConnectionRequest2 { client_addr, .. } => {
            assert(kinds_of(p.head_fields()) =~= head_shape(p.id())->0);
            let q = build_packet(
                p.id(),
                p.head_fields(),
                Seq::<EncapsulationView>::empty(),
                u24::spec_new(0),
            );
            assert(q->client_addr =~= client_addr);
        },
        PacketOf::ConnectionReply2 { client_ip, .. } => {
            assert(kinds_of(p.head_fields()) =~= head_shape(p.id())->0);
            let q = build_packet(
                p.id(),
                p.head_fields(),
                Seq::<EncapsulationView>::empty(),
                u24::spec_new(0),
            );
            assert(q->ConnectionReply2_client_ip =~= client_ip);
        },
        PacketOf::Custom { .. } => {
            assert(kinds_of(p.head_fields()) =~= head_shape(p.id())->0);
        },
        PacketOf::Ack { .. } => {
            assert(kinds_of(p.head_fields()) =~= head_shape(p.id())->0);
        },
        PacketOf::Nak { .. } => {
            assert(kinds_of(p.head_fields()) =~= head_shape(p.id())->0);
        },
    }
}

/// Decoding the bytes of a well-formed transport packet gives the packet
/// back.
pub proof fn lemma_packet_round_trip(p: PacketView)
    requires
        p.wf(),
    ensures
        parse_packet(packet_bytes(p)) == Ok::<PacketView, DecodeError>(p),
{
    let b = packet_bytes(p);
    let hb = fields_bytes(p.head_fields());
    let tb = tail_bytes(p);
    let pos: int = 1 + hb.len() as int;
    lemma_head_shape_and_build(p);
    assert(b.len() == pos + tb.len());
    assert(b[0] == p.id());
    assert(b.subrange(1, pos as int) =~= hb);
    lemma_fields_round_trip(p.head_fields(), b, 1);
    assert(b.subrange(pos as int, b.len() as int) =~= tb);
    match p {
        PacketOf::Custom { frames, .. } => {
            lemma_frames_round_trip(frames, b, pos as int);
        },
        PacketOf::Ack { single, seq_range_end, .. } => {
            if single {
                u24::lemma_spec_new(seq_range_end, 0);
            } else {
                let f = FieldOf::<Seq<char>>::Le24(seq_range_end);
                assert(b.subrange(pos, pos + 3) =~= tb);
                lemma_field_round_trip(f, b, pos as int);
            }
        },
        PacketOf::Nak { single, seq_range_end, .. } => {
            if single {
                u24::lemma_spec_new(seq_range_end, 0);
            } else {
                let f = FieldOf::<Seq<char>>::Le24(seq_range_end);
                assert(b.subrange(pos, pos + 3) =~= tb);
                lemma_field_round_trip(f, b, pos as int);
            }
        },
        _ => {},
    }
}

/// The shapes of the head fields of the packet with id `id`, if there is one.
pub fn head_shape_of(id: u8) -> (r: Option<Vec<FieldKind>>)
    ensures
        r is None <==> head_shape(id) is None,
        r matches Some(v) ==> head_shape(id) == Some(v@),
{
    let magic = FieldKind::Fixed(Constant::Magic);
    let null = FieldKind::Fixed(Constant::NullByte);
    let v: Vec<FieldKind> = if id == 0x02 {
        vec![FieldKind::Be64, magic]
    } else if id == 0x1c {
        vec![FieldKind::Be64, FieldKind::Be64, magic, FieldKind::StrBe]
    } else if id == 0x05 {
        vec![magic, FieldKind::Byte]
    } else if id == 0x06 {
        vec![magic, FieldKind::Be64, null, FieldKind::Be16]
    } else if id == 0x07 {
        vec![
            magic,
            FieldKind::Byte,
            FieldKind::Byte,
            FieldKind::Byte,
            FieldKind::Byte,
            FieldKind::Byte,
            FieldKind::Be16,
            FieldKind::Be16,
        ]
    } else if id == 0x08 {
        vec![
            magic,
            FieldKind::Be64,
            FieldKind::Byte,
            FieldKind::Byte,
            FieldKind::Byte,
            FieldKind::Byte,
            FieldKind::Byte,
            FieldKind::Be16,
            FieldKind::Be16,
            null,
        ]
    } else if id == 0x84 {
        vec![FieldKind::Le24]
    } else if id == 0xc0 || id == 0xa0 {
        vec![FieldKind::Be16, FieldKind::Flag, FieldKind::Le24]
    } else {
        return None;
    };
    assert(v@ =~= head_shape(id)->0);
    Some(v)
}

/// The packet with id `id` made of the head fields `fs`, the frames `frames`
/// of a `Custom` packet and the range end `end` of an `Ack` or `Nak`.
fn build_from(id: u8, fs: Vec<Field>, frames: Vec<Encapsulation>, end: u24) -> (r: Packet)
    requires
        head_shape(id) == Some(kinds_of(fields_view(fs@))),
    ensures
        r@ == build_packet(id, fields_view(fs@), frames_view(frames@), end),
{
    let ghost g = fields_view(fs@);
    let ghost v = fs@;
    let mut fs = fs;
    proof {
        assert(g.len() == fs@.len());
        assert(kinds_of(g).len() == g.len());
        assert forall|i: int| 0 <= i < fs@.len() implies kind_of(#[trigger] fs@[i]@) == kinds_of(
            g,
        )[i] by {
            assert(g[i] == fs@[i]@);
        }
        assert(kinds_of(g) =~= head_shape(id)->0);
    }
    if id == 0x02 {
        let _f1 = pop_field(&mut fs);
        let f0 = pop_field(&mut fs);
        assert(f0 == v[0]);
        PacketOf::PingRequest { ping_id: take_be64(f0), magic: Magic }
    } else if id == 0x1c {
        let f3 = pop_field(&mut fs);
        let _f2 = pop_field(&mut fs);
        let f1 = pop_field(&mut fs);
        let f0 = pop_field(&mut fs);
        assert(f0 == v[0] && f1 == v[1] && f3 == v[3]);
        PacketOf::PongReply {
            ping_id: take_be64(f0),
            server_guid: take_be64(f1),
            magic: Magic,
            server_string: take_text(f3),
        }
    } else if id == 0x05 {
        let f1 = pop_field(&mut fs);
        assert(f1 == v[1]);
        PacketOf::ConnectionRequest1 { magic: Magic, protocol_version: take_byte(f1) }
    } else if id == 0x06 {
        let f3 = pop_field(&mut fs);
        let _f2 = pop_field(&mut fs);
        let f1 = pop_field(&mut fs);
        assert(f1 == v[1] && f3 == v[3]);
        PacketOf::ConnectionReply1 {
            magic: Magic,
            server_guid: take_be64(f1),
            null_byte: NullByte,
            mtu: take_be16(f3),
        }
    } else if id == 0x07 {
        let f7 = pop_field(&mut fs);
        let f6 = pop_field(&mut fs);
        let f5 = pop_field(&mut fs);
        let f4 = pop_field(&mut fs);
        let f3 = pop_field(&mut fs);
        let f2 = pop_field(&mut fs);
        let f1 = pop_field(&mut fs);
        assert(f1 == v[1] && f2 == v[2] && f3 == v[3] && f4 == v[4] && f5 == v[5]);
        assert(f6 == v[6] && f7 == v[7]);
        let client_addr = [take_byte(f1), take_byte(f2), take_byte(f3), take_byte(f4), take_byte(f5)];
        let r = PacketOf::ConnectionRequest2 {
            magic: Magic,
            client_addr,
            client_port: take_be16(f6),
            mtu: take_be16(f7),
        };
        assert(r@->client_addr =~= build_packet(id, g, frames_view(frames@), end)->client_addr);
        r
    } else if id == 0x08 {
        let _f9 = pop_field(&mut fs);
        let f8 = pop_field(&mut fs);
        let f7 = pop_field(&mut fs);
        let f6 = pop_field(&mut fs);
        let f5 = pop_field(&mut fs);
        let f4 = pop_field(&mut fs);
        let f3 = pop_field(&mut fs);
        let f2 = pop_field(&mut fs);
        let f1 = pop_field(&mut fs);
        assert(f1 == v[1] && f2 == v[2] && f3 == v[3] && f4 == v[4] && f5 == v[5]);
        assert(f6 == v[6] && f7 == v[7] && f8 == v[8]);
        let client_ip = [take_byte(f3), take_byte(f4), take_byte(f5), take_byte(f6)];
        let r = PacketOf::ConnectionReply2 {
            magic: Magic,
            server_guid: take_be64(f1),
            client_ip_type: take_byte(f2),
            client_ip,
            client_port: take_be16(f7),
            mtu: take_be16(f8),
            null_byte: NullByte,
        };
        assert(r@->ConnectionReply2_client_ip =~= build_packet(
            id,
            g,
            frames_view(frames@),
            end,
        )->ConnectionReply2_client_ip);
        r
    } else if id == 0x84 {
        let f0 = pop_field(&mut fs);
        assert(f0 == v[0]);
        PacketOf::Custom { sequence: take_le24(f0), frames }
    } else {
        let f2 = pop_field(&mut fs);
        let f1 = pop_field(&mut fs);
        let f0 = pop_field(&mut fs);
        assert(f0 == v[0] && f1 == v[1] && f2 == v[2]);
        if id == 0xc0 {
            PacketOf::Ack {
                count: take_be16(f0),
                single: take_flag(f1),
                seq: take_le24(f2),
                seq_range_end: end,
            }
        } else {
            PacketOf::Nak {
                count: take_be16(f0),
                single: take_flag(f1),
                seq: take_le24(f2),
                seq_range_end: end,
            }
        }
    }
}

impl PacketOf<String, Vec<Encapsulation>> {
    /// The id byte that leads the packet.
    pub fn packet_id(&self) -> (r: u8)
        ensures
            r == self@.id(),
    {
        match self {
            PacketOf::PingRequest { .. } => 0x02,
            PacketOf::PongReply { .. } => 0x1c,
            PacketOf::ConnectionRequest1 { .. } => 0x05,
            PacketOf::ConnectionReply1 { .. } => 0x06,
            PacketOf::ConnectionRequest2 { .. } => 0x07,
            PacketOf::ConnectionReply2 { .. } => 0x08,
            PacketOf::Custom { .. } => 0x84,
            PacketOf::Ack { .. } => 0xc0,
            PacketOf::Nak { .. } => 0xa0,
        }
    }

    /// The fields of fixed shape after the id byte.
    pub fn head_fields_vec(&self) -> (r: Vec<Field>)
        ensures
            fields_view(r@) == self@.head_fields(),
    {
        let magic = FieldOf::Fixed(Constant::Magic);
        let null = FieldOf::Fixed(Constant::NullByte);
        let r: Vec<Field> = match self {
            PacketOf::PingRequest { ping_id, .. } => vec![FieldOf::Be64(*ping_id), magic],
            PacketOf::PongReply { ping_id, server_guid, server_string, .. } => vec![
                FieldOf::Be64(*ping_id),
                FieldOf::Be64(*server_guid),
                magic,
                FieldOf::StrBe(server_string.clone()),
            ],
            PacketOf::ConnectionRequest1 { protocol_version, .. } => vec![
                magic,
                FieldOf::Byte(*protocol_version),
            ],
            PacketOf::ConnectionReply1 { server_guid, mtu, .. } => vec![
                magic,
                FieldOf::Be64(*server_guid),
                null,
                FieldOf::Be16(*mtu),
            ],
            PacketOf::ConnectionRequest2 { client_addr, client_port, mtu, .. } => vec![
                magic,
                FieldOf::Byte(client_addr[0]),
                FieldOf::Byte(client_addr[1]),
                FieldOf::Byte(client_addr[2]),
                FieldOf::Byte(client_addr[3]),
                FieldOf::Byte(client_addr[4]),
                FieldOf::Be16(*client_port),
                FieldOf::Be16(*mtu),
            ],
            PacketOf::ConnectionReply2 {
                server_guid,
                client_ip_type,
                client_ip,
                client_port,
                mtu,
                ..
            } => vec![
                magic,
                FieldOf::Be64(*server_guid),
                FieldOf::Byte(*client_ip_type),
                FieldOf::Byte(client_ip[0]),
                FieldOf::Byte(client_ip[1]),
                FieldOf::Byte(client_ip[2]),
                FieldOf::Byte(client_ip[3]),
                FieldOf::Be16(*client_port),
                FieldOf::Be16(*mtu),
                null,
            ],
            PacketOf::Custom { sequence, .. } => vec![FieldOf::Le24(*sequence)],
            PacketOf::Ack { count, single, seq, .. } => vec![
                FieldOf::Be16(*count),
                FieldOf::Flag(*single),
                FieldOf::Le24(*seq),
            ],
            PacketOf::Nak { count, single, seq, .. } => vec![
                FieldOf::Be16(*count),
                FieldOf::Flag(*single),
                FieldOf::Le24(*seq),
            ],
        };
        assert(fields_view(r@) =~= self@.head_fields());
        r
    }

    /// The bytes of the packet. Fails with `StringTooLong` where the server
    /// string does not fit its byte count, and otherwise with
    /// `LengthMismatch` where a frame's payload does not match its bit length.
    pub fn encode(&self) -> (r: Result<Vec<u8>, EncodeError>)
        ensures
            r is Ok <==> self@.encodable(),
            r matches Ok(v) ==> v@ == packet_bytes(self@),
            r == Err::<Vec<u8>, EncodeError>(EncodeError::StringTooLong) <==> !fields_wf(
                self@.head_fields(),
            ),
    {
        let fs = self.head_fields_vec();
        if !check_fields(&fs) {
            return Err(EncodeError::StringTooLong);
        }
        let mut out: Vec<u8> = Vec::new();
        out.push(self.packet_id());
        write_fields(&mut out, &fs);
        match self {
            PacketOf::Custom { frames, .. } => {
                proof {
                    assert forall|i: int| 0 <= i < frames@.len() implies #[trigger] frames_view(
                        frames@,
                    )[i] == frames@[i]@ by {}
                }
                match encode(frames, &mut out) {
                    Err(e) => {
                        proof {
                            let i = choose|i: int|
                                0 <= i < frames@.len() && !(#[trigger] frames@[i]@).length_matches();
                            assert(!frames_view(frames@)[i].length_matches());
                        }
                        return Err(e);
                    },
                    Ok(()) => {},
                }
            },
            PacketOf::Ack { single, seq_range_end, .. } => {
                if !*single {
                    let a = seq_range_end.to_le_bytes();
                    out.push(a[0]);
                    out.push(a[1]);
                    out.push(a[2]);
                }
            },
            PacketOf::Nak { single, seq_range_end, .. } => {
                if !*single {
                    let a = seq_range_end.to_le_bytes();
                    out.push(a[0]);
                    out.push(a[1]);
                    out.push(a[2]);
                }
            },
            _ => {},
        }
        assert(out@ =~= packet_bytes(self@));
        Ok(out)
    }

    /// Reads a transport packet from the start of `b`. A `Custom` packet
    /// takes the whole buffer; any other leaves the bytes after it unread.
    pub fn decode(b: &[u8]) -> (r: Result<Packet, DecodeError>)
        ensures
            match (r, parse_packet(b@)) {
                (Ok(p), Ok(q)) => p@ == q,
                (Err(e), Err(d)) => e == d,
                _ => false,
            },
    {
        if b.len() == 0 {
            return Err(DecodeError::UnexpectedEnd);
        }
        let id = b[0];
        let ks = match head_shape_of(id) {
            None => {
                return Err(DecodeError::UnknownId(id));
            },
            Some(ks) => ks,
        };
        let (fs, pos) = match read_fields(&ks, b, 1) {
            Err(e) => {
                return Err(e);
            },
            Ok(r) => r,
        };
        proof {
            lemma_parse_fields_kinds(ks@, b@, 1);
        }
        let ghost g = fields_view(fs@);
        if id == 0x84 {
            match decode(b, pos) {
                Err(e) => Err(e),
                Ok(frames) => Ok(build_from(id, fs, frames, u24::default())),
            }
        } else if id == 0xc0 || id == 0xa0 {
            let single = match &fs[1] {
                FieldOf::Flag(v) => *v,
                _ => false,
            };
            proof {
                assert(kind_of(fs@[1]@) == kinds_of(g)[1]);
                assert(g[1] == fs@[1]@);
            }
            if single {
                proof {
                    u24::lemma_spec_new(u24::spec_new(0), 0);
                }
                let end = u24::default();
                proof {
                    u24::lemma_spec_new(end, 0);
                }
                Ok(build_from(id, fs, Vec::new(), end))
            } else {
                match read_field(FieldKind::Le24, b, pos) {
                    Err(e) => Err(e),
                    Ok((f, _)) => Ok(build_from(id, fs, Vec::new(), take_le24(f))),
                }
            }
        } else {
            let end = u24::default();
            proof {
                u24::lemma_spec_new(end, 0);
            }
            Ok(build_from(id, fs, Vec::new(), end))
        }
    }
}

/// A ping request is read exactly when the sixteen bytes after its ping id
/// are the magic marker; any other bytes there are a `ConstantMismatch`.
pub proof fn lemma_ping_magic_checked(b: Seq<u8>)
    requires
        b.len() >= 25,
        b[0] == 0x02,
    ensures
        b.subrange(9, 25) == constant_bytes(Constant::Magic) ==> parse_packet(b) is Ok,
        b.subrange(9, 25) != constant_bytes(Constant::Magic) ==> parse_packet(b) == Err::<
            PacketView,
            DecodeError,
        >(DecodeError::ConstantMismatch),
{
    let ks = head_shape(0x02)->0;
    assert(ks.drop_first().drop_first() =~= Seq::<FieldKind>::empty());
    reveal_with_fuel(parse_fields, 3);
}

} // verus!
