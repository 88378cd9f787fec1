use vstd::prelude::*;

use crate::codec::{text_fits, DecodeError};
use crate::connection::{assign, AddrKey, Connections, Ipv4Address};
use crate::constants::{
    HandshakeCookie, HandshakeData, HandshakeDoubleNull, HandshakeFlags, HandshakeUnknown, Magic,
    NullByte,
};
use crate::encapsulation::{Encapsulation, EncapsulationOf, EncapsulationView};
use crate::game_packets::{game_bytes, parse_game, GamePacket, GamePacketOf, GamePacketView};
use crate::packets::{Packet, PacketOf, PacketView};
use crate::u24::u24;

verus! {

/// The game protocol version this server speaks.
pub const SERVER_VERSION: u32 = 9;

/// The MTU the server offers in the first connection reply.
pub const REPLY_MTU: u16 = 1447;

/// The world generator version announced when a game starts.
pub const WORLDGEN_VERSION: u32 = 4;

/// An entity of the world. Position and rotation are IEEE 754
/// single-precision numbers, kept as their 32-bit patterns.
#[derive(Clone, Copy, Debug, PartialEq, Eq)]
pub struct EntityData {
    pub id: u32,
    pub pos: (u32, u32, u32),
    pub rot: (u32, u32, u32),
}

/// One stack of items.
#[derive(Clone, Copy, Debug, PartialEq, Eq)]
pub struct Item {
    pub id: u32,
    pub count: u32,
}

/// The items an entity carries.
#[derive(Clone, Debug, PartialEq, Eq)]
pub struct Inventory {
    pub items: Vec<Item>,
}

/// The state of the world that the server keeps.
pub struct ServerData {
    pub seed: u32,
    pub gamemode: u32,
    pub entities: Vec<EntityData>,
    pub inventories: Vec<(u32, Inventory)>,
}

/// A game server: its identity, its world, and the connections it knows.
pub struct Server {
    pub guid: u64,
    pub server_name: String,
    pub port: u16,
    pub data: ServerData,
    pub connections: Connections,
}

/// Why a datagram was not processed.
#[derive(Clone, Copy, Debug, PartialEq, Eq)]
pub enum DispatchError {
    /// Its bytes, or those of a game packet inside it, are not a packet.
    Decode(DecodeError),
    /// A new address came when no connection id was left to give.
    ConnectionsExhausted,
    /// A ping came, and the server's name is too long for the 16-bit byte
    /// count of the pong.
    ServerNameTooLong,
}

/// A freshly created player at the origin, facing the default way.
pub open spec fn origin_player(id: u32) -> EntityData {
    EntityData { id, pos: (0, 0, 0), rot: (0, 0, 0) }
}

/// The login status for a client of protocol version `proto1`: 0 when it is
/// the server's, 1 when it is older, 2 when it is newer.
pub open spec fn login_status_of(proto1: u32) -> u32 {
    if proto1 == SERVER_VERSION {
        0
    } else if proto1 < SERVER_VERSION {
        1
    } else {
        2
    }
}

/// The replies to a game packet, where `player` is the id of the player a
/// login creates.
pub open spec fn game_replies(
    p: GamePacketView,
    seed: u32,
    gamemode: u32,
    port: u16,
    player: u32,
) -> Seq<GamePacketView> {
    match p {
        GamePacketOf::CSPing { ping_id } => seq![GamePacketOf::SCPong { ping_id, pong_id: 0 }],
        GamePacketOf::CSClientConnect { session, .. } => seq![
            GamePacketOf::SCServerHandshake {
                cookie: HandshakeCookie,
                flags: HandshakeFlags,
                server_port: port,
                data: HandshakeData,
                unknown1: HandshakeDoubleNull,
                session,
                unknown2: HandshakeUnknown,
            },
        ],
        GamePacketOf::CSLogin { proto1, .. } => seq![
            GamePacketOf::SCLoginStatus { status: login_status_of(proto1) },
            GamePacketOf::SCStartGame {
                seed,
                worldgen_version: WORLDGEN_VERSION,
                gamemode,
                entity_id: player,
                pos_x: 0,
                pos_y: 0,
                pos_z: 0,
            },
        ],
        _ => seq![],
    }
}

/// The four bytes of an IPv4 address, most significant first.
pub open spec fn octets_of(ip: u32) -> [u8; 4] {
    let b = crate::bytes::be32(ip);
    [b[0], b[1], b[2], b[3]]
}

/// The transport-level replies to a packet other than `Custom`, from a
/// server with guid `guid` and description `name`, to a client at `sender`.
pub open spec fn transport_replies(
    p: PacketView,
    guid: u64,
    name: Seq<char>,
    sender: Ipv4Address,
) -> Seq<PacketView> {
    match p {
        PacketOf::PingRequest { ping_id, .. } => seq![
            PacketOf::PongReply { ping_id, server_guid: guid, magic: Magic, server_string: name },
        ],
        PacketOf::ConnectionRequest1 { .. } => seq![
            PacketOf::ConnectionReply1 {
                magic: Magic,
                server_guid: guid,
                null_byte: NullByte,
                mtu: REPLY_MTU,
            },
        ],
        PacketOf::ConnectionRequest2 { mtu, .. } => seq![
            PacketOf::ConnectionReply2 {
                magic: Magic,
                server_guid: guid,
                client_ip_type: 4,
                client_ip: octets_of(sender.ip),
                client_port: sender.port,
                mtu,
                null_byte: NullByte,
            },
        ],
        _ => seq![],
    }
}

/// The views of a list of game packets.
pub open spec fn game_views(v: Seq<GamePacket>) -> Seq<GamePacketView> {
    v.map_values(|g: GamePacket| g@)
}

/// The views of a list of transport packets.
pub open spec fn packet_views(v: Seq<Packet>) -> Seq<PacketView> {
    v.map_values(|p: Packet| p@)
}

/// The frames that carry the replies `rs`: each that can be written, in a
/// `Simple` frame whose bit length is eight times its byte count. A reply
/// that cannot be written, or whose bit length would not fit 16 bits, is
/// left out.
pub open spec fn wrap_replies_spec(rs: Seq<GamePacketView>) -> Seq<EncapsulationView>
    decreases rs.len(),
{
    if rs.len() == 0 {
        seq![]
    } else {
        let r = rs.last();
        let rest = wrap_replies_spec(rs.drop_last());
        if r.wf() && game_bytes(r).len() * 8 <= 0xffff {
            rest.push(
                EncapsulationOf::Simple {
                    bit_length: (game_bytes(r).len() * 8) as u16,
                    payload: game_bytes(r),
                },
            )
        } else {
            rest
        }
    }
}

/// Relies on rand::random: a u32 drawn at random. Nothing is promised of
/// its value.
#[verifier::external_body]
fn random_u32() -> (r: u32) {
    rand::random::<u32>()
}

/// The acknowledgement owed to a packet: a `single` `Ack` of the sequence
/// number of a `Custom` packet, and none for any other.
pub fn ack_for(p: &Packet) -> (r: Option<Packet>)
    ensures
        *p matches PacketOf::Custom { sequence, .. } ==> r == Some::<Packet>(
            PacketOf::Ack { count: 1, single: true, seq: sequence, seq_range_end: u24::spec_new(0) },
        ),
        !(p is Custom) ==> r is None,
{
    match p {
        PacketOf::Custom { sequence, .. } => {
            let end = u24::default();
            proof {
                u24::lemma_spec_new(end, 0);
            }
            Some(PacketOf::Ack { count: 1, single: true, seq: *sequence, seq_range_end: end })
        },
        _ => None,
    }
}

/// The login status for a client of protocol version `proto1`.
pub fn login_status(proto1: u32) -> (r: u32)
    ensures
        r == login_status_of(proto1),
{
    if proto1 == SERVER_VERSION {
        0
    } else if proto1 < SERVER_VERSION {
        1
    } else {
        2
    }
}

/// The frames that carry the replies `replies`.
pub fn wrap_replies(replies: Vec<GamePacket>) -> (r: Vec<Encapsulation>)
    ensures
        crate::encapsulation::frames_view(r@) == wrap_replies_spec(game_views(replies@)),
{
    let mut out: Vec<Encapsulation> = Vec::new();
    let mut i: usize = 0;
    while i < replies.len()
        invariant
            i <= replies@.len(),
            crate::encapsulation::frames_view(out@) == wrap_replies_spec(
                game_views(replies@.subrange(0, i as int)),
            ),
        decreases replies@.len() - i,
    {
        let ghost before = game_views(replies@.subrange(0, i as int));
        let ghost after = game_views(replies@.subrange(0, i + 1));
        proof {
            assert(after.drop_last() =~= before);
            assert(after.last() == replies@[i as int]@);
        }
        match replies[i].encode() {
            Ok(bytes) => {
                match Encapsulation::simple(bytes) {
                    Some(e) => {
                        out.push(e);
                        proof {
                            assert(crate::encapsulation::frames_view(out@) =~= wrap_replies_spec(
                                before,
                            ).push(e@));
                        }
                    },
                    None => {},
                }
            },
            Err(_) => {},
        }
        i = i + 1;
    }
    assert(replies@.subrange(0, i as int) =~= replies@);
    out
}

/// Every frame that carries a reply is a `Simple` frame whose payload holds
/// the bytes its bit length gives.
pub proof fn lemma_wrapped_frames_simple(rs: Seq<GamePacketView>)
    ensures
        forall|j: int|
            0 <= j < wrap_replies_spec(rs).len() ==> (#[trigger] wrap_replies_spec(rs)[j]) is Simple
                && wrap_replies_spec(rs)[j].wf(),
    decreases rs.len(),
{
    if rs.len() > 0 {
        lemma_wrapped_frames_simple(rs.drop_last());
    }
}

/// Frames that are all `Simple` and well formed.
pub open spec fn simple_frames(fs: Seq<EncapsulationView>) -> bool {
    forall|j: int| 0 <= j < fs.len() ==> (#[trigger] fs[j]) is Simple && fs[j].wf()
}

/// The payload of every frame up to `n` is a game packet.
pub open spec fn payloads_parse(fs: Seq<Encapsulation>, n: int) -> bool {
    forall|j: int| 0 <= j < n ==> parse_game((#[trigger] fs[j])@.payload()) is Ok
}

impl Server {
    /// A server with no entity and no connection.
    pub fn new(guid: u64, server_name: String, port: u16, seed: u32, gamemode: u32) -> (r: Server)
        ensures
            r.guid == guid && r.server_name == server_name && r.port == port,
            r.data.seed == seed && r.data.gamemode == gamemode,
            r.data.entities@.len() == 0,
            r.connections.wf(),
            r.connections.ids() == Map::<AddrKey, u64>::empty(),
            r.connections.next_id() == 0,
    {
        Server {
            guid,
            server_name,
            port,
            data: ServerData { seed, gamemode, entities: Vec::new(), inventories: Vec::new() },
            connections: Connections::new(),
        }
    }

    pub fn get_seed(&self) -> (r: u32)
        ensures
            r == self.data.seed,
    {
        self.data.seed
    }

    pub fn get_gamemode(&self) -> (r: u32)
        ensures
            r == self.data.gamemode,
    {
        self.data.gamemode
    }

    /// Adds a player with id `id` at the origin and returns it.
    pub fn add_player_with_id(&mut self, id: u32) -> (r: EntityData)
        ensures
            r == origin_player(id),
            final(self).data.entities@ == old(self).data.entities@.push(r),
            final(self).data.seed == old(self).data.seed,
            final(self).data.gamemode == old(self).data.gamemode,
            final(self).guid == old(self).guid && final(self).port == old(self).port,
            final(self).server_name == old(self).server_name,
            final(self).connections == old(self).connections,
    {
        let player = EntityData { id, pos: (0, 0, 0), rot: (0, 0, 0) };
        self.data.entities.push(player);
        player
    }

    /// Adds a player with a random id at the origin and returns it.
    pub fn add_player(&mut self) -> (r: EntityData)
        ensures
            r == origin_player(r.id),
            final(self).data.entities@ == old(self).data.entities@.push(r),
            final(self).data.seed == old(self).data.seed,
            final(self).data.gamemode == old(self).data.gamemode,
            final(self).guid == old(self).guid && final(self).port == old(self).port,
            final(self).server_name == old(self).server_name,
            final(self).connections == old(self).connections,
    {
        let id = random_u32();
        self.add_player_with_id(id)
    }

    /// The replies to the game packet `p`, where a login creates a player
    /// with id `player`.
    pub fn handle_game_packet_with_id(&mut self, p: GamePacket, player: u32) -> (r: Vec<GamePacket>)
        ensures
            game_views(r@) == game_replies(
                p@,
                old(self).data.seed,
                old(self).data.gamemode,
                old(self).port,
                player,
            ),
            p is CSLogin ==> final(self).data.entities@ == old(self).data.entities@.push(
                origin_player(player),
            ),
            !(p is CSLogin) ==> final(self).data.entities@ == old(self).data.entities@,
            final(self).data.seed == old(self).data.seed,
            final(self).data.gamemode == old(self).data.gamemode,
            final(self).guid == old(self).guid && final(self).port == old(self).port,
            final(self).server_name == old(self).server_name,
            final(self).connections == old(self).connections,
    {
        let r: Vec<GamePacket> = match p {
            GamePacketOf::CSPing { ping_id } => vec![GamePacketOf::SCPong { ping_id, pong_id: 0 }],
            GamePacketOf::CSClientConnect { session, .. } => vec![
                GamePacketOf::SCServerHandshake {
                    cookie: HandshakeCookie,
                    flags: HandshakeFlags,
                    server_port: self.port,
                    data: HandshakeData,
                    unknown1: HandshakeDoubleNull,
                    session,
                    unknown2: HandshakeUnknown,
                },
            ],
            GamePacketOf::CSLogin { proto1, .. } => {
                let status = login_status(proto1);
                let entity = self.add_player_with_id(player);
                vec![
                    GamePacketOf::SCLoginStatus { status },
                    GamePacketOf::SCStartGame {
                        seed: self.get_seed(),
                        worldgen_version: WORLDGEN_VERSION,
                        gamemode: self.get_gamemode(),
                        entity_id: entity.id,
                        pos_x: entity.pos.0,
                        pos_y: entity.pos.1,
                        pos_z: entity.pos.2,
                    },
                ]
            },
            _ => Vec::new(),
        };
        assert(game_views(r@) =~= game_replies(
            p@,
            old(self).data.seed,
            old(self).data.gamemode,
            old(self).port,
            player,
        ));
        r
    }

    /// The replies to the game packet `p`; a login creates a player with a
    /// random id, which the `SCStartGame` reply carries.
    pub fn handle_game_packet(&mut self, p: GamePacket) -> (r: Vec<GamePacket>)
        ensures
            p is CSLogin ==> final(self).data.entities@.len() == old(self).data.entities@.len() + 1
                && final(self).data.entities@ == old(self).data.entities@.push(
                origin_player(final(self).data.entities@.last().id),
            ) && game_views(r@) == game_replies(
                p@,
                old(self).data.seed,
                old(self).data.gamemode,
                old(self).port,
                final(self).data.entities@.last().id,
            ),
            !(p is CSLogin) ==> final(self).data.entities@ == old(self).data.entities@
                && game_views(r@) == game_replies(
                p@,
                old(self).data.seed,
                old(self).data.gamemode,
                old(self).port,
                0,
            ),
            final(self).data.seed == old(self).data.seed,
            final(self).data.gamemode == old(self).data.gamemode,
            final(self).guid == old(self).guid && final(self).port == old(self).port,
            final(self).server_name == old(self).server_name,
            final(self).connections == old(self).connections,
    {
        let player = match p {
            GamePacketOf::CSLogin { .. } => random_u32(),
            _ => 0,
        };
        self.handle_game_packet_with_id(p, player)
    }
}

/// The game packets the frames carry, where each payload is one.
pub open spec fn payload_packets(fs: Seq<EncapsulationView>) -> Seq<GamePacketView> {
    fs.map_values(|e: EncapsulationView| parse_game(e.payload())->Ok_0.0)
}

/// How many of the packets are logins.
pub open spec fn login_count(gs: Seq<GamePacketView>) -> nat
    decreases gs.len(),
{
    if gs.len() == 0 {
        0
    } else {
        login_count(gs.drop_last()) + if gs.last() is CSLogin {
            1nat
        } else {
            0nat
        }
    }
}

/// The replies to the packets `gs` handled in turn, where the `k`-th login
/// creates the player `players[k]`.
pub open spec fn replies_for(
    gs: Seq<GamePacketView>,
    seed: u32,
    gamemode: u32,
    port: u16,
    players: Seq<EntityData>,
) -> Seq<GamePacketView>
    decreases gs.len(),
{
    if gs.len() == 0 {
        seq![]
    } else {
        let rest = gs.drop_last();
        let player = if gs.last() is CSLogin {
            players[login_count(rest) as int].id
        } else {
            0
        };
        replies_for(rest, seed, gamemode, port, players) + game_replies(
            gs.last(),
            seed,
            gamemode,
            port,
            player,
        )
    }
}

/// The replies depend only on the players the logins among `gs` create.
pub proof fn lemma_replies_for_prefix(
    gs: Seq<GamePacketView>,
    seed: u32,
    gamemode: u32,
    port: u16,
    players: Seq<EntityData>,
    more: Seq<EntityData>,
)
    requires
        login_count(gs) <= players.len(),
        more.len() >= players.len(),
        more.subrange(0, players.len() as int) == players,
    ensures
        replies_for(gs, seed, gamemode, port, more) == replies_for(gs, seed, gamemode, port, players),
    decreases gs.len(),
{
    if gs.len() > 0 {
        let rest = gs.drop_last();
        lemma_replies_for_prefix(rest, seed, gamemode, port, players, more);
        if gs.last() is CSLogin {
            let k = login_count(rest) as int;
            assert(more.subrange(0, players.len() as int)[k] == more[k]);
        }
    }
}

/// Wrapping the replies to two lists one after the other is wrapping each.
pub proof fn lemma_wrap_concat(a: Seq<GamePacketView>, b: Seq<GamePacketView>)
    ensures
        wrap_replies_spec(a + b) == wrap_replies_spec(a) + wrap_replies_spec(b),
    decreases b.len(),
{
    if b.len() == 0 {
        assert(a + b =~= a);
        assert(wrap_replies_spec(a) + wrap_replies_spec(b) =~= wrap_replies_spec(a));
    } else {
        lemma_wrap_concat(a, b.drop_last());
        assert((a + b).drop_last() =~= a + b.drop_last());
        assert((a + b).last() == b.last());
        let w = wrap_replies_spec(a);
        let wb = wrap_replies_spec(b.drop_last());
        let r = b.last();
        if r.wf() && game_bytes(r).len() * 8 <= 0xffff {
            let e = EncapsulationOf::Simple {
                bit_length: (game_bytes(r).len() * 8) as u16,
                payload: game_bytes(r),
            };
            assert((w + wb).push(e) =~= w + wb.push(e));
        }
    }
}

/// What handling the frames `frames` of a `Custom` packet with sequence
/// number `sequence` gives: the entities `before` become `after`, one more
/// player at the origin for each login, and the replies `v` are one `Custom`
/// packet with the same sequence number that carries, in `Simple` frames,
/// the replies to the frames' game packets in turn, or nothing where there
/// are none.
pub open spec fn frames_handled(
    frames: Seq<EncapsulationView>,
    sequence: u24,
    before: Seq<EntityData>,
    after: Seq<EntityData>,
    seed: u32,
    gamemode: u32,
    port: u16,
    v: Seq<PacketView>,
) -> bool {
    let gs = payload_packets(frames);
    let players = after.skip(before.len() as int);
    let fs = wrap_replies_spec(replies_for(gs, seed, gamemode, port, players));
    &&& before.len() <= after.len()
    &&& after.subrange(0, before.len() as int) == before
    &&& players.len() == login_count(gs)
    &&& forall|k: int| 0 <= k < players.len() ==> #[trigger] players[k] == origin_player(players[k].id)
    &&& simple_frames(fs)
    &&& fs.len() == 0 ==> v.len() == 0
    &&& fs.len() > 0 ==> v == seq![
        PacketOf::<Seq<char>, Seq<EncapsulationView>>::Custom { sequence, frames: fs },
    ]
}

impl Server {
    /// The replies to the frames of a `Custom` packet with sequence number
    /// `sequence`: each frame's payload is decoded as a game packet and
    /// handled in turn, each login adding a player with a random id, and the
    /// replies to all of them go back in one `Custom` packet with the same
    /// sequence number, or in none where there are no replies. A payload that
    /// is not a game packet fails the whole packet with its decoding error.
    pub fn handle_frames(&mut self, sequence: u24, frames: Vec<Encapsulation>) -> (r: Result<
        Vec<Packet>,
        DispatchError,
    >)
        ensures
            r is Ok <==> payloads_parse(frames@, frames@.len() as int),
            r matches Err(DispatchError::Decode(e)) ==> exists|j: int|
                0 <= j < frames@.len() && payloads_parse(frames@, j) && #[trigger] parse_game(
                    frames@[j]@.payload(),
                ) == Err::<(GamePacketView, int), DecodeError>(e),
            r matches Err(e) ==> e is Decode,
            r matches Ok(v) ==> frames_handled(
                crate::encapsulation::frames_view(frames@),
                sequence,
                old(self).data.entities@,
                final(self).data.entities@,
                old(self).data.seed,
                old(self).data.gamemode,
                old(self).port,
                packet_views(v@),
            ),
            final(self).data.seed == old(self).data.seed,
            final(self).data.gamemode == old(self).data.gamemode,
            final(self).guid == old(self).guid && final(self).port == old(self).port,
            final(self).server_name == old(self).server_name,
            final(self).connections == old(self).connections,
    {
        let mut reply_frames: Vec<Encapsulation> = Vec::new();
        let mut i: usize = 0;
        let ghost all = frames@;
        let ghost gs_all = payload_packets(crate::encapsulation::frames_view(all));
        let ghost old_len = self.data.entities@.len() as int;
        let ghost seed = self.data.seed;
        let ghost gamemode = self.data.gamemode;
        let ghost port = self.port;
        proof {
            assert(self.data.entities@.subrange(0, old_len) =~= self.data.entities@);
            assert(gs_all.subrange(0, 0) =~= Seq::<GamePacketView>::empty());
        }
        while i < frames.len()
            invariant
                frames@ == all,
                i <= all.len(),
                gs_all == payload_packets(crate::encapsulation::frames_view(all)),
                payloads_parse(all, i as int),
                0 <= old_len <= self.data.entities@.len(),
                self.data.entities@.subrange(0, old_len) == old(self).data.entities@,
                self.data.entities@.skip(old_len).len() == login_count(gs_all.subrange(0, i as int)),
                forall|k: int|
                    0 <= k < self.data.entities@.skip(old_len).len() ==> #[trigger] self.data.entities@.skip(
                        old_len,
                    )[k] == origin_player(self.data.entities@.skip(old_len)[k].id),
                crate::encapsulation::frames_view(reply_frames@) == wrap_replies_spec(
                    replies_for(
                        gs_all.subrange(0, i as int),
                        seed,
                        gamemode,
                        port,
                        self.data.entities@.skip(old_len),
                    ),
                ),
                seed == old(self).data.seed,
                gamemode == old(self).data.gamemode,
                port == old(self).port,
                self.data.seed == old(self).data.seed,
                self.data.gamemode == old(self).data.gamemode,
                self.guid == old(self).guid && self.port == old(self).port,
                self.server_name == old(self).server_name,
                self.connections == old(self).connections,
            decreases all.len() - i,
        {
            let payload = frames[i].payload_ref();
            let packet = match GamePacket::decode(payload.as_slice()) {
                Ok(g) => g,
                Err(e) => {
                    return Err(DispatchError::Decode(e));
                },
            };
            let ghost before = self.data.entities@;
            let ghost login = packet is CSLogin;
            let ghost players_before = before.skip(old_len);
            let ghost prefix = gs_all.subrange(0, i as int);
            let ghost next_prefix = gs_all.subrange(0, i + 1);
            proof {
                assert(crate::encapsulation::frames_view(all)[i as int] == all[i as int]@);
                assert(gs_all[i as int] == packet@);
                assert(next_prefix.drop_last() =~= prefix);
                assert(next_prefix.last() == packet@);
            }
            let replies = self.handle_game_packet(packet);
            let ghost players_after = self.data.entities@.skip(old_len);
            proof {
                if login {
                    assert(players_after =~= players_before.push(self.data.entities@.last()));
                    assert(players_after[login_count(prefix) as int] == self.data.entities@.last());
                } else {
                    assert(players_after =~= players_before);
                }
                assert(players_after.subrange(0, players_before.len() as int) =~= players_before);
                lemma_replies_for_prefix(prefix, seed, gamemode, port, players_before, players_after);
                assert(self.data.entities@.subrange(0, old_len) =~= before.subrange(0, old_len));
                assert forall|k: int| 0 <= k < players_after.len() implies #[trigger] players_after[k]
                    == origin_player(players_after[k].id) by {
                    if k < players_before.len() {
                        assert(players_after[k] == players_before[k]);
                    }
                }
            }
            let mut wrapped = wrap_replies(replies);
            proof {
                lemma_wrap_concat(
                    replies_for(prefix, seed, gamemode, port, players_after),
                    game_views(replies@),
                );
                assert(crate::encapsulation::frames_view(reply_frames@ + wrapped@) =~= crate::encapsulation::frames_view(
                    reply_frames@,
                ) + crate::encapsulation::frames_view(wrapped@));
            }
            reply_frames.append(&mut wrapped);
            i = i + 1;
        }
        proof {
            assert(gs_all.subrange(0, i as int) =~= gs_all);
            lemma_wrapped_frames_simple(
                replies_for(gs_all, seed, gamemode, port, self.data.entities@.skip(old_len)),
            );
        }
        if reply_frames.len() == 0 {
            Ok(Vec::new())
        } else {
            let r = vec![PacketOf::Custom { sequence, frames: reply_frames }];
            assert(packet_views(r@) =~= seq![
                PacketOf::<Seq<char>, Seq<EncapsulationView>>::Custom {
                    sequence,
                    frames: crate::encapsulation::frames_view(reply_frames@),
                },
            ]);
            Ok(r)
        }
    }

    /// The replies to a transport packet from `sender`: the handshake
    /// answers, the replies to the frames of a `Custom` packet, and none to
    /// any other packet.
    pub fn handle_packet(&mut self, p: Packet, sender: Ipv4Address) -> (r: Result<
        Vec<Packet>,
        DispatchError,
    >)
        ensures
            !(p is Custom) ==> final(self).data.entities@ == old(self).data.entities@,
            p is PingRequest ==> (r is Ok <==> text_fits(old(self).server_name@)),
            p is PingRequest && !text_fits(old(self).server_name@) ==> r == Err::<
                Vec<Packet>,
                DispatchError,
            >(DispatchError::ServerNameTooLong),
            !(p is Custom) && (p is PingRequest ==> text_fits(old(self).server_name@)) ==> (r matches Ok(
                v,
            ) && packet_views(v@) == transport_replies(
                p@,
                old(self).guid,
                old(self).server_name@,
                sender,
            )),
            p matches PacketOf::Custom { frames, .. } ==> (r is Ok <==> payloads_parse(
                frames@,
                frames@.len() as int,
            )),
            p matches PacketOf::Custom { sequence, frames } ==> (r matches Ok(v) ==> frames_handled(
                crate::encapsulation::frames_view(frames@),
                sequence,
                old(self).data.entities@,
                final(self).data.entities@,
                old(self).data.seed,
                old(self).data.gamemode,
                old(self).port,
                packet_views(v@),
            )),
            final(self).data.seed == old(self).data.seed,
            final(self).data.gamemode == old(self).data.gamemode,
            final(self).guid == old(self).guid && final(self).port == old(self).port,
            final(self).server_name == old(self).server_name,
            final(self).connections == old(self).connections,
    {
        let r: Vec<Packet> = match p {
            PacketOf::PingRequest { ping_id, .. } => {
                if self.server_name.as_str().as_bytes().len() > 0xffff {
                    return Err(DispatchError::ServerNameTooLong);
                }
                vec![
                    PacketOf::PongReply {
                        ping_id,
                        server_guid: self.guid,
                        magic: Magic,
                        server_string: self.server_name.clone(),
                    },
                ]
            },
            PacketOf::ConnectionRequest1 { .. } => vec![
                PacketOf::ConnectionReply1 {
                    magic: Magic,
                    server_guid: self.guid,
                    null_byte: NullByte,
                    mtu: REPLY_MTU,
                },
            ],
            PacketOf::ConnectionRequest2 { mtu, .. } => {
                let client_ip = sender.octets();
                let reply = PacketOf::ConnectionReply2 {
                    magic: Magic,
                    server_guid: self.guid,
                    client_ip_type: 4,
                    client_ip,
                    client_port: sender.port,
                    mtu,
                    null_byte: NullByte,
                };
                assert(client_ip =~= octets_of(sender.ip));
                vec![reply]
            },
            PacketOf::Custom { sequence, frames } => {
                return self.handle_frames(sequence, frames);
            },
            _ => Vec::new(),
        };
        assert(packet_views(r@) =~= transport_replies(
            p@,
            old(self).guid,
            old(self).server_name@,
            sender,
        ));
        Ok(r)
    }

    /// Takes a datagram from `sender`: finds or gives the connection id of
    /// the sender, then decodes the packet.
    pub fn receive(&mut self, bytes: &[u8], sender: Ipv4Address) -> (r: Result<
        (u64, Packet),
        DispatchError,
    >)
        ensures
            final(self).connections.wf(),
            ({
                let (ids, next, id) = assign(
                    old(self).connections.ids(),
                    old(self).connections.next_id(),
                    sender.key(),
                );
                &&& final(self).connections.ids() == ids
                &&& final(self).connections.next_id() == next
                &&& id is None ==> r == Err::<(u64, Packet), DispatchError>(
                    DispatchError::ConnectionsExhausted,
                )
                &&& id matches Some(n) ==> match (r, crate::packets::parse_packet(bytes@)) {
                    (Ok((m, p)), Ok(q)) => m == n && p@ == q,
                    (Err(e), Err(d)) => e == DispatchError::Decode(d),
                    _ => false,
                }
            }),
            final(self).data.entities@ == old(self).data.entities@,
            final(self).data.seed == old(self).data.seed,
            final(self).data.gamemode == old(self).data.gamemode,
            final(self).guid == old(self).guid && final(self).port == old(self).port,
            final(self).server_name == old(self).server_name,
    {
        let id = match self.connections.id_for(sender) {
            Some(id) => id,
            None => {
                return Err(DispatchError::ConnectionsExhausted);
            },
        };
        match Packet::decode(bytes) {
            Ok(p) => Ok((id, p)),
            Err(e) => Err(DispatchError::Decode(e)),
        }
    }
}

} // verus!
