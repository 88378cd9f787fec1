use vstd::prelude::*;

use bimap::BiBTreeMap;

verus! {

#[verifier::external_type_specification]
#[verifier::external_body]
#[verifier::reject_recursive_types(L)]
#[verifier::reject_recursive_types(R)]
pub struct ExBiBTreeMap<L, R>(BiBTreeMap<L, R>);

/// An address, as its number and port.
pub type AddrKey = (u32, u16);

/// Connection ids by address, both ways.
pub type AddrMap = BiBTreeMap<AddrKey, u64>;

/// The pairs a bimap from addresses to connection ids holds, as a map from
/// left to right values.
pub uninterp spec fn bimap_pairs(m: AddrMap) -> Map<AddrKey, u64>;

/// `m` once `(k, v)` is inserted: the pairs that held `k` on the left or `v`
/// on the right are gone, and `k` maps to `v`.
pub open spec fn pairs_after_insert(m: Map<AddrKey, u64>, k: AddrKey, v: u64) -> Map<
    AddrKey,
    u64,
> {
    Map::new(
        |x: AddrKey| x == k || (m.contains_key(x) && m[x] != v),
        |x: AddrKey| if x == k { v } else { m[x] },
    )
}

/// Relies on bimap::BiBTreeMap::new: an empty bimap.
#[verifier::external_body]
fn bimap_new() -> (r: AddrMap)
    ensures
        bimap_pairs(r).dom() == Set::<AddrKey>::empty(),
{
    BiBTreeMap::new()
}

/// Relies on bimap::BiBTreeMap::get_by_left: the right value paired with `k`.
#[verifier::external_body]
fn bimap_get_by_left(m: &AddrMap, k: AddrKey) -> (r: Option<u64>)
    ensures
        bimap_pairs(*m).contains_key(k) ==> r == Some(bimap_pairs(*m)[k]),
        !bimap_pairs(*m).contains_key(k) ==> r is None,
{
    m.get_by_left(&k).copied()
}

/// Relies on bimap::BiBTreeMap::get_by_right: the left value paired with `v`.
#[verifier::external_body]
fn bimap_get_by_right(m: &AddrMap, v: u64) -> (r: Option<AddrKey>)
    ensures
        r matches Some(k) ==> bimap_pairs(*m).contains_key(k) && bimap_pairs(*m)[k] == v,
        r is None ==> forall|k: AddrKey|
            #![trigger bimap_pairs(*m)[k]]
            bimap_pairs(*m).contains_key(k) ==> bimap_pairs(*m)[k] != v,
{
    m.get_by_right(&v).copied()
}

/// Relies on bimap::BiBTreeMap::insert: removes the pairs that hold `k` or
/// `v`, then pairs `k` with `v`.
#[verifier::external_body]
fn bimap_insert(m: &mut AddrMap, k: AddrKey, v: u64)
    ensures
        bimap_pairs(*final(m)) == pairs_after_insert(bimap_pairs(*old(m)), k, v),
{
    m.insert(k, v);
}

/// An IPv4 socket address: the address as a big-endian number, and the port.
#[derive(Clone, Copy, Debug, PartialEq, Eq)]
pub struct Ipv4Address {
    pub ip: u32,
    pub port: u16,
}

impl Ipv4Address {
    pub open spec fn key(self) -> AddrKey {
        (self.ip, self.port)
    }

    /// The four bytes of the address, most significant first.
    pub fn octets(&self) -> (r: [u8; 4])
        ensures
            r@ == crate::bytes::be32(self.ip),
    {
        let mut v: Vec<u8> = Vec::new();
        crate::bytes::write_be32(&mut v, self.ip);
        let r = [v[0], v[1], v[2], v[3]];
        assert(r@ =~= crate::bytes::be32(self.ip));
        r
    }
}

/// The connections the server has seen: each source address gets the next
/// value of a counter the first time it sends, and keeps that id. No
/// connection is ever removed.
pub struct Connections {
    map: AddrMap,
    next_id: u64,
}

/// Every id given out is below the counter, and no two addresses share one.
pub open spec fn ids_wf(ids: Map<AddrKey, u64>, next: u64) -> bool {
    &&& forall|k: AddrKey| #[trigger] ids.contains_key(k) ==> ids[k] < next
    &&& forall|k1: AddrKey, k2: AddrKey|
        #![trigger ids[k1], ids[k2]]
        ids.contains_key(k1) && ids.contains_key(k2) && ids[k1] == ids[k2] ==> k1 == k2
}

/// Asking for the id of `k`: the ids and counter after, and the id, which
/// is the one `k` has, or else the counter's value; `None` only when the
/// counter is spent.
pub open spec fn assign(ids: Map<AddrKey, u64>, next: u64, k: AddrKey) -> (
    Map<AddrKey, u64>,
    u64,
    Option<u64>,
) {
    if ids.contains_key(k) {
        (ids, next, Some(ids[k]))
    } else if next < u64::MAX {
        (ids.insert(k, next), (next + 1) as u64, Some(next))
    } else {
        (ids, next, None)
    }
}

impl Connections {
    #[verifier::type_invariant]
    spec fn ids_are_wf(self) -> bool {
        ids_wf(bimap_pairs(self.map), self.next_id)
    }

    /// The id of each known address.
    pub closed spec fn ids(self) -> Map<AddrKey, u64> {
        bimap_pairs(self.map)
    }

    /// The id the next new address will get.
    pub closed spec fn next_id(self) -> u64 {
        self.next_id
    }

    pub open spec fn wf(self) -> bool {
        ids_wf(self.ids(), self.next_id())
    }

    /// No connection yet; the first gets id 0.
    pub fn new() -> (r: Connections)
        ensures
            r.wf(),
            r.ids() == Map::<AddrKey, u64>::empty(),
            r.next_id() == 0,
    {
        let r = Connections { map: bimap_new(), next_id: 0 };
        assert(r.ids() =~= Map::<AddrKey, u64>::empty());
        r
    }

    /// The id of `addr`: the one it has, or else the next value of the
    /// counter, which it keeps from then on.
    pub fn id_for(&mut self, addr: Ipv4Address) -> (r: Option<u64>)
        ensures
            final(self).wf(),
            (final(self).ids(), final(self).next_id(), r) == assign(
                old(self).ids(),
                old(self).next_id(),
                addr.key(),
            ),
    {
        proof {
            use_type_invariant(&*self);
        }
        let key = (addr.ip, addr.port);
        match bimap_get_by_left(&self.map, key) {
            Some(id) => Some(id),
            None => {
                if self.next_id == u64::MAX {
                    return None;
                }
                let id = self.next_id;
                let ghost before = self.ids();
                let mut map = bimap_new();
                std::mem::swap(&mut map, &mut self.map);
                bimap_insert(&mut map, key, id);
                *self = Connections { map, next_id: id + 1 };
                proof {
                    assert(self.ids() =~= before.insert(key, id));
                }
                Some(id)
            },
        }
    }

    /// The address that has the id `id`, if any has.
    pub fn address_for(&self, id: u64) -> (r: Option<Ipv4Address>)
        ensures
            r matches Some(a) ==> self.ids().contains_key(a.key()) && self.ids()[a.key()] == id,
            r is None ==> forall|k: AddrKey|
                #![trigger self.ids()[k]]
                self.ids().contains_key(k) ==> self.ids()[k] != id,
    {
        proof {
            use_type_invariant(self);
        }
        match bimap_get_by_right(&self.map, id) {
            Some(k) => Some(Ipv4Address { ip: k.0, port: k.1 }),
            None => None,
        }
    }
}

/// Asking twice for the same address gives the same id both times; the only
/// address that holds that id is the one asked for; and two addresses not
/// seen before get two different ids, the later one larger.
pub proof fn lemma_id_for_laws(ids: Map<AddrKey, u64>, next: u64, a: AddrKey, b: AddrKey)
    requires
        ids_wf(ids, next),
        next < u64::MAX - 1,
    ensures
        ({
            let (ids1, next1, r1) = assign(ids, next, a);
            let (ids2, next2, r2) = assign(ids1, next1, a);
            &&& r1 is Some
            &&& r2 == r1
            &&& ids_wf(ids1, next1)
            &&& ids1.contains_key(a) && ids1[a] == r1->0
            &&& forall|k: AddrKey|
                #![trigger ids1[k]]
                ids1.contains_key(k) && ids1[k] == r1->0 ==> k == a
        }),
        ({
            let (ids1, next1, r1) = assign(ids, next, a);
            let (ids3, next3, r3) = assign(ids1, next1, b);
            a != b && !ids.contains_key(a) && !ids.contains_key(b) ==> r1->0 < r3->0
        }),
{
    let (ids1, next1, r1) = assign(ids, next, a);
    if !ids.contains_key(a) {
        assert forall|k1: AddrKey, k2: AddrKey|
            #![trigger ids1[k1], ids1[k2]]
            ids1.contains_key(k1) && ids1.contains_key(k2) && ids1[k1] == ids1[k2] implies k1
            == k2 by {
            if k1 != a && k2 != a {
                assert(ids[k1] == ids1[k1]);
                assert(ids[k2] == ids1[k2]);
            } else if k1 == a && k2 != a {
                assert(ids[k2] < next);
            } else if k2 == a && k1 != a {
                assert(ids[k1] < next);
            }
        }
    }
    assert forall|k: AddrKey| #![trigger ids1[k]] ids1.contains_key(k) && ids1[k] == r1->0 implies k
        == a by {
        if k != a && !ids.contains_key(a) {
            assert(ids[k] < next);
        }
        if k != a && ids.contains_key(a) {
            assert(ids[k] == ids1[k]);
        }
    }
}

} // verus!
