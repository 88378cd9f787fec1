use vstd::bytes::*;
use vstd::prelude::*;

verus! {

/// The two bytes of `x`, most significant first.
pub open spec fn be16(x: u16) -> Seq<u8> {
    let l = spec_u16_to_le_bytes(x);
    seq![l[1], l[0]]
}

/// The two bytes of `x`, least significant first.
pub open spec fn le16(x: u16) -> Seq<u8> {
    spec_u16_to_le_bytes(x)
}

/// The four bytes of `x`, most significant first.
pub open spec fn be32(x: u32) -> Seq<u8> {
    let l = spec_u32_to_le_bytes(x);
    seq![l[3], l[2], l[1], l[0]]
}

/// The eight bytes of `x`, most significant first.
pub open spec fn be64(x: u64) -> Seq<u8> {
    let l = spec_u64_to_le_bytes(x);
    seq![l[7], l[6], l[5], l[4], l[3], l[2], l[1], l[0]]
}

/// The `u16` held big-endian in `b` at `pos`.
pub open spec fn be16_at(b: Seq<u8>, pos: int) -> u16 {
    spec_u16_from_le_bytes(seq![b[pos + 1], b[pos]])
}

/// The `u16` held little-endian in `b` at `pos`.
pub open spec fn le16_at(b: Seq<u8>, pos: int) -> u16 {
    spec_u16_from_le_bytes(seq![b[pos], b[pos + 1]])
}

/// The `u32` held big-endian in `b` at `pos`.
pub open spec fn be32_at(b: Seq<u8>, pos: int) -> u32 {
    spec_u32_from_le_bytes(seq![b[pos + 3], b[pos + 2], b[pos + 1], b[pos]])
}

/// The `u64` held big-endian in `b` at `pos`.
pub open spec fn be64_at(b: Seq<u8>, pos: int) -> u64 {
    spec_u64_from_le_bytes(
        seq![b[pos + 7], b[pos + 6], b[pos + 5], b[pos + 4], b[pos + 3], b[pos + 2], b[pos + 1], b[pos]],
    )
}

/// Each integer read back from where its bytes were written is the integer.
pub proof fn lemma_int_round_trip(b: Seq<u8>, pos: int)
    requires
        0 <= pos,
    ensures
        forall|x: u16|
            pos + 2 <= b.len() && #[trigger] be16(x) == b.subrange(pos, pos + 2) ==> be16_at(b, pos)
                == x,
        forall|x: u16|
            pos + 2 <= b.len() && #[trigger] le16(x) == b.subrange(pos, pos + 2) ==> le16_at(b, pos)
                == x,
        forall|x: u32|
            pos + 4 <= b.len() && #[trigger] be32(x) == b.subrange(pos, pos + 4) ==> be32_at(b, pos)
                == x,
        forall|x: u64|
            pos + 8 <= b.len() && #[trigger] be64(x) == b.subrange(pos, pos + 8) ==> be64_at(b, pos)
                == x,
{
    lemma_auto_spec_u16_to_from_le_bytes();
    lemma_auto_spec_u32_to_from_le_bytes();
    lemma_auto_spec_u64_to_from_le_bytes();
    assert forall|x: u16|
        pos + 2 <= b.len() && #[trigger] be16(x) == b.subrange(pos, pos + 2) implies be16_at(b, pos)
            == x by {
        let l = spec_u16_to_le_bytes(x);
        assert(be16(x)[0] == b[pos + 0]);
        assert(be16(x)[1] == b[pos + 1]);
        assert(seq![b[pos + 1], b[pos]] =~= l);
    }
    assert forall|x: u16|
        pos + 2 <= b.len() && #[trigger] le16(x) == b.subrange(pos, pos + 2) implies le16_at(b, pos)
            == x by {
        let l = spec_u16_to_le_bytes(x);
        assert(le16(x)[0] == b[pos + 0]);
        assert(le16(x)[1] == b[pos + 1]);
        assert(seq![b[pos], b[pos + 1]] =~= l);
    }
    assert forall|x: u32|
        pos + 4 <= b.len() && #[trigger] be32(x) == b.subrange(pos, pos + 4) implies be32_at(b, pos)
            == x by {
        let l = spec_u32_to_le_bytes(x);
        assert(be32(x)[0] == b[pos + 0]);
        assert(be32(x)[1] == b[pos + 1]);
        assert(be32(x)[2] == b[pos + 2]);
        assert(be32(x)[3] == b[pos + 3]);
        assert(seq![b[pos + 3], b[pos + 2], b[pos + 1], b[pos]] =~= l);
    }
    assert forall|x: u64|
        pos + 8 <= b.len() && #[trigger] be64(x) == b.subrange(pos, pos + 8) implies be64_at(b, pos)
            == x by {
        let l = spec_u64_to_le_bytes(x);
        assert(be64(x)[0] == b[pos + 0]);
        assert(be64(x)[1] == b[pos + 1]);
        assert(be64(x)[2] == b[pos + 2]);
        assert(be64(x)[3] == b[pos + 3]);
        assert(be64(x)[4] == b[pos + 4]);
        assert(be64(x)[5] == b[pos + 5]);
        assert(be64(x)[6] == b[pos + 6]);
        assert(be64(x)[7] == b[pos + 7]);
        assert(seq![b[pos + 7], b[pos + 6], b[pos + 5], b[pos + 4], b[pos + 3], b[pos + 2], b[pos + 1], b[pos]] =~= l);
    }
}

/// Appends `src` to `out`.
pub fn append_bytes(out: &mut Vec<u8>, src: &[u8])
    ensures
        final(out)@ == old(out)@ + src@,
{
    let mut i: usize = 0;
    while i < src.len()
        invariant
            i <= src@.len(),
            out@ == old(out)@ + src@.subrange(0, i as int),
        decreases src@.len() - i,
    {
        out.push(src[i]);
        i = i + 1;
        assert(out@ =~= old(out)@ + src@.subrange(0, i as int));
    }
    assert(src@.subrange(0, i as int) =~= src@);
}

pub fn write_be16(out: &mut Vec<u8>, x: u16)
    ensures
        final(out)@ == old(out)@ + be16(x),
{
    let l = u16_to_le_bytes(x);
    out.push(l[1]);
    out.push(l[0]);
    assert(final(out)@ =~= old(out)@ + be16(x));
}

pub fn write_le16(out: &mut Vec<u8>, x: u16)
    ensures
        final(out)@ == old(out)@ + le16(x),
{
    let l = u16_to_le_bytes(x);
    out.push(l[0]);
    out.push(l[1]);
    assert(final(out)@ =~= old(out)@ + le16(x));
}

pub fn write_be32(out: &mut Vec<u8>, x: u32)
    ensures
        final(out)@ == old(out)@ + be32(x),
{
    let l = u32_to_le_bytes(x);
    out.push(l[3]);
    out.push(l[2]);
    out.push(l[1]);
    out.push(l[0]);
    assert(final(out)@ =~= old(out)@ + be32(x));
}

pub fn write_be64(out: &mut Vec<u8>, x: u64)
    ensures
        final(out)@ == old(out)@ + be64(x),
{
    let l = u64_to_le_bytes(x);
    let mut i: usize = 8;
    while i > 0
        invariant
            i <= 8,
            l@ == spec_u64_to_le_bytes(x),
            l@.len() == 8,
            out@ == old(out)@ + be64(x).subrange(0, 8 - i),
        decreases i,
    {
        i = i - 1;
        out.push(l[i]);
        assert(out@ =~= old(out)@ + be64(x).subrange(0, 8 - i));
    }
    assert(be64(x).subrange(0, 8) =~= be64(x));
}

pub fn read_be16(b: &[u8], pos: usize) -> (r: u16)
    requires
        pos + 2 <= b@.len(),
    ensures
        r == be16_at(b@, pos as int),
{
    let _n = b.len();
    let t = [b[pos + 1], b[pos]];
    assert(t@ =~= seq![b@[pos + 1], b@[pos as int]]);
    u16_from_le_bytes(&t)
}

pub fn read_le16(b: &[u8], pos: usize) -> (r: u16)
    requires
        pos + 2 <= b@.len(),
    ensures
        r == le16_at(b@, pos as int),
{
    let _n = b.len();
    let t = [b[pos], b[pos + 1]];
    assert(t@ =~= seq![b@[pos as int], b@[pos + 1]]);
    u16_from_le_bytes(&t)
}

pub fn read_be32(b: &[u8], pos: usize) -> (r: u32)
    requires
        pos + 4 <= b@.len(),
    ensures
        r == be32_at(b@, pos as int),
{
    let _n = b.len();
    let t = [b[pos + 3], b[pos + 2], b[pos + 1], b[pos]];
    assert(t@ =~= seq![b@[pos + 3], b@[pos + 2], b@[pos + 1], b@[pos as int]]);
    u32_from_le_bytes(&t)
}

pub fn read_be64(b: &[u8], pos: usize) -> (r: u64)
    requires
        pos + 8 <= b@.len(),
    ensures
        r == be64_at(b@, pos as int),
{
    let _n = b.len();
    let t = [b[pos + 7], b[pos + 6], b[pos + 5], b[pos + 4], b[pos + 3], b[pos + 2], b[pos + 1], b[pos]];
    assert(t@ =~= seq![b@[pos + 7], b@[pos + 6], b@[pos + 5], b@[pos + 4], b@[pos + 3], b@[pos + 2], b@[pos + 1], b@[pos as int]]);
    u64_from_le_bytes(&t)
}

} // verus!
