use vstd::prelude::*;

use crate::bytes::{append_bytes, be16, be16_at, lemma_int_round_trip, read_be16, write_be16};
use crate::codec::{DecodeError, EncodeError};
use crate::u24::{le24_bytes, le24_value, lemma_value_round_trip, u24};

verus! {

/// One game-packet payload framed inside a `Custom` transport packet. The
/// leading flags byte tells the three framings apart; the length is given in
/// bits, big-endian, and the payload holds `bit_length / 8` bytes. The bytes
/// of the payload are a `B`: a `Vec<u8>` in an `Encapsulation`, a sequence in
/// its view.
#[derive(Clone, Debug, PartialEq, Eq)]
pub enum EncapsulationOf<B> {
    /// Flags 0x00.
    Simple { bit_length: u16, payload: B },
    /// Flags 0x40: adds a little-endian packet count.
    ExtendedCount { bit_length: u16, count: u24, payload: B },
    /// Flags 0x60: adds a packet count and four further bytes.
    ExtendedFull { bit_length: u16, count: u24, unknown: [u8; 4], payload: B },
}

pub type Encapsulation = EncapsulationOf<Vec<u8>>;

pub type EncapsulationView = EncapsulationOf<Seq<u8>>;

impl View for EncapsulationOf<Vec<u8>> {
    type V = EncapsulationView;

    open spec fn view(&self) -> EncapsulationView {
        match *self {
            EncapsulationOf::Simple { bit_length, payload } => EncapsulationOf::Simple {
                bit_length,
                payload: payload@,
            },
            EncapsulationOf::ExtendedCount { bit_length, count, payload } =>
                EncapsulationOf::ExtendedCount { bit_length, count, payload: payload@ },
            EncapsulationOf::ExtendedFull { bit_length, count, unknown, payload } =>
                EncapsulationOf::ExtendedFull { bit_length, count, unknown, payload: payload@ },
        }
    }
}

impl<B> EncapsulationOf<B> {
    pub open spec fn bit_length(self) -> u16 {
        match self {
            EncapsulationOf::Simple { bit_length, .. } => bit_length,
            EncapsulationOf::ExtendedCount { bit_length, .. } => bit_length,
            EncapsulationOf::ExtendedFull { bit_length, .. } => bit_length,
        }
    }

    pub open spec fn payload(self) -> B {
        match self {
            EncapsulationOf::Simple { payload, .. } => payload,
            EncapsulationOf::ExtendedCount { payload, .. } => payload,
            EncapsulationOf::ExtendedFull { payload, .. } => payload,
        }
    }
}

impl EncapsulationOf<Seq<u8>> {
    /// The payload holds exactly the bytes its bit length gives.
    pub open spec fn length_matches(self) -> bool {
        self.payload().len() == self.bit_length() / 8
    }

    /// The frame can be written and read back: its length matches and its
    /// count is a 24-bit number.
    pub open spec fn wf(self) -> bool {
        &&& self.length_matches()
        &&& match self {
            EncapsulationOf::Simple { .. } => true,
            EncapsulationOf::ExtendedCount { count, .. } => count.value() < 0x100_0000,
            EncapsulationOf::ExtendedFull { count, .. } => count.value() < 0x100_0000,
        }
    }
}

/// The bytes of a frame.
pub open spec fn frame_bytes(e: EncapsulationView) -> Seq<u8> {
    match e {
        EncapsulationOf::Simple { bit_length, payload } => seq![0x00u8] + be16(bit_length)
            + payload,
        EncapsulationOf::ExtendedCount { bit_length, count, payload } => seq![0x40u8] + be16(
            bit_length,
        ) + le24_bytes(count.value()) + payload,
        EncapsulationOf::ExtendedFull { bit_length, count, unknown, payload } => seq![0x60u8]
            + be16(bit_length) + le24_bytes(count.value()) + unknown@ + payload,
    }
}

/// The bytes of frames one after the other.
pub open spec fn frames_bytes(fs: Seq<EncapsulationView>) -> Seq<u8>
    decreases fs.len(),
{
    if fs.len() == 0 {
        seq![]
    } else {
        frame_bytes(fs[0]) + frames_bytes(fs.drop_first())
    }
}

/// The number of header bytes ahead of the payload for the flags `id`.
pub open spec fn header_len(id: u8) -> int {
    if id == 0x00 {
        3
    } else if id == 0x40 {
        6
    } else {
        10
    }
}

/// Reads one frame at `pos`: the frame and the position after it.
pub open spec fn parse_frame(b: Seq<u8>, pos: int) -> Result<(EncapsulationView, int), DecodeError> {
    if pos + 1 > b.len() {
        Err(DecodeError::UnexpectedEnd)
    } else if b[pos] != 0x00 && b[pos] != 0x40 && b[pos] != 0x60 {
        Err(DecodeError::UnknownId(b[pos]))
    } else if pos + header_len(b[pos]) > b.len() {
        Err(DecodeError::UnexpectedEnd)
    } else {
        let id = b[pos];
        let bit_length = be16_at(b, pos + 1);
        let h = pos + header_len(id);
        let n = (bit_length / 8) as int;
        if h + n > b.len() {
            Err(DecodeError::UnexpectedEnd)
        } else {
            let payload = b.subrange(h, h + n);
            let count = u24::spec_new(le24_value(b.subrange(pos + 3, pos + 6)) as u32);
            if id == 0x00 {
                Ok((EncapsulationOf::Simple { bit_length, payload }, h + n))
            } else if id == 0x40 {
                Ok((EncapsulationOf::ExtendedCount { bit_length, count, payload }, h + n))
            } else {
                let unknown = [b[pos + 6], b[pos + 7], b[pos + 8], b[pos + 9]];
                Ok((EncapsulationOf::ExtendedFull { bit_length, count, unknown, payload }, h + n))
            }
        }
    }
}

/// Reads frames from `pos` to the end of `b`. The end of the buffer ends the
/// list; bytes that are not a whole frame are an error.
pub open spec fn parse_frames(b: Seq<u8>, pos: int) -> Result<Seq<EncapsulationView>, DecodeError>
    decreases b.len() - pos,
{
    if pos >= b.len() {
        Ok(seq![])
    } else {
        match parse_frame(b, pos) {
            Err(e) => Err(e),
            Ok((e, p)) => if p <= pos {
                Err(DecodeError::UnexpectedEnd)
            } else {
                match parse_frames(b, p) {
                    Err(d) => Err(d),
                    Ok(rest) => Ok(seq![e] + rest),
                }
            },
        }
    }
}

/// A frame that is read ends after where it starts.
pub proof fn lemma_parse_frame_advances(b: Seq<u8>, pos: int)
    ensures
        parse_frame(b, pos) matches Ok((_, p)) ==> pos < p <= b.len(),
{
}

/// A frame read from where it was written is the frame.
pub proof fn lemma_frame_round_trip(e: EncapsulationView, b: Seq<u8>, pos: int)
    requires
        e.wf(),
        0 <= pos,
        pos + frame_bytes(e).len() <= b.len(),
        b.subrange(pos, pos + frame_bytes(e).len()) == frame_bytes(e),
    ensures
        parse_frame(b, pos) == Ok::<(EncapsulationView, int), DecodeError>(
            (e, pos + frame_bytes(e).len()),
        ),
{
    vstd::bytes::lemma_auto_spec_u16_to_from_le_bytes();
    lemma_int_round_trip(b, pos + 1);
    let fb = frame_bytes(e);
    let n = fb.len() as int;
    assert forall|i: int| 0 <= i < n implies b[pos + i] == #[trigger] fb[i] by {
        assert(b.subrange(pos, pos + n)[i] == b[pos + i]);
    }
    assert(b[pos + 0] == fb[0]);
    assert(b.subrange(pos + 1, pos + 3) =~= be16(e.bit_length())) by {
        assert(b[pos + 1] == fb[1]);
        assert(b[pos + 2] == fb[2]);
    }
    let h: int = match e {
        EncapsulationOf::Simple { .. } => 3,
        EncapsulationOf::ExtendedCount { .. } => 6,
        EncapsulationOf::ExtendedFull { .. } => 10,
    };
    let m = e.payload().len() as int;
    assert(b.subrange(pos + h, pos + h + m) =~= e.payload()) by {
        assert forall|i: int| 0 <= i < m implies b.subrange(pos + h, pos + h + m)[i]
            == e.payload()[i] by {
            assert(b[pos + h + i] == fb[h + i]);
        }
    }
    assert(be16_at(b, pos + 1) == e.bit_length());
    assert(fb.len() == h + m);
    match e {
        EncapsulationOf::Simple { .. } => {},
        EncapsulationOf::ExtendedCount { count, .. } => {
            let w = b.subrange(pos + 3, pos + 6);
            assert(w =~= le24_bytes(count.value())) by {
                assert(b[pos + 3] == fb[3]);
                assert(b[pos + 4] == fb[4]);
                assert(b[pos + 5] == fb[5]);
            }
            lemma_value_round_trip(count.value());
            u24::lemma_spec_new(count, le24_value(w) as u32);
        },
        EncapsulationOf::ExtendedFull { count, unknown, .. } => {
            let w = b.subrange(pos + 3, pos + 6);
            assert(w =~= le24_bytes(count.value())) by {
                assert(b[pos + 3] == fb[3]);
                assert(b[pos + 4] == fb[4]);
                assert(b[pos + 5] == fb[5]);
            }
            lemma_value_round_trip(count.value());
            u24::lemma_spec_new(count, le24_value(w) as u32);
            assert(b[pos + 6] == fb[6]);
            assert(b[pos + 7] == fb[7]);
            assert(b[pos + 8] == fb[8]);
            assert(b[pos + 9] == fb[9]);
            assert([b[pos + 6], b[pos + 7], b[pos + 8], b[pos + 9]]@ =~= unknown@);
            assert([b[pos + 6], b[pos + 7], b[pos + 8], b[pos + 9]] =~= unknown);
        },
    }
}

/// Frames written one after the other, up to the end of the buffer, are read
/// back in the same order.
pub proof fn lemma_frames_round_trip(fs: Seq<EncapsulationView>, b: Seq<u8>, pos: int)
    requires
        forall|i: int| 0 <= i < fs.len() ==> (#[trigger] fs[i]).wf(),
        0 <= pos,
        pos + frames_bytes(fs).len() == b.len(),
        b.subrange(pos, b.len() as int) == frames_bytes(fs),
    ensures
        parse_frames(b, pos) == Ok::<Seq<EncapsulationView>, DecodeError>(fs),
    decreases fs.len(),
{
    if fs.len() == 0 {
        assert(fs =~= seq![]);
    } else {
        let e = fs[0];
        let rest = fs.drop_first();
        let n = frame_bytes(e).len() as int;
        let m = frames_bytes(rest).len() as int;
        assert(fs[0].wf());
        assert(b.subrange(pos, pos + n) =~= frame_bytes(e)) by {
            assert forall|i: int| 0 <= i < n implies b.subrange(pos, pos + n)[i] == frame_bytes(
                e,
            )[i] by {
                assert(b.subrange(pos, b.len() as int)[i] == b[pos + i]);
            }
        }
        assert(b.subrange(pos + n, b.len() as int) =~= frames_bytes(rest)) by {
            assert forall|i: int| 0 <= i < m implies b.subrange(pos + n, b.len() as int)[i]
                == frames_bytes(rest)[i] by {
                assert(b.subrange(pos, b.len() as int)[n + i] == b[pos + n + i]);
            }
        }
        lemma_frame_round_trip(e, b, pos);
        assert forall|i: int| 0 <= i < rest.len() implies (#[trigger] rest[i]).wf() by {
            assert(rest[i] == fs[i + 1]);
        }
        lemma_frames_round_trip(rest, b, pos + n);
        assert(seq![e] + rest =~= fs);
    }
}

pub proof fn lemma_frames_bytes_push(fs: Seq<EncapsulationView>, e: EncapsulationView)
    ensures
        frames_bytes(fs.push(e)) == frames_bytes(fs) + frame_bytes(e),
    decreases fs.len(),
{
    if fs.len() == 0 {
        assert(fs.push(e).drop_first() =~= seq![]);
        assert(frames_bytes(fs.push(e).drop_first()) == Seq::<u8>::empty());
        assert(frames_bytes(fs.push(e)) =~= frames_bytes(fs) + frame_bytes(e));
    } else {
        lemma_frames_bytes_push(fs.drop_first(), e);
        assert(fs.push(e).drop_first() =~= fs.drop_first().push(e));
        assert(frames_bytes(fs.push(e)) =~= frames_bytes(fs) + frame_bytes(e));
    }
}

/// The views of a list of frames.
pub open spec fn frames_view(fs: Seq<Encapsulation>) -> Seq<EncapsulationView> {
    fs.map_values(|e: Encapsulation| e@)
}

impl EncapsulationOf<Vec<u8>> {
    /// The game-packet bytes the frame carries.
    pub fn to_game_packet(self) -> (r: Vec<u8>)
        ensures
            r@ == self@.payload(),
    {
        match self {
            EncapsulationOf::Simple { payload, .. } => payload,
            EncapsulationOf::ExtendedCount { payload, .. } => payload,
            EncapsulationOf::ExtendedFull { payload, .. } => payload,
        }
    }

    /// The game-packet bytes the frame carries.
    pub fn payload_ref(&self) -> (r: &Vec<u8>)
        ensures
            r@ == self@.payload(),
    {
        match self {
            EncapsulationOf::Simple { payload, .. } => payload,
            EncapsulationOf::ExtendedCount { payload, .. } => payload,
            EncapsulationOf::ExtendedFull { payload, .. } => payload,
        }
    }

    /// A `Simple` frame around `payload`, whose bit length is eight times its
    /// byte count; `None` where that does not fit 16 bits.
    pub fn simple(payload: Vec<u8>) -> (r: Option<Encapsulation>)
        ensures
            payload@.len() * 8 <= 0xffff ==> r == Some(
                EncapsulationOf::Simple { bit_length: (payload@.len() * 8) as u16, payload },
            ),
            payload@.len() * 8 > 0xffff ==> r is None,
    {
        if payload.len() > 0x1fff {
            None
        } else {
            let bit_length = (payload.len() * 8) as u16;
            Some(EncapsulationOf::Simple { bit_length, payload })
        }
    }

    /// Appends the bytes of the frame, or gives `LengthMismatch` where the
    /// payload does not hold `bit_length / 8` bytes.
    pub fn encode_into(&self, out: &mut Vec<u8>) -> (r: Result<(), EncodeError>)
        ensures
            r is Ok <==> self@.length_matches(),
            r is Ok ==> final(out)@ == old(out)@ + frame_bytes(self@),
            r is Err ==> r == Err::<(), EncodeError>(EncodeError::LengthMismatch) && final(out)@
                == old(out)@,
    {
        let (bit_length, payload) = match self {
            EncapsulationOf::Simple { bit_length, payload } => (*bit_length, payload),
            EncapsulationOf::ExtendedCount { bit_length, payload, .. } => (*bit_length, payload),
            EncapsulationOf::ExtendedFull { bit_length, payload, .. } => (*bit_length, payload),
        };
        if payload.len() != (bit_length / 8) as usize {
            return Err(EncodeError::LengthMismatch);
        }
        match self {
            EncapsulationOf::Simple { .. } => {
                out.push(0x00);
                write_be16(out, bit_length);
            },
            EncapsulationOf::ExtendedCount { count, .. } => {
                out.push(0x40);
                write_be16(out, bit_length);
                let c = count.to_le_bytes();
                out.push(c[0]);
                out.push(c[1]);
                out.push(c[2]);
            },
            EncapsulationOf::ExtendedFull { count, unknown, .. } => {
                out.push(0x60);
                write_be16(out, bit_length);
                let c = count.to_le_bytes();
                out.push(c[0]);
                out.push(c[1]);
                out.push(c[2]);
                append_bytes(out, unknown);
            },
        }
        append_bytes(out, payload.as_slice());
        assert(final(out)@ =~= old(out)@ + frame_bytes(self@));
        Ok(())
    }
}

/// Reads one frame at `pos`.
pub fn decode_frame(b: &[u8], pos: usize) -> (r: Result<(Encapsulation, usize), DecodeError>)
    requires
        pos <= b@.len(),
    ensures
        match (r, parse_frame(b@, pos as int)) {
            (Ok((e, p)), Ok((f, q))) => e@ == f && p == q,
            (Err(e), Err(d)) => e == d,
            _ => false,
        },
{
    let len = b.len();
    if len - pos < 1 {
        return Err(DecodeError::UnexpectedEnd);
    }
    let id = b[pos];
    if id != 0x00 && id != 0x40 && id != 0x60 {
        return Err(DecodeError::UnknownId(id));
    }
    let h: usize = if id == 0x00 {
        3
    } else if id == 0x40 {
        6
    } else {
        10
    };
    if len - pos < h {
        return Err(DecodeError::UnexpectedEnd);
    }
    let bit_length = read_be16(b, pos + 1);
    let n = (bit_length / 8) as usize;
    if len - pos - h < n {
        return Err(DecodeError::UnexpectedEnd);
    }
    let mut payload: Vec<u8> = Vec::new();
    append_bytes(&mut payload, vstd::slice::slice_subrange(b, pos + h, pos + h + n));
    if id == 0x00 {
        Ok((EncapsulationOf::Simple { bit_length, payload }, pos + h + n))
    } else {
        let a = [b[pos + 3], b[pos + 4], b[pos + 5]];
        let count = u24::from_le_bytes(a);
        proof {
            assert(a@ =~= b@.subrange(pos + 3, pos + 6));
            u24::lemma_spec_new(count, le24_value(a@) as u32);
        }
        if id == 0x40 {
            Ok((EncapsulationOf::ExtendedCount { bit_length, count, payload }, pos + h + n))
        } else {
            let unknown = [b[pos + 6], b[pos + 7], b[pos + 8], b[pos + 9]];
            Ok((EncapsulationOf::ExtendedFull { bit_length, count, unknown, payload }, pos + h + n))
        }
    }
}

/// Appends the bytes of each frame in turn, or gives `LengthMismatch` where a
/// payload does not match its bit length.
pub fn encode(encapsulated: &Vec<Encapsulation>, out: &mut Vec<u8>) -> (r: Result<(), EncodeError>)
    ensures
        r is Ok <==> forall|i: int|
            0 <= i < encapsulated@.len() ==> (#[trigger] encapsulated@[i]@).length_matches(),
        r is Ok ==> final(out)@ == old(out)@ + frames_bytes(frames_view(encapsulated@)),
        r is Err ==> r == Err::<(), EncodeError>(EncodeError::LengthMismatch),
{
    let mut i: usize = 0;
    while i < encapsulated.len()
        invariant
            i <= encapsulated@.len(),
            forall|j: int| 0 <= j < i ==> (#[trigger] encapsulated@[j]@).length_matches(),
            out@ == old(out)@ + frames_bytes(frames_view(encapsulated@.subrange(0, i as int))),
        decreases encapsulated@.len() - i,
    {
        match encapsulated[i].encode_into(out) {
            Err(e) => {
                return Err(e);
            },
            Ok(()) => {},
        }
        proof {
            lemma_frames_bytes_push(
                frames_view(encapsulated@.subrange(0, i as int)),
                encapsulated@[i as int]@,
            );
            assert(frames_view(encapsulated@.subrange(0, i + 1)) =~= frames_view(
                encapsulated@.subrange(0, i as int),
            ).push(encapsulated@[i as int]@));
        }
        i = i + 1;
    }
    assert(encapsulated@.subrange(0, i as int) =~= encapsulated@);
    Ok(())
}

/// Reads frames from `pos` to the end of `b`: the end of the buffer ends the
/// list, and bytes that are not a whole frame are an error.
pub fn decode(b: &[u8], pos: usize) -> (r: Result<Vec<Encapsulation>, DecodeError>)
    requires
        pos <= b@.len(),
    ensures
        match (r, parse_frames(b@, pos as int)) {
            (Ok(v), Ok(w)) => frames_view(v@) == w,
            (Err(e), Err(d)) => e == d,
            _ => false,
        },
{
    let mut acc: Vec<Encapsulation> = Vec::new();
    let mut p = pos;
    proof {
        if let Ok(w) = parse_frames(b@, pos as int) {
            assert(frames_view(acc@) + w =~= w);
        }
    }
    while p < b.len()
        invariant
            pos <= p <= b@.len(),
            match parse_frames(b@, pos as int) {
                Ok(w) => parse_frames(b@, p as int) matches Ok(rest) && w == frames_view(acc@)
                    + rest,
                Err(d) => parse_frames(b@, p as int) == Err::<Seq<EncapsulationView>, DecodeError>(
                    d,
                ),
            },
        decreases b@.len() - p,
    {
        proof {
            lemma_parse_frame_advances(b@, p as int);
        }
        match decode_frame(b, p) {
            Err(e) => {
                return Err(e);
            },
            Ok((e, q)) => {
                proof {
                    if let Ok(w) = parse_frames(b@, pos as int) {
                        let rest = parse_frames(b@, q as int)->Ok_0;
                        assert(frames_view(acc@.push(e)) =~= frames_view(acc@).push(e@));
                        assert(frames_view(acc@) + (seq![e@] + rest) =~= frames_view(acc@).push(e@)
                            + rest);
                    }
                }
                acc.push(e);
                p = q;
            },
        }
    }
    proof {
        if let Ok(w) = parse_frames(b@, pos as int) {
            assert(frames_view(acc@) + seq![] =~= frames_view(acc@));
        }
    }
    Ok(acc)
}

} // verus!
