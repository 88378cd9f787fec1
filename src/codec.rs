use vstd::prelude::*;
use vstd::slice::slice_subrange;
use vstd::utf8::*;

use crate::bytes::{
    append_bytes, be16, be16_at, be32, be32_at, be64, be64_at, le16, le16_at, lemma_int_round_trip,
    read_be16, read_be32, read_be64, read_le16, write_be16, write_be32, write_be64, write_le16,
};
use crate::constants::{constant_bytes, constant_vec, Constant};
use crate::u24::{le24_bytes, le24_value, u24};

verus! {

/// Why a byte buffer is not a packet.
#[derive(Clone, Copy, Debug, PartialEq, Eq)]
pub enum DecodeError {
    /// The buffer ends in the middle of a field.
    UnexpectedEnd,
    /// The leading byte names no packet of the family.
    UnknownId(u8),
    /// A string field holds bytes that are not UTF-8.
    InvalidUtf8,
    /// A fixed byte sequence differs from the one the protocol prescribes.
    ConstantMismatch,
    /// A boolean byte is neither 0 nor 1.
    InvalidFlag(u8),
}

/// Why a packet cannot be written.
#[derive(Clone, Copy, Debug, PartialEq, Eq)]
pub enum EncodeError {
    /// A string is longer than its 16-bit length prefix can say.
    StringTooLong,
    /// An encapsulated payload does not hold the number of bytes its bit length gives.
    LengthMismatch,
}

/// The wire shape of one field.
#[derive(Clone, Copy, Debug, PartialEq, Eq)]
pub enum FieldKind {
    Byte,
    SignedByte,
    Be16,
    Be32,
    SignedBe32,
    Be64,
    Le24,
    /// A byte that is 0 for false and 1 for true.
    Flag,
    /// UTF-8 text behind a big-endian 16-bit byte count.
    StrBe,
    /// UTF-8 text behind a little-endian 16-bit byte count.
    StrLe,
    Fixed(Constant),
}

/// One field with its value; the text of a string field is an `S`.
#[derive(Clone, Debug, PartialEq, Eq)]
pub enum FieldOf<S> {
    Byte(u8),
    SignedByte(i8),
    Be16(u16),
    Be32(u32),
    SignedBe32(i32),
    Be64(u64),
    Le24(u24),
    Flag(bool),
    StrBe(S),
    StrLe(S),
    Fixed(Constant),
}

pub type Field = FieldOf<String>;

/// A field whose text is a sequence of characters.
pub type FieldView = FieldOf<Seq<char>>;

impl View for FieldOf<String> {
    type V = FieldView;

    open spec fn view(&self) -> FieldView {
        match *self {
            FieldOf::Byte(v) => FieldOf::Byte(v),
            FieldOf::SignedByte(v) => FieldOf::SignedByte(v),
            FieldOf::Be16(v) => FieldOf::Be16(v),
            FieldOf::Be32(v) => FieldOf::Be32(v),
            FieldOf::SignedBe32(v) => FieldOf::SignedBe32(v),
            FieldOf::Be64(v) => FieldOf::Be64(v),
            FieldOf::Le24(v) => FieldOf::Le24(v),
            FieldOf::Flag(v) => FieldOf::Flag(v),
            FieldOf::StrBe(s) => FieldOf::StrBe(s@),
            FieldOf::StrLe(s) => FieldOf::StrLe(s@),
            FieldOf::Fixed(c) => FieldOf::Fixed(c),
        }
    }
}

/// The views of a list of fields.
pub open spec fn fields_view(fs: Seq<Field>) -> Seq<FieldView> {
    fs.map_values(|f: Field| f@)
}

/// The shape of a field.
pub open spec fn kind_of<S>(f: FieldOf<S>) -> FieldKind {
    match f {
        FieldOf::Byte(_) => FieldKind::Byte,
        FieldOf::SignedByte(_) => FieldKind::SignedByte,
        FieldOf::Be16(_) => FieldKind::Be16,
        FieldOf::Be32(_) => FieldKind::Be32,
        FieldOf::SignedBe32(_) => FieldKind::SignedBe32,
        FieldOf::Be64(_) => FieldKind::Be64,
        FieldOf::Le24(_) => FieldKind::Le24,
        FieldOf::Flag(_) => FieldKind::Flag,
        FieldOf::StrBe(_) => FieldKind::StrBe,
        FieldOf::StrLe(_) => FieldKind::StrLe,
        FieldOf::Fixed(c) => FieldKind::Fixed(c),
    }
}

/// The shapes of a list of fields.
pub open spec fn kinds_of<S>(fs: Seq<FieldOf<S>>) -> Seq<FieldKind> {
    fs.map_values(|f: FieldOf<S>| kind_of(f))
}

/// A field can be written and read back: its text fits its length prefix
/// and its 24-bit number is in range.
pub open spec fn field_wf(f: FieldView) -> bool {
    match f {
        FieldOf::StrBe(s) => encode_utf8(s).len() <= 0xffff,
        FieldOf::StrLe(s) => encode_utf8(s).len() <= 0xffff,
        FieldOf::Le24(v) => v.value() < 0x100_0000,
        _ => true,
    }
}

pub open spec fn fields_wf(fs: Seq<FieldView>) -> bool {
    forall|i: int| 0 <= i < fs.len() ==> field_wf(#[trigger] fs[i])
}

/// The text fits a 16-bit length prefix.
pub open spec fn text_fits(s: Seq<char>) -> bool {
    encode_utf8(s).len() <= 0xffff
}

/// The bytes of one field on the wire.
pub open spec fn field_bytes(f: FieldView) -> Seq<u8> {
    match f {
        FieldOf::Byte(v) => seq![v],
        FieldOf::SignedByte(v) => seq![#[verifier::truncate] (v as u8)],
        FieldOf::Be16(v) => be16(v),
        FieldOf::Be32(v) => be32(v),
        FieldOf::SignedBe32(v) => be32(#[verifier::truncate] (v as u32)),
        FieldOf::Be64(v) => be64(v),
        FieldOf::Le24(v) => le24_bytes(v.value()),
        FieldOf::Flag(v) => seq![if v { 1u8 } else { 0u8 }],
        FieldOf::StrBe(s) => be16(encode_utf8(s).len() as u16) + encode_utf8(s),
        FieldOf::StrLe(s) => le16(encode_utf8(s).len() as u16) + encode_utf8(s),
        FieldOf::Fixed(c) => constant_bytes(c),
    }
}

/// The bytes of a list of fields, one after the other.
pub open spec fn fields_bytes(fs: Seq<FieldView>) -> Seq<u8>
    decreases fs.len(),
{
    if fs.len() == 0 {
        seq![]
    } else {
        field_bytes(fs[0]) + fields_bytes(fs.drop_first())
    }
}

/// Reads text of `n` bytes at `pos`.
pub open spec fn parse_text(b: Seq<u8>, pos: int, n: int) -> Result<(Seq<char>, int), DecodeError> {
    if pos + n > b.len() {
        Err(DecodeError::UnexpectedEnd)
    } else if !valid_utf8(b.subrange(pos, pos + n)) {
        Err(DecodeError::InvalidUtf8)
    } else {
        Ok((decode_utf8(b.subrange(pos, pos + n)), pos + n))
    }
}

/// Reads a field of shape `k` at `pos`: the field and the position after it.
pub open spec fn parse_field(k: FieldKind, b: Seq<u8>, pos: int) -> Result<
    (FieldView, int),
    DecodeError,
> {
    match k {
        FieldKind::Byte => if pos + 1 <= b.len() {
            Ok((FieldOf::Byte(b[pos]), pos + 1))
        } else {
            Err(DecodeError::UnexpectedEnd)
        },
        FieldKind::SignedByte => if pos + 1 <= b.len() {
            Ok((FieldOf::SignedByte(#[verifier::truncate] (b[pos] as i8)), pos + 1))
        } else {
            Err(DecodeError::UnexpectedEnd)
        },
        FieldKind::Be16 => if pos + 2 <= b.len() {
            Ok((FieldOf::Be16(be16_at(b, pos)), pos + 2))
        } else {
            Err(DecodeError::UnexpectedEnd)
        },
        FieldKind::Be32 => if pos + 4 <= b.len() {
            Ok((FieldOf::Be32(be32_at(b, pos)), pos + 4))
        } else {
            Err(DecodeError::UnexpectedEnd)
        },
        FieldKind::SignedBe32 => if pos + 4 <= b.len() {
            Ok((FieldOf::SignedBe32(#[verifier::truncate] (be32_at(b, pos) as i32)), pos + 4))
        } else {
            Err(DecodeError::UnexpectedEnd)
        },
        FieldKind::Be64 => if pos + 8 <= b.len() {
            Ok((FieldOf::Be64(be64_at(b, pos)), pos + 8))
        } else {
            Err(DecodeError::UnexpectedEnd)
        },
        FieldKind::Le24 => if pos + 3 <= b.len() {
            Ok(
                (
                    FieldOf::Le24(u24::spec_new(le24_value(b.subrange(pos, pos + 3)) as u32)),
                    pos + 3,
                ),
            )
        } else {
            Err(DecodeError::UnexpectedEnd)
        },
        FieldKind::Flag => if pos + 1 > b.len() {
            Err(DecodeError::UnexpectedEnd)
        } else if b[pos] == 0 {
            Ok((FieldOf::Flag(false), pos + 1))
        } else if b[pos] == 1 {
            Ok((FieldOf::Flag(true), pos + 1))
        } else {
            Err(DecodeError::InvalidFlag(b[pos]))
        },
        FieldKind::StrBe => if pos + 2 > b.len() {
            Err(DecodeError::UnexpectedEnd)
        } else {
            match parse_text(b, pos + 2, be16_at(b, pos) as int) {
                Ok((s, p)) => Ok((FieldOf::StrBe(s), p)),
                Err(e) => Err(e),
            }
        },
        FieldKind::StrLe => if pos + 2 > b.len() {
            Err(DecodeError::UnexpectedEnd)
        } else {
            match parse_text(b, pos + 2, le16_at(b, pos) as int) {
                Ok((s, p)) => Ok((FieldOf::StrLe(s), p)),
                Err(e) => Err(e),
            }
        },
        FieldKind::Fixed(c) => if pos + constant_bytes(c).len() > b.len() {
            Err(DecodeError::UnexpectedEnd)
        } else if b.subrange(pos, pos + constant_bytes(c).len()) == constant_bytes(c) {
            Ok((FieldOf::Fixed(c), pos + constant_bytes(c).len()))
        } else {
            Err(DecodeError::ConstantMismatch)
        },
    }
}

/// Reads fields of the shapes `ks`, one after the other, from `pos`.
pub open spec fn parse_fields(ks: Seq<FieldKind>, b: Seq<u8>, pos: int) -> Result<
    (Seq<FieldView>, int),
    DecodeError,
>
    decreases ks.len(),
{
    if ks.len() == 0 {
        Ok((seq![], pos))
    } else {
        match parse_field(ks[0], b, pos) {
            Err(e) => Err(e),
            Ok((f, p)) => match parse_fields(ks.drop_first(), b, p) {
                Err(e) => Err(e),
                Ok((fs, q)) => Ok((seq![f] + fs, q)),
            },
        }
    }
}

/// A field read from where it was written is the field, and the reading
/// ends where its bytes end.
pub proof fn lemma_field_round_trip(f: FieldView, b: Seq<u8>, pos: int)
    requires
        field_wf(f),
        0 <= pos,
        pos + field_bytes(f).len() <= b.len(),
        b.subrange(pos, pos + field_bytes(f).len()) == field_bytes(f),
    ensures
        parse_field(kind_of(f), b, pos) == Ok::<(FieldView, int), DecodeError>(
            (f, pos + field_bytes(f).len()),
        ),
{
    lemma_int_round_trip(b, pos);
    vstd::bytes::lemma_auto_spec_u16_to_from_le_bytes();
    let n = field_bytes(f).len() as int;
    assert(forall|i: int| 0 <= i < n ==> b[pos + i] == #[trigger] field_bytes(f)[i]) by {
        assert forall|i: int| 0 <= i < n implies b[pos + i] == #[trigger] field_bytes(f)[i] by {
            assert(b.subrange(pos, pos + n)[i] == b[pos + i]);
        }
    }
    match f {
        FieldOf::Byte(_) => {
            assert(b[pos + 0] == field_bytes(f)[0]);
        },
        FieldOf::SignedByte(v) => {
            assert(b[pos + 0] == field_bytes(f)[0]);
            assert(#[verifier::truncate] ((#[verifier::truncate] (v as u8)) as i8) == v)
                by (bit_vector);
        },
        FieldOf::Flag(_) => {
            assert(b[pos + 0] == field_bytes(f)[0]);
        },
        FieldOf::SignedBe32(v) => {
            assert(be32_at(b, pos) == #[verifier::truncate] (v as u32));
            assert(#[verifier::truncate] ((#[verifier::truncate] (v as u32)) as i32) == v)
                by (bit_vector);
        },
        FieldOf::Le24(v) => {
            let w = b.subrange(pos, pos + 3);
            crate::u24::lemma_value_round_trip(v.value());
            assert(le24_value(w) == v.value());
            u24::lemma_spec_new(v, le24_value(w) as u32);
        },
        FieldOf::StrBe(s) => {
            let t = encode_utf8(s);
            let len = t.len() as u16;
            assert(b.subrange(pos, pos + 2) =~= be16(len)) by {
                assert(b[pos + 0] == field_bytes(f)[0]);
                assert(b[pos + 1] == field_bytes(f)[1]);
            }
            assert(be16_at(b, pos) == len);
            assert(b.subrange(pos + 2, pos + 2 + t.len()) =~= t) by {
                assert forall|i: int| 0 <= i < t.len() implies b.subrange(
                    pos + 2,
                    pos + 2 + t.len(),
                )[i] == t[i] by {
                    assert(field_bytes(f)[2 + i] == t[i]);
                }
            }
            encode_utf8_valid_utf8(s);
            encode_utf8_decode_utf8(s);
        },
        FieldOf::StrLe(s) => {
            let t = encode_utf8(s);
            let len = t.len() as u16;
            assert(b.subrange(pos, pos + 2) =~= le16(len)) by {
                assert(b[pos + 0] == field_bytes(f)[0]);
                assert(b[pos + 1] == field_bytes(f)[1]);
            }
            assert(le16_at(b, pos) == len);
            assert(b.subrange(pos + 2, pos + 2 + t.len()) =~= t) by {
                assert forall|i: int| 0 <= i < t.len() implies b.subrange(
                    pos + 2,
                    pos + 2 + t.len(),
                )[i] == t[i] by {
                    assert(field_bytes(f)[2 + i] == t[i]);
                }
            }
            encode_utf8_valid_utf8(s);
            encode_utf8_decode_utf8(s);
        },
        _ => {},
    }
}

/// Fields read from where they were written are the fields.
pub proof fn lemma_fields_round_trip(fs: Seq<FieldView>, b: Seq<u8>, pos: int)
    requires
        fields_wf(fs),
        0 <= pos,
        pos + fields_bytes(fs).len() <= b.len(),
        b.subrange(pos, pos + fields_bytes(fs).len()) == fields_bytes(fs),
    ensures
        parse_fields(kinds_of(fs), b, pos) == Ok::<(Seq<FieldView>, int), DecodeError>(
            (fs, pos + fields_bytes(fs).len()),
        ),
    decreases fs.len(),
{
    if fs.len() == 0 {
        assert(kinds_of(fs) =~= seq![]);
        assert(fs =~= seq![]);
    } else {
        let f = fs[0];
        let rest = fs.drop_first();
        let n = field_bytes(f).len() as int;
        let m = fields_bytes(rest).len() as int;
        assert(fields_bytes(fs) == field_bytes(f) + fields_bytes(rest));
        assert(b.subrange(pos, pos + n) =~= field_bytes(f)) by {
            assert forall|i: int| 0 <= i < n implies b.subrange(pos, pos + n)[i] == field_bytes(
                f,
            )[i] by {
                assert(b.subrange(pos, pos + n + m)[i] == b[pos + i]);
            }
        }
        assert(b.subrange(pos + n, pos + n + m) =~= fields_bytes(rest)) by {
            assert forall|i: int| 0 <= i < m implies b.subrange(pos + n, pos + n + m)[i]
                == fields_bytes(rest)[i] by {
                assert(b.subrange(pos, pos + n + m)[n + i] == b[pos + n + i]);
            }
        }
        assert(field_wf(fs[0]));
        lemma_field_round_trip(f, b, pos);
        assert(fields_wf(rest)) by {
            assert forall|i: int| 0 <= i < rest.len() implies field_wf(#[trigger] rest[i]) by {
                assert(rest[i] == fs[i + 1]);
            }
        }
        lemma_fields_round_trip(rest, b, pos + n);
        assert(kinds_of(fs)[0] == kind_of(f));
        assert(kinds_of(fs).drop_first() =~= kinds_of(rest));
        assert(seq![f] + rest =~= fs);
    }
}

/// The result of reading a field, as its view.
pub open spec fn field_result_view(r: Result<(Field, usize), DecodeError>) -> Result<
    (FieldView, int),
    DecodeError,
> {
    match r {
        Ok((f, p)) => Ok((f@, p as int)),
        Err(e) => Err(e),
    }
}

/// The result of reading a list of fields, as its view.
pub open spec fn fields_result_view(r: Result<(Vec<Field>, usize), DecodeError>) -> Result<
    (Seq<FieldView>, int),
    DecodeError,
> {
    match r {
        Ok((fs, p)) => Ok((fields_view(fs@), p as int)),
        Err(e) => Err(e),
    }
}

/// `pre` followed by what `r` read, or the error of `r`.
pub open spec fn prepend_fields(
    pre: Seq<FieldView>,
    r: Result<(Seq<FieldView>, int), DecodeError>,
) -> Result<(Seq<FieldView>, int), DecodeError> {
    match r {
        Ok((fs, q)) => Ok((pre + fs, q)),
        Err(e) => Err(e),
    }
}

pub proof fn lemma_fields_bytes_push(fs: Seq<FieldView>, f: FieldView)
    ensures
        fields_bytes(fs.push(f)) == fields_bytes(fs) + field_bytes(f),
    decreases fs.len(),
{
    if fs.len() == 0 {
        assert(fs.push(f).drop_first() =~= seq![]);
        assert(fields_bytes(fs.push(f).drop_first()) == Seq::<u8>::empty());
        assert(fields_bytes(fs) == Seq::<u8>::empty());
        assert(fields_bytes(fs.push(f)) =~= fields_bytes(fs) + field_bytes(f));
    } else {
        lemma_fields_bytes_push(fs.drop_first(), f);
        assert(fs.push(f).drop_first() =~= fs.drop_first().push(f));
        assert(fields_bytes(fs.push(f)) =~= fields_bytes(fs) + field_bytes(f));
    }
}

/// Relies on std::str::from_utf8: it accepts exactly the bytes that are valid
/// UTF-8, and the text it gives holds the characters that they encode.
#[verifier::external_body]
fn text_from_utf8(b: &[u8]) -> (r: Option<String>)
    ensures
        r is Some <==> valid_utf8(b@),
        r matches Some(s) ==> s@ == decode_utf8(b@),
{
    match std::str::from_utf8(b) {
        Ok(s) => Some(s.to_owned()),
        Err(_) => None,
    }
}

/// Writes a string field: its byte count in the given order, then its bytes.
fn write_text(out: &mut Vec<u8>, s: &String, big_endian: bool)
    requires
        text_fits(s@),
    ensures
        big_endian ==> final(out)@ == old(out)@ + be16(encode_utf8(s@).len() as u16) + encode_utf8(
            s@,
        ),
        !big_endian ==> final(out)@ == old(out)@ + le16(encode_utf8(s@).len() as u16)
            + encode_utf8(s@),
{
    let t = s.as_str().as_bytes();
    if big_endian {
        write_be16(out, t.len() as u16);
    } else {
        write_le16(out, t.len() as u16);
    }
    append_bytes(out, t);
}

/// Appends the bytes of one field.
pub fn write_field(out: &mut Vec<u8>, f: &Field)
    requires
        field_wf(f@),
    ensures
        final(out)@ == old(out)@ + field_bytes(f@),
{
    match f {
        FieldOf::Byte(v) => {
            out.push(*v);
        },
        FieldOf::SignedByte(v) => {
            out.push(*v as u8);
        },
        FieldOf::Be16(v) => write_be16(out, *v),
        FieldOf::Be32(v) => write_be32(out, *v),
        FieldOf::SignedBe32(v) => write_be32(out, *v as u32),
        FieldOf::Be64(v) => write_be64(out, *v),
        FieldOf::Le24(v) => {
            let a = v.to_le_bytes();
            out.push(a[0]);
            out.push(a[1]);
            out.push(a[2]);
        },
        FieldOf::Flag(v) => {
            out.push(if *v { 1u8 } else { 0u8 });
        },
        FieldOf::StrBe(s) => write_text(out, s, true),
        FieldOf::StrLe(s) => write_text(out, s, false),
        FieldOf::Fixed(c) => {
            let t = constant_vec(*c);
            append_bytes(out, t.as_slice());
        },
    }
    assert(final(out)@ =~= old(out)@ + field_bytes(f@));
}

/// Appends the bytes of each field in turn.
pub fn write_fields(out: &mut Vec<u8>, fs: &Vec<Field>)
    requires
        fields_wf(fields_view(fs@)),
    ensures
        final(out)@ == old(out)@ + fields_bytes(fields_view(fs@)),
{
    let mut i: usize = 0;
    while i < fs.len()
        invariant
            i <= fs@.len(),
            fields_wf(fields_view(fs@)),
            out@ == old(out)@ + fields_bytes(fields_view(fs@.subrange(0, i as int))),
        decreases fs@.len() - i,
    {
        assert(field_wf(fields_view(fs@)[i as int]));
        write_field(out, &fs[i]);
        proof {
            lemma_fields_bytes_push(fields_view(fs@.subrange(0, i as int)), fs@[i as int]@);
            assert(fields_view(fs@.subrange(0, i + 1)) =~= fields_view(
                fs@.subrange(0, i as int),
            ).push(fs@[i as int]@));
        }
        i = i + 1;
    }
    assert(fs@.subrange(0, i as int) =~= fs@);
}

/// Reads text of `n` bytes at `pos`.
fn read_text(b: &[u8], pos: usize, n: usize) -> (r: Result<(String, usize), DecodeError>)
    requires
        pos <= b@.len(),
    ensures
        match (r, parse_text(b@, pos as int, n as int)) {
            (Ok((s, p)), Ok((t, q))) => s@ == t && p == q,
            (Err(e), Err(d)) => e == d,
            _ => false,
        },
{
    if n > b.len() - pos {
        return Err(DecodeError::UnexpectedEnd);
    }
    let t = slice_subrange(b, pos, pos + n);
    match text_from_utf8(t) {
        Some(s) => Ok((s, pos + n)),
        None => Err(DecodeError::InvalidUtf8),
    }
}

/// Reads a field of shape `k` at `pos`.
pub fn read_field(k: FieldKind, b: &[u8], pos: usize) -> (r: Result<(Field, usize), DecodeError>)
    requires
        pos <= b@.len(),
    ensures
        field_result_view(r) == parse_field(k, b@, pos as int),
        r matches Ok((_, p)) ==> pos <= p <= b@.len(),
{
    let len = b.len();
    match k {
        FieldKind::Byte => if len - pos >= 1 {
            Ok((FieldOf::Byte(b[pos]), pos + 1))
        } else {
            Err(DecodeError::UnexpectedEnd)
        },
        FieldKind::SignedByte => if len - pos >= 1 {
            Ok((FieldOf::SignedByte(#[verifier::truncate] (b[pos] as i8)), pos + 1))
        } else {
            Err(DecodeError::UnexpectedEnd)
        },
        FieldKind::Be16 => if len - pos >= 2 {
            Ok((FieldOf::Be16(read_be16(b, pos)), pos + 2))
        } else {
            Err(DecodeError::UnexpectedEnd)
        },
        FieldKind::Be32 => if len - pos >= 4 {
            Ok((FieldOf::Be32(read_be32(b, pos)), pos + 4))
        } else {
            Err(DecodeError::UnexpectedEnd)
        },
        FieldKind::SignedBe32 => if len - pos >= 4 {
            Ok((FieldOf::SignedBe32(#[verifier::truncate] (read_be32(b, pos) as i32)), pos + 4))
        } else {
            Err(DecodeError::UnexpectedEnd)
        },
        FieldKind::Be64 => if len - pos >= 8 {
            Ok((FieldOf::Be64(read_be64(b, pos)), pos + 8))
        } else {
            Err(DecodeError::UnexpectedEnd)
        },
        FieldKind::Le24 => if len - pos >= 3 {
            let a = [b[pos], b[pos + 1], b[pos + 2]];
            let v = u24::from_le_bytes(a);
            proof {
                assert(a@ =~= b@.subrange(pos as int, pos + 3));
                u24::lemma_spec_new(v, le24_value(a@) as u32);
            }
            Ok((FieldOf::Le24(v), pos + 3))
        } else {
            Err(DecodeError::UnexpectedEnd)
        },
        FieldKind::Flag => if len - pos < 1 {
            Err(DecodeError::UnexpectedEnd)
        } else if b[pos] == 0 {
            Ok((FieldOf::Flag(false), pos + 1))
        } else if b[pos] == 1 {
            Ok((FieldOf::Flag(true), pos + 1))
        } else {
            Err(DecodeError::InvalidFlag(b[pos]))
        },
        FieldKind::StrBe => if len - pos < 2 {
            Err(DecodeError::UnexpectedEnd)
        } else {
            let n = read_be16(b, pos) as usize;
            match read_text(b, pos + 2, n) {
                Ok((s, p)) => Ok((FieldOf::StrBe(s), p)),
                Err(e) => Err(e),
            }
        },
        FieldKind::StrLe => if len - pos < 2 {
            Err(DecodeError::UnexpectedEnd)
        } else {
            let n = read_le16(b, pos) as usize;
            match read_text(b, pos + 2, n) {
                Ok((s, p)) => Ok((FieldOf::StrLe(s), p)),
                Err(e) => Err(e),
            }
        },
        FieldKind::Fixed(c) => {
            let t = constant_vec(c);
            let n = t.len();
            if len - pos < n {
                return Err(DecodeError::UnexpectedEnd);
            }
            let mut i: usize = 0;
            while i < n
                invariant
                    i <= n,
                    n == t@.len(),
                    len == b@.len(),
                    k == FieldKind::Fixed(c),
                    t@ == constant_bytes(c),
                    pos + n <= b@.len(),
                    forall|j: int| 0 <= j < i ==> b@[pos + j] == t@[j],
                decreases n - i,
            {
                if b[pos + i] != t[i] {
                    assert(b@.subrange(pos as int, pos + n)[i as int] != t@[i as int]);
                    assert(b@.subrange(pos as int, pos + n) != constant_bytes(c));

                    return Err(DecodeError::ConstantMismatch);
                }
                i = i + 1;
            }
            assert(b@.subrange(pos as int, pos + n) =~= t@);
            Ok((FieldOf::Fixed(c), pos + n))
        },
    }
}

/// Reads fields of the shapes `ks`, one after the other, from `pos`.
pub fn read_fields(ks: &Vec<FieldKind>, b: &[u8], pos: usize) -> (r: Result<
    (Vec<Field>, usize),
    DecodeError,
>)
    requires
        pos <= b@.len(),
    ensures
        fields_result_view(r) == parse_fields(ks@, b@, pos as int),
        r matches Ok((_, p)) ==> pos <= p <= b@.len(),
{
    let mut acc: Vec<Field> = Vec::new();
    let mut p = pos;
    let mut i: usize = 0;
    proof {
        assert(ks@.skip(0) =~= ks@);
        match parse_fields(ks@, b@, pos as int) {
            Ok((fs, _)) => {
                assert(fields_view(acc@) + fs =~= fs);
            },
            Err(_) => {},
        }
    }
    while i < ks.len()
        invariant
            i <= ks@.len(),
            pos <= p <= b@.len(),
            parse_fields(ks@, b@, pos as int) == prepend_fields(
                fields_view(acc@),
                parse_fields(ks@.skip(i as int), b@, p as int),
            ),
        decreases ks@.len() - i,
    {
        proof {
            assert(ks@.skip(i as int)[0] == ks@[i as int]);
            assert(ks@.skip(i as int).drop_first() =~= ks@.skip(i + 1));
        }
        match read_field(ks[i], b, p) {
            Err(e) => {
                return Err(e);
            },
            Ok((f, q)) => {
                proof {
                    let rest = parse_fields(ks@.skip(i + 1), b@, q as int);
                    assert(fields_view(acc@.push(f)) =~= fields_view(acc@).push(f@));
                    match rest {
                        Ok((fs, e)) => {
                            assert(fields_view(acc@) + (seq![f@] + fs) =~= fields_view(acc@).push(f@) + fs);
                        },
                        Err(_) => {},
                    }
                }
                acc.push(f);
                p = q;
            },
        }
        i = i + 1;
    }
    proof {
        assert(ks@.skip(i as int) =~= seq![]);
        assert(fields_view(acc@) + seq![] =~= fields_view(acc@));
    }
    Ok((acc, p))
}

/// Whether every field can be written: each string fits its byte count.
pub fn check_fields(fs: &Vec<Field>) -> (r: bool)
    ensures
        r == fields_wf(fields_view(fs@)),
{
    let mut i: usize = 0;
    while i < fs.len()
        invariant
            i <= fs@.len(),
            forall|j: int| 0 <= j < i ==> field_wf(#[trigger] fields_view(fs@)[j]),
        decreases fs@.len() - i,
    {
        let ok = match &fs[i] {
            FieldOf::StrBe(s) => s.as_str().as_bytes().len() <= 0xffff,
            FieldOf::StrLe(s) => s.as_str().as_bytes().len() <= 0xffff,
            FieldOf::Le24(v) => v.get() < 0x100_0000,
            _ => true,
        };
        if !ok {
            assert(!field_wf(fields_view(fs@)[i as int]));
            return false;
        }
        i = i + 1;
    }
    true
}

/// Fields read for the shapes `ks` have those shapes.
pub proof fn lemma_parse_fields_kinds(ks: Seq<FieldKind>, b: Seq<u8>, pos: int)
    ensures
        parse_fields(ks, b, pos) matches Ok((fs, _)) ==> kinds_of(fs) == ks,
    decreases ks.len(),
{
    if ks.len() == 0 {
        if let Ok((fs, _)) = parse_fields(ks, b, pos) {
            assert(kinds_of(fs) =~= ks);
        }
    } else {
        if let Ok((f, p)) = parse_field(ks[0], b, pos) {
            assert(kind_of(f) == ks[0]);
            lemma_parse_fields_kinds(ks.drop_first(), b, p);
            if let Ok((fs, _)) = parse_fields(ks.drop_first(), b, p) {
                let all = seq![f] + fs;
                assert(kinds_of(fs) == ks.drop_first());
                assert forall|i: int| 0 <= i < ks.len() implies kinds_of(all)[i] == ks[i] by {
                    if i > 0 {
                        assert(all[i] == fs[i - 1]);
                        assert(kinds_of(fs)[i - 1] == ks.drop_first()[i - 1]);
                    }
                }
                assert(kinds_of(all) =~= ks);
            }
        }
    }
}

/// Takes the last field off the list.
pub fn pop_field(fs: &mut Vec<Field>) -> (r: Field)
    requires
        old(fs)@.len() > 0,
    ensures
        final(fs)@ == old(fs)@.drop_last(),
        r == old(fs)@.last(),
{
    match fs.pop() {
        Some(f) => f,
        None => FieldOf::Byte(0),
    }
}

/// The value of a field known to be of that shape.
pub fn take_byte(f: Field) -> (r: u8)
    requires
        kind_of(f@) == FieldKind::Byte,
    ensures
        f@ == FieldOf::<Seq<char>>::Byte(r),
{
    match f {
        FieldOf::Byte(v) => v,
        _ => 0,
    }
}

/// The value of a field known to be of that shape.
pub fn take_signed_byte(f: Field) -> (r: i8)
    requires
        kind_of(f@) == FieldKind::SignedByte,
    ensures
        f@ == FieldOf::<Seq<char>>::SignedByte(r),
{
    match f {
        FieldOf::SignedByte(v) => v,
        _ => 0,
    }
}

/// The value of a field known to be of that shape.
pub fn take_be16(f: Field) -> (r: u16)
    requires
        kind_of(f@) == FieldKind::Be16,
    ensures
        f@ == FieldOf::<Seq<char>>::Be16(r),
{
    match f {
        FieldOf::Be16(v) => v,
        _ => 0,
    }
}

/// The value of a field known to be of that shape.
pub fn take_be32(f: Field) -> (r: u32)
    requires
        kind_of(f@) == FieldKind::Be32,
    ensures
        f@ == FieldOf::<Seq<char>>::Be32(r),
{
    match f {
        FieldOf::Be32(v) => v,
        _ => 0,
    }
}

/// The value of a field known to be of that shape.
pub fn take_signed_be32(f: Field) -> (r: i32)
    requires
        kind_of(f@) == FieldKind::SignedBe32,
    ensures
        f@ == FieldOf::<Seq<char>>::SignedBe32(r),
{
    match f {
        FieldOf::SignedBe32(v) => v,
        _ => 0,
    }
}

/// The value of a field known to be of that shape.
pub fn take_be64(f: Field) -> (r: u64)
    requires
        kind_of(f@) == FieldKind::Be64,
    ensures
        f@ == FieldOf::<Seq<char>>::Be64(r),
{
    match f {
        FieldOf::Be64(v) => v,
        _ => 0,
    }
}

/// The value of a field known to be of that shape.
pub fn take_text(f: Field) -> (r: String)
    requires
        kind_of(f@) == FieldKind::StrBe || kind_of(f@) == FieldKind::StrLe,
    ensures
        kind_of(f@) == FieldKind::StrBe ==> f@ == FieldOf::<Seq<char>>::StrBe(r@),
        kind_of(f@) == FieldKind::StrLe ==> f@ == FieldOf::<Seq<char>>::StrLe(r@),
{
    match f {
        FieldOf::StrBe(s) => s,
        FieldOf::StrLe(s) => s,
        _ => String::new(),
    }
}

/// The value of a field known to be of that shape.
pub fn take_le24(f: Field) -> (r: u24)
    requires
        kind_of(f@) == FieldKind::Le24,
    ensures
        f@ == FieldOf::<Seq<char>>::Le24(r),
{
    match f {
        FieldOf::Le24(v) => v,
        _ => u24::default(),
    }
}

/// The value of a field known to be of that shape.
pub fn take_flag(f: Field) -> (r: bool)
    requires
        kind_of(f@) == FieldKind::Flag,
    ensures
        f@ == FieldOf::<Seq<char>>::Flag(r),
{
    match f {
        FieldOf::Flag(v) => v,
        _ => false,
    }
}

} // verus!
