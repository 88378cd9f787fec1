use vstd::prelude::*;

verus! {

/// The value of three bytes read most significant first.
pub open spec fn be24_value(b: Seq<u8>) -> nat {
    (b[0] as nat) * 65536 + (b[1] as nat) * 256 + (b[2] as nat)
}

/// The value of three bytes read least significant first.
pub open spec fn le24_value(b: Seq<u8>) -> nat {
    (b[2] as nat) * 65536 + (b[1] as nat) * 256 + (b[0] as nat)
}

/// The three bytes of `v`, most significant first.
pub open spec fn be24_bytes(v: nat) -> Seq<u8> {
    seq![(v / 65536 % 256) as u8, (v / 256 % 256) as u8, (v % 256) as u8]
}

/// The three bytes of `v`, least significant first.
pub open spec fn le24_bytes(v: nat) -> Seq<u8> {
    seq![(v % 256) as u8, (v / 256 % 256) as u8, (v / 65536 % 256) as u8]
}

/// `v` with its three bytes in the opposite order.
pub open spec fn swap24(v: nat) -> nat {
    le24_value(be24_bytes(v))
}

/// A 24-bit unsigned integer, held in the low three bytes of a `u32`; the
/// fourth byte is always zero and never reaches the byte encodings.
#[allow(non_camel_case_types)]
#[derive(Clone, Copy, Debug, PartialEq, Eq)]
pub struct u24(u32);

impl u24 {
    #[verifier::type_invariant]
    spec fn padding_is_zero(self) -> bool {
        self.0 < 0x100_0000
    }

    /// The number this value stands for.
    pub closed spec fn value(self) -> nat {
        self.0 as nat
    }

    /// The value standing for `v`.
    pub closed spec fn spec_new(v: u32) -> u24 {
        u24(v)
    }

    /// Two 24-bit values are equal exactly when their numbers are.
    pub proof fn lemma_spec_new(x: u24, v: u32)
        ensures
            (x == u24::spec_new(v)) <==> (x.value() == v),
    {
    }

    pub(crate) fn from_value(v: u32) -> (r: u24)
        requires
            v < 0x100_0000,
        ensures
            r.value() == v,
    {
        u24(v)
    }

    /// The number as a `u32`.
    pub fn get(self) -> (r: u32)
        ensures
            r == self.value(),
            r < 0x100_0000,
    {
        proof {
            use_type_invariant(self);
        }
        self.0
    }

    /// Turns a value held in big-endian byte order into the usual order.
    pub fn from_be(x: Self) -> (r: Self)
        ensures
            r.value() == swap24(x.value()),
    {
        x.to_be()
    }

    /// Reverses the byte order, for a value that is to be held big-endian.
    pub fn to_be(self) -> (r: Self)
        ensures
            r.value() == swap24(self.value()),
    {
        proof {
            use_type_invariant(self);
        }
        let v = self.0;
        let r = (v % 256) * 65536 + (v / 256 % 256) * 256 + v / 65536 % 256;
        u24::from_value(r)
    }

    /// Turns a value held in little-endian byte order into the usual order,
    /// which is the same.
    pub fn from_le(x: Self) -> (r: Self)
        ensures
            r == x,
    {
        x
    }

    /// The value held in little-endian byte order, which is the usual order.
    pub fn to_le(self) -> (r: Self)
        ensures
            r == self,
    {
        self
    }

    /// Reads three bytes, most significant first.
    pub fn from_be_bytes(bytes: [u8; 3]) -> (r: Self)
        ensures
            r.value() == be24_value(bytes@),
    {
        let v: u32 = (bytes[0] as u32) * 65536 + (bytes[1] as u32) * 256 + (bytes[2] as u32);
        u24::from_value(v)
    }

    /// The three bytes, most significant first.
    pub fn to_be_bytes(self) -> (r: [u8; 3])
        ensures
            r@ == be24_bytes(self.value()),
    {
        let v = self.get();
        let r = [(v / 65536 % 256) as u8, (v / 256 % 256) as u8, (v % 256) as u8];
        assert(r@ =~= be24_bytes(self.value()));
        r
    }

    /// Reads three bytes, least significant first.
    pub fn from_le_bytes(bytes: [u8; 3]) -> (r: Self)
        ensures
            r.value() == le24_value(bytes@),
    {
        let v: u32 = (bytes[2] as u32) * 65536 + (bytes[1] as u32) * 256 + (bytes[0] as u32);
        u24::from_value(v)
    }

    /// The three bytes, least significant first.
    pub fn to_le_bytes(self) -> (r: [u8; 3])
        ensures
            r@ == le24_bytes(self.value()),
    {
        let v = self.get();
        let r = [(v % 256) as u8, (v / 256 % 256) as u8, (v / 65536 % 256) as u8];
        assert(r@ =~= le24_bytes(self.value()));
        r
    }
}

impl Default for u24 {
    fn default() -> (r: Self)
        ensures
            r.value() == 0,
    {
        u24(0)
    }
}

/// Reading three bytes big-endian and writing the value back gives the same
/// three bytes, and likewise little-endian.
pub proof fn lemma_bytes_round_trip(b: Seq<u8>)
    requires
        b.len() == 3,
    ensures
        be24_bytes(be24_value(b)) == b,
        le24_bytes(le24_value(b)) == b,
{
    let (b0, b1, b2) = (b[0] as nat, b[1] as nat, b[2] as nat);
    assert(b0 * 65536 + b1 * 256 + b2 == b0 * 65536 + b1 * 256 + b2);
    assert({
        let v = b0 * 65536 + b1 * 256 + b2;
        &&& v / 65536 % 256 == b0
        &&& v / 256 % 256 == b1
        &&& v % 256 == b2
    }) by (nonlinear_arith)
        requires
            b0 < 256,
            b1 < 256,
            b2 < 256,
    ;
    assert({
        let v = b2 * 65536 + b1 * 256 + b0;
        &&& v / 65536 % 256 == b2
        &&& v / 256 % 256 == b1
        &&& v % 256 == b0
    }) by (nonlinear_arith)
        requires
            b0 < 256,
            b1 < 256,
            b2 < 256,
    ;
    assert(be24_bytes(be24_value(b)) =~= b);
    assert(le24_bytes(le24_value(b)) =~= b);
}

/// Writing a value as three bytes and reading them back gives the value, in
/// either byte order.
pub proof fn lemma_value_round_trip(v: nat)
    requires
        v < 0x100_0000,
    ensures
        be24_value(be24_bytes(v)) == v,
        le24_value(le24_bytes(v)) == v,
{
}

} // verus!
