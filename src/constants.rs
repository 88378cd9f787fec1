use vstd::prelude::*;

verus! {

/// The fixed byte sequences of the protocol. Each stands in a packet as a
/// field without a value: it is written as its bytes and, when read, must be
/// found exactly.
#[derive(Clone, Copy, Debug, PartialEq, Eq)]
pub enum Constant {
    /// The offline-message marker that every unconnected handshake packet carries (16 bytes).
    Magic,
    /// A single zero byte (1 byte).
    NullByte,
    /// The cookie of the server handshake (4 bytes).
    HandshakeCookie,
    /// The flags byte of the server handshake (1 byte).
    HandshakeFlags,
    /// The opaque address block of the server handshake (70 bytes).
    HandshakeData,
    /// Two zero bytes ahead of the session of the server handshake (2 bytes).
    HandshakeDoubleNull,
    /// The trailer of the server handshake (8 bytes).
    HandshakeUnknown,
}

/// The bytes of each constant.
pub open spec fn constant_bytes(c: Constant) -> Seq<u8> {
    match c {
        Constant::Magic => seq![
            0x00, 0xff, 0xff, 0x00, 0xfe, 0xfe, 0xfe, 0xfe, 0xfd, 0xfd, 0xfd, 0xfd, 0x12, 0x34,
            0x56, 0x78,
        ],
        Constant::NullByte => seq![
            0x00,
        ],
        Constant::HandshakeCookie => seq![
            0x04, 0x3f, 0x57, 0xfe,
        ],
        Constant::HandshakeFlags => seq![
            0xcd,
        ],
        Constant::HandshakeData => seq![
            0x00, 0x00, 0x04, 0xf5, 0xff, 0xff, 0xf5, 0x00, 0x00, 0x04, 0xff, 0xff, 0xff, 0xff,
            0x00, 0x00, 0x04, 0xff, 0xff, 0xff, 0xff, 0x00, 0x00, 0x04, 0xff, 0xff, 0xff, 0xff,
            0x00, 0x00, 0x04, 0xff, 0xff, 0xff, 0xff, 0x00, 0x00, 0x04, 0xff, 0xff, 0xff, 0xff,
            0x00, 0x00, 0x04, 0xff, 0xff, 0xff, 0xff, 0x00, 0x00, 0x04, 0xff, 0xff, 0xff, 0xff,
            0x00, 0x00, 0x04, 0xff, 0xff, 0xff, 0xff, 0x00, 0x00, 0x04, 0xff, 0xff, 0xff, 0xff,
        ],
        Constant::HandshakeDoubleNull => seq![
            0x00, 0x00,
        ],
        Constant::HandshakeUnknown => seq![
            0x00, 0x00, 0x00, 0x00, 0x04, 0x44, 0x0b, 0xa9,
        ],
    }
}

/// The bytes of `c`.
pub fn constant_vec(c: Constant) -> (r: Vec<u8>)
    ensures
        r@ == constant_bytes(c),
{
    let r = match c {
        Constant::Magic => vec![
            0x00, 0xff, 0xff, 0x00, 0xfe, 0xfe, 0xfe, 0xfe, 0xfd, 0xfd, 0xfd, 0xfd, 0x12, 0x34,
            0x56, 0x78,
        ],
        Constant::NullByte => vec![
            0x00,
        ],
        Constant::HandshakeCookie => vec![
            0x04, 0x3f, 0x57, 0xfe,
        ],
        Constant::HandshakeFlags => vec![
            0xcd,
        ],
        Constant::HandshakeData => vec![
            0x00, 0x00, 0x04, 0xf5, 0xff, 0xff, 0xf5, 0x00, 0x00, 0x04, 0xff, 0xff, 0xff, 0xff,
            0x00, 0x00, 0x04, 0xff, 0xff, 0xff, 0xff, 0x00, 0x00, 0x04, 0xff, 0xff, 0xff, 0xff,
            0x00, 0x00, 0x04, 0xff, 0xff, 0xff, 0xff, 0x00, 0x00, 0x04, 0xff, 0xff, 0xff, 0xff,
            0x00, 0x00, 0x04, 0xff, 0xff, 0xff, 0xff, 0x00, 0x00, 0x04, 0xff, 0xff, 0xff, 0xff,
            0x00, 0x00, 0x04, 0xff, 0xff, 0xff, 0xff, 0x00, 0x00, 0x04, 0xff, 0xff, 0xff, 0xff,
        ],
        Constant::HandshakeDoubleNull => vec![
            0x00, 0x00,
        ],
        Constant::HandshakeUnknown => vec![
            0x00, 0x00, 0x00, 0x00, 0x04, 0x44, 0x0b, 0xa9,
        ],
    };
    assert(r@ =~= constant_bytes(c));
    r
}

/// The field that holds the offline-message marker that every unconnected handshake packet carries.
#[derive(Clone, Copy, Debug, PartialEq, Eq)]
pub struct Magic;

/// The field that holds a single zero byte.
#[derive(Clone, Copy, Debug, PartialEq, Eq)]
pub struct NullByte;

/// The field that holds the cookie of the server handshake.
#[derive(Clone, Copy, Debug, PartialEq, Eq)]
pub struct HandshakeCookie;

/// The field that holds the flags byte of the server handshake.
#[derive(Clone, Copy, Debug, PartialEq, Eq)]
pub struct HandshakeFlags;

/// The field that holds the opaque address block of the server handshake.
#[derive(Clone, Copy, Debug, PartialEq, Eq)]
pub struct HandshakeData;

/// The field that holds two zero bytes ahead of the session of the server handshake.
#[derive(Clone, Copy, Debug, PartialEq, Eq)]
pub struct HandshakeDoubleNull;

/// The field that holds the trailer of the server handshake.
#[derive(Clone, Copy, Debug, PartialEq, Eq)]
pub struct HandshakeUnknown;

} // verus!
