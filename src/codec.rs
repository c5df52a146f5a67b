//! The three-byte SimpleBus2 wire frame.
//!
//! ```text
//! byte0: [code1 code0 0 0 0 0 0 0]
//! byte1: [addr3 addr2 addr1 addr0 code5 code4 code3 code2]
//! byte2: [chk3 chk2 chk1 chk0 addr7 addr6 addr5 addr4]
//! ```
//!
//! The checksum is the number of set bits of code and address, modulo 16.
use vstd::prelude::*;

verus! {

/// Code of a request to open the door.
pub const OPEN_DOOR: u8 = 16;

/// Code that turns the door camera on.
pub const CAMERA_ON: u8 = 20;

/// Code of a call from the door of the floor.
pub const CALL_FLOOR_DOOR: u8 = 21;

/// Code of a call from the entry door.
pub const CALL: u8 = 48;

/// Code that ends a call.
pub const CALL_END: u8 = 50;

/// Number of set bits of a byte.
pub open spec fn ones(x: u8) -> int {
    (x & 1) as int + ((x >> 1) & 1) as int + ((x >> 2) & 1) as int + ((x >> 3) & 1) as int
        + ((x >> 4) & 1) as int + ((x >> 5) & 1) as int + ((x >> 6) & 1) as int + ((x >> 7)
        & 1) as int
}

/// The four-bit checksum carried by a frame for `code` and `address`.
pub open spec fn checksum_of(code: u8, address: u8) -> u8 {
    ((ones(code) + ones(address)) % 16) as u8
}

/// The wire bytes of a message.
pub open spec fn encode_spec(code: u8, address: u8) -> Seq<u8> {
    seq![
        (code << 6u8) as u8,
        ((address << 4u8) as u8 | ((code >> 2u8) & 0x0f)) as u8,
        (((checksum_of(code, address) << 4u8) as u8) | (address >> 4u8)) as u8,
    ]
}

/// The six-bit code carried by the first two bytes of a frame.
pub open spec fn code_bits(b0: u8, b1: u8) -> u8 {
    (((b0 >> 6u8) | ((b1 << 2u8) as u8)) & 0x3f) as u8
}

/// The address carried by the last two bytes of a frame.
pub open spec fn address_bits(b1: u8, b2: u8) -> u8 {
    ((b1 >> 4u8) | ((b2 << 4u8) as u8)) as u8
}

/// The checksum carried by the last byte of a frame.
pub open spec fn checksum_bits(b2: u8) -> u8 {
    (b2 >> 4u8) as u8
}

/// The bytes are a frame whose checksum matches its code and address.
pub open spec fn valid_bytes(b0: u8, b1: u8, b2: u8) -> bool {
    checksum_bits(b2) == checksum_of(code_bits(b0, b1), address_bits(b1, b2))
}

/// The address field of a frame.
pub open spec fn frame_address(b: Seq<u8>) -> u8 {
    address_bits(b[1], b[2])
}

/// The six-bit code field of a frame.
pub open spec fn frame_code(b: Seq<u8>) -> u8 {
    code_bits(b[0], b[1])
}

/// The checksum field of a frame.
pub open spec fn frame_checksum(b: Seq<u8>) -> u8 {
    checksum_bits(b[2])
}

/// A frame is valid when its checksum field matches its code and address.
pub open spec fn frame_valid(b: Seq<u8>) -> bool {
    frame_checksum(b) == checksum_of(frame_code(b), frame_address(b))
}

/// What decoding a frame yields: its message when the checksum matches.
pub open spec fn decode_spec(b: Seq<u8>) -> Option<Message> {
    if frame_valid(b) {
        Some(Message { code: frame_code(b), address: frame_address(b) })
    } else {
        None
    }
}

/// Number of set bits of a byte.
pub fn popcount(x: u8) -> (r: u8)
    ensures
        r as int == ones(x),
        r <= 8,
{
    proof {
        assert((x & 1) <= 1 && ((x >> 1) & 1) <= 1 && ((x >> 2) & 1) <= 1 && ((x >> 3) & 1) <= 1
            && ((x >> 4) & 1) <= 1 && ((x >> 5) & 1) <= 1 && ((x >> 6) & 1) <= 1 && ((x >> 7)
            & 1) <= 1) by (bit_vector);
    }
    let r: u8 = (x & 1) + ((x >> 1) & 1) + ((x >> 2) & 1) + ((x >> 3) & 1) + ((x >> 4) & 1) + ((
    x >> 5) & 1) + ((x >> 6) & 1) + ((x >> 7) & 1);
    r
}

/// The checksum of `code` and `address`.
pub fn checksum(code: u8, address: u8) -> (r: u8)
    ensures
        r == checksum_of(code, address),
        r < 16,
{
    (popcount(code) + popcount(address)) % 16
}

/// A decoded SimpleBus2 message.
#[derive(Clone, Copy, Debug, PartialEq, Eq, Structural)]
pub struct Message {
    /// Operation identifier, six bits on the wire.
    pub code: u8,
    /// Intercom address: the source or the target, depending on the code.
    pub address: u8,
}

impl Message {
    /// Decodes a frame; `None` when its checksum does not match.
    pub fn from_raw_bytes(b: &[u8; 3]) -> (r: Option<Self>)
        ensures
            r == decode_spec(b@),
    {
        let address: u8 = (b[1] >> 4) | (b[2] << 4);
        let code: u8 = ((b[0] >> 6) | (b[1] << 2)) & 0x3f;
        let chk: u8 = b[2] >> 4;
        if checksum(code, address) == chk {
            Some(Message { code, address })
        } else {
            None
        }
    }

    /// Encodes the message into `b`.
    pub fn into_raw_bytes(&self, b: &mut [u8; 3])
        ensures
            final(b)@ == encode_spec(self.code, self.address),
    {
        let chk = checksum(self.code, self.address);
        *b = [self.code << 6, (self.address << 4) | ((self.code >> 2) & 0x0f), (chk << 4) | (
        self.address >> 4)];
    }
}

/// Decoding the encoding of a message with a six-bit code gives the message back.
pub proof fn lemma_round_trip(m: Message)
    requires
        m.code < 64,
    ensures
        decode_spec(encode_spec(m.code, m.address)) == Some(m),
{
    let c = m.code;
    let a = m.address;
    let k = checksum_of(c, a);
    assert(k < 16);
    let b0 = (c << 6u8) as u8;
    let b1 = ((a << 4u8) as u8 | ((c >> 2u8) & 0x0f)) as u8;
    let b2 = (((k << 4u8) as u8) | (a >> 4u8)) as u8;
    assert((((b1 >> 4u8) | ((b2 << 4u8) as u8)) as u8) == a) by (bit_vector)
        requires
            b1 == ((a << 4u8) as u8 | ((c >> 2u8) & 0x0f)) as u8,
            b2 == (((k << 4u8) as u8) | (a >> 4u8)) as u8,
    ;
    assert(((((b0 >> 6u8) | ((b1 << 2u8) as u8)) & 0x3f) as u8) == c) by (bit_vector)
        requires
            c < 64,
            b0 == (c << 6u8) as u8,
            b1 == ((a << 4u8) as u8 | ((c >> 2u8) & 0x0f)) as u8,
    ;
    assert((b2 >> 4u8) as u8 == k) by (bit_vector)
        requires
            k < 16,
            b2 == (((k << 4u8) as u8) | (a >> 4u8)) as u8,
    ;
    assert(encode_spec(c, a) =~= seq![b0, b1, b2]);
}

proof fn lemma_flip_first(b0: u8, b1: u8, b2: u8, k: u8)
    by (bit_vector)
    requires
        k < 8,
        valid_bytes(b0, b1, b2),
    ensures
        k < 6 ==> code_bits(b0 ^ (1u8 << k), b1) == code_bits(b0, b1),
        k >= 6 ==> !valid_bytes(b0 ^ (1u8 << k), b1, b2),
{
}

proof fn lemma_flip_second(b0: u8, b1: u8, b2: u8, k: u8)
    by (bit_vector)
    requires
        k < 8,
        valid_bytes(b0, b1, b2),
    ensures
        !valid_bytes(b0, b1 ^ (1u8 << k), b2),
{
}

proof fn lemma_flip_third(b0: u8, b1: u8, b2: u8, k: u8)
    by (bit_vector)
    requires
        k < 8,
        valid_bytes(b0, b1, b2),
    ensures
        !valid_bytes(b0, b1, b2 ^ (1u8 << k)),
{
}

/// Flipping one bit of a valid frame makes it fail to decode, unless the bit
/// is one of the six low bits of the first byte, which carry nothing: then the
/// frame decodes to the same message.
pub proof fn lemma_single_bit_flip(b: Seq<u8>, i: int, k: u8)
    requires
        b.len() == 3,
        frame_valid(b),
        0 <= i < 3,
        k < 8,
    ensures
        i == 0 && k < 6 ==> decode_spec(b.update(i, b[i] ^ (1u8 << k))) == decode_spec(b),
        !(i == 0 && k < 6) ==> decode_spec(b.update(i, b[i] ^ (1u8 << k))) is None,
{
    let f = b.update(i, b[i] ^ (1u8 << k));
    if i == 0 {
        lemma_flip_first(b[0], b[1], b[2], k);
    } else if i == 1 {
        lemma_flip_second(b[0], b[1], b[2], k);
    } else {
        lemma_flip_third(b[0], b[1], b[2], k);
    }
    assert(f[0] == if i == 0 { b[0] ^ (1u8 << k) } else { b[0] });
    assert(f[1] == if i == 1 { b[1] ^ (1u8 << k) } else { b[1] });
    assert(f[2] == if i == 2 { b[2] ^ (1u8 << k) } else { b[2] });
}

} // verus!
