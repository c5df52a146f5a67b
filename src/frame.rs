//! A message as the repeater carries it between its two lines: code, address
//! and the checksum that came with them.
use vstd::prelude::*;

use crate::codec::{checksum_of, ones, popcount};

verus! {

/// Code, address and checksum of one frame.
#[derive(Clone, Copy, Debug, PartialEq, Eq, Structural)]
pub struct Message {
    /// Intercom address.
    pub addr: u8,
    /// Operation identifier.
    pub code: u8,
    /// Number of set bits of `code` and `addr`, as received.
    pub checksum: u8,
}

/// The checksum of the message counts the set bits of its code and address.
pub open spec fn checksum_matches(m: Message) -> bool {
    ones(m.addr) + ones(m.code) == m.checksum as int
}

/// A message that a decoder may hand on: a six-bit code and a matching checksum.
pub open spec fn well_formed(m: Message) -> bool {
    m.code < 64 && checksum_matches(m)
}

/// The mailbox after a frame arrives: the message replaces what was there
/// when its checksum matches, and is dropped otherwise.
pub open spec fn deposit(mailbox: Option<Message>, m: Message) -> Option<Message> {
    if checksum_matches(m) {
        Some(m)
    } else {
        mailbox
    }
}

impl Message {
    /// A message from its three fields.
    pub fn new(addr: u8, code: u8, checksum: u8) -> (r: Self)
        ensures
            r == (Message { addr, code, checksum }),
    {
        Self { addr, code, checksum }
    }

    /// The message itself when its checksum matches, else `None`.
    pub fn validate(self) -> (r: Option<Self>)
        ensures
            r == (if checksum_matches(self) {
                Some(self)
            } else {
                None
            }),
    {
        if popcount(self.addr) + popcount(self.code) == self.checksum {
            Some(self)
        } else {
            None
        }
    }
}

/// For a six-bit code and a four-bit checksum, an exact count and a count
/// modulo 16 agree.
pub proof fn lemma_checksum_mod(m: Message)
    requires
        m.code < 64,
        m.checksum < 16,
    ensures
        checksum_matches(m) <==> m.checksum == checksum_of(m.code, m.addr),
{
    let c = m.code;
    let a = m.addr;
    assert(ones(c) <= 6 && ones(a) <= 8) by (bit_vector)
        requires
            c < 64,
    ;
}

/// A well-formed message has a checksum below 16.
pub proof fn lemma_checksum_bound(m: Message)
    requires
        well_formed(m),
    ensures
        m.checksum < 16,
{
    let c = m.code;
    let a = m.addr;
    assert(ones(c) <= 6 && ones(a) <= 8) by (bit_vector)
        requires
            c < 64,
    ;
}

} // verus!
