//! The serial side of the repeater: 4800 baud, eight data bits, no parity,
//! one stop bit, the line driven by hand. A frame is its three bytes sent back
//! to back.
use vstd::prelude::*;

use crate::codec::{address_bits, checksum_bits, code_bits};
use crate::frame::{deposit, well_formed, Message};

verus! {

/// Length of one bit at 4800 baud, in microseconds.
pub const BIT_US: u8 = 208;

/// Time each data bit is held by the transmitter, in microseconds.
///
/// Shorter than [`BIT_US`] to make up for the instructions that the
/// transmit loop runs between bits; it depends on the clock of the target.
pub const TX_DATA_BIT_US: u8 = 190;

/// Time between two samples of the receiver, in microseconds.
pub const RX_DATA_BIT_US: u8 = 200;

/// Wait after the falling edge of a start bit before the line is checked,
/// in microseconds, so that the edge itself is not sampled.
pub const START_BIT_SAMPLE_US: u8 = 70;

/// Levels of the line for one byte, one per bit time: the low start bit,
/// the data bits from the least significant, the high stop bit.
pub open spec fn byte_levels(byte: u8) -> Seq<bool> {
    seq![false] + Seq::new(8, |j: int| (byte >> (j as u8)) & 1 == 1) + seq![true]
}

/// The line levels that send `byte`.
pub fn tx_levels(byte: u8) -> (r: Vec<bool>)
    ensures
        r@ == byte_levels(byte),
{
    let mut levels: Vec<bool> = Vec::new();
    levels.push(false);
    let mut i: u8 = 0;
    while i < 8
        invariant
            i <= 8,
            levels@ == seq![false] + Seq::new(i as nat, |j: int| (byte >> (j as u8)) & 1 == 1),
        decreases 8 - i,
    {
        levels.push((byte >> i) & 1 == 1);
        i = i + 1;
        assert(levels@ =~= seq![false] + Seq::new(i as nat, |j: int| (byte >> (j as u8)) & 1 == 1));
    }
    levels.push(true);
    assert(levels@ =~= byte_levels(byte));
    levels
}

proof fn lemma_set_bit(x: u8, i: u8, j: u8)
    by (bit_vector)
    requires
        i < 8,
        j < 8,
    ensures
        ((x | (1u8 << i)) >> j) & 1 == (if j == i {
            1
        } else {
            (x >> j) & 1
        }),
{
}

/// The byte whose data bits were sampled, the first sample being bit 0.
pub fn rx_byte(samples: &[bool; 8]) -> (r: u8)
    ensures
        forall|j: int| 0 <= j < 8 ==> ((r >> (j as u8)) & 1 == 1) == samples@[j],
{
    let mut result: u8 = 0;
    let mut i: u8 = 0;
    assert(forall|j: u8| (0u8 >> j) & 1 == 0) by (bit_vector);
    while i < 8
        invariant
            i <= 8,
            forall|j: u8| j < i ==> ((result >> j) & 1 == 1) == samples@[j as int],
            forall|j: u8| i <= j < 8 ==> (result >> j) & 1 == 0,
        decreases 8 - i,
    {
        let old_result = result;
        let bit = samples[i as usize];
        result = if bit {
            result | (1u8 << i)
        } else {
            result
        };
        assert forall|j: u8| j < i + 1 implies ((result >> j) & 1 == 1) == samples@[j as int] by {
            if bit {
                lemma_set_bit(old_result, i, j);
            }
        }
        assert forall|j: u8| i + 1 <= j < 8 implies (result >> j) & 1 == 0 by {
            if bit {
                lemma_set_bit(old_result, i, j);
            }
        }
        i = i + 1;
    }
    assert forall|j: int| 0 <= j < 8 implies ((result >> (j as u8)) & 1 == 1) == samples@[j] by {
        assert((j as u8) < i);
    }
    result
}

/// The bytes that carry a message on the serial line.
pub open spec fn uart_bytes(m: Message) -> Seq<u8> {
    seq![
        (m.code << 6u8) as u8,
        ((m.addr << 4u8) as u8 | ((m.code >> 2u8) & 0x0f)) as u8,
        ((m.checksum << 4u8) as u8 | (m.addr >> 4u8)) as u8,
    ]
}

/// The three bytes that send `m`.
pub fn uart_frame(m: &Message) -> (r: [u8; 3])
    ensures
        r@ == uart_bytes(*m),
{
    [m.code << 6, (m.addr << 4) | ((m.code >> 2) & 0x0f), (m.checksum << 4) | (m.addr >> 4)]
}

/// The message read from three received bytes, whether or not its checksum
/// matches.
pub open spec fn bytes_message(b: Seq<u8>) -> Message {
    Message {
        addr: address_bits(b[1], b[2]),
        code: code_bits(b[0], b[1]),
        checksum: checksum_bits(b[2]),
    }
}

/// Receiving side of the serial line: its mailbox.
#[derive(Clone, Copy, Debug)]
pub struct Uart {
    /// The last valid message received and not taken yet.
    pub received_msg: Option<Message>,
}

impl Uart {
    /// Only well-formed messages reach the mailbox.
    pub open spec fn wf(&self) -> bool {
        self.received_msg matches Some(m) ==> well_formed(m)
    }

    /// A receiver with an empty mailbox.
    pub fn new() -> (r: Self)
        ensures
            r.wf(),
            r.received_msg is None,
    {
        Uart { received_msg: None }
    }

    /// Handles the three bytes of a frame: a message whose checksum matches
    /// replaces the mailbox's content; any other is dropped.
    pub fn receive_frame(&mut self, b: &[u8; 3])
        requires
            old(self).wf(),
        ensures
            final(self).wf(),
            final(self).received_msg == deposit(old(self).received_msg, bytes_message(b@)),
    {
        let addr: u8 = (b[1] >> 4) | (b[2] << 4);
        let code: u8 = ((b[0] >> 6) | (b[1] << 2)) & 0x3f;
        let checksum: u8 = b[2] >> 4;
        proof {
            let b0 = b[0];
            let b1 = b[1];
            assert((((b0 >> 6u8) | ((b1 << 2u8) as u8)) & 0x3f) as u8 <= 63) by (bit_vector);
        }
        if let Some(m) = Message::new(addr, code, checksum).validate() {
            self.received_msg = Some(m);
        }
    }

    /// Takes the message out of the mailbox, leaving it empty.
    pub fn take(&mut self) -> (r: Option<Message>)
        ensures
            r == old(self).received_msg,
            final(self).received_msg is None,
    {
        self.received_msg.take()
    }
}

} // verus!
