//! The repeater: it receives on both lines and sends what one line delivered
//! out on the other.
//!
//! Both receivers run at interrupt time and each leaves its last valid
//! message in its own single-slot mailbox; a newer message replaces an older
//! one that was not taken yet. The main loop sleeps until an interrupt,
//! empties both mailboxes at once and then sends what it took.
use vstd::prelude::*;

use crate::bus::{frame_gaps, lemma_bus_round_trip, nominal_ticks, run_edges, Bus};
use crate::codec::{decode_spec, encode_spec, frame_valid, lemma_round_trip};
use crate::frame::{deposit, lemma_checksum_bound, lemma_checksum_mod, well_formed, Message};
use crate::uart::{bytes_message, uart_bytes, Uart};

verus! {

/// What one pass of the main loop sends.
#[derive(Clone, Copy, Debug)]
pub struct Outgoing {
    /// Received on the line, to be sent on the serial port.
    pub to_uart: Option<Message>,
    /// Received on the serial port, to be sent on the line.
    pub to_bus: Option<Message>,
}

/// Both receivers of the repeater.
#[derive(Clone, Copy, Debug)]
pub struct Repeater {
    /// The line receiver.
    pub bus: Bus,
    /// The serial receiver.
    pub uart: Uart,
}

impl Repeater {
    /// Both receivers are well formed.
    pub open spec fn wf(&self) -> bool {
        self.bus.wf() && self.uart.wf()
    }

    /// A repeater with idle receivers and empty mailboxes.
    pub fn new() -> (r: Self)
        ensures
            r.wf(),
            r.bus.received_bits == 0,
            r.bus.num_received_bits == 0,
            r.bus.received_msg is None,
            r.uart.received_msg is None,
    {
        Repeater { bus: Bus::new(), uart: Uart::new() }
    }

    /// Empties both mailboxes and returns what each held, crosswise: the
    /// line's message goes to the serial port and the serial port's to the
    /// line. The frame being assembled on the line is left as it is.
    pub fn drain(&mut self) -> (r: Outgoing)
        requires
            old(self).wf(),
        ensures
            final(self).wf(),
            r.to_uart == old(self).bus.received_msg,
            r.to_bus == old(self).uart.received_msg,
            final(self).bus.received_msg is None,
            final(self).uart.received_msg is None,
            final(self).bus.received_bits == old(self).bus.received_bits,
            final(self).bus.num_received_bits == old(self).bus.num_received_bits,
    {
        let to_uart = self.bus.take();
        let to_bus = self.uart.take();
        Outgoing { to_uart, to_bus }
    }
}

/// Three serial bytes pass the frame check exactly when the serial receiver
/// keeps their message, and then it carries the decoded code and address.
pub proof fn lemma_uart_receives_decoded(b: Seq<u8>)
    requires
        b.len() == 3,
    ensures
        frame_valid(b) <==> deposit(None, bytes_message(b)) is Some,
        frame_valid(b) ==> decode_spec(b) == Some(
            crate::codec::Message { code: bytes_message(b).code, address: bytes_message(b).addr },
        ),
{
    let b0 = b[0];
    let b1 = b[1];
    let b2 = b[2];
    assert((((b0 >> 6u8) | ((b1 << 2u8) as u8)) & 0x3f) as u8 <= 63) by (bit_vector);
    assert((b2 >> 4u8) as u8 <= 15) by (bit_vector);
    lemma_checksum_mod(bytes_message(b));
}

/// Two valid frames received on the serial port before the mailbox is
/// emptied leave only the second one's message in it.
pub proof fn lemma_mailbox_overwrite(u: Uart, b1: Seq<u8>, b2: Seq<u8>)
    requires
        b1.len() == 3,
        b2.len() == 3,
        frame_valid(b1),
        frame_valid(b2),
    ensures
        deposit(deposit(u.received_msg, bytes_message(b1)), bytes_message(b2)) == Some(
            bytes_message(b2),
        ),
{
    lemma_uart_receives_decoded(b1);
    lemma_uart_receives_decoded(b2);
}

/// What the repeater takes from one line it sends on the other with the same
/// code and address: a message from the line goes out as serial bytes that
/// decode to it, and a message from the serial port goes out as gaps that a
/// line receiver turns back into it.
pub proof fn lemma_bridge_forwards(r: Repeater, rx: Bus)
    requires
        r.wf(),
        rx.wf(),
    ensures
        r.bus.received_msg matches Some(m) ==> decode_spec(uart_bytes(m)) == Some(
            crate::codec::Message { code: m.code, address: m.addr },
        ),
        r.uart.received_msg matches Some(m) ==> run_edges(
            rx,
            nominal_ticks(frame_gaps(m)),
        ).received_msg == Some(m),
{
    if let Some(m) = r.bus.received_msg {
        lemma_checksum_bound(m);
        lemma_checksum_mod(m);
        assert(uart_bytes(m) =~= encode_spec(m.code, m.addr));
        lemma_round_trip(crate::codec::Message { code: m.code, address: m.addr });
    }
    if let Some(m) = r.uart.received_msg {
        lemma_bus_round_trip(rx, m);
    }
}

} // verus!
