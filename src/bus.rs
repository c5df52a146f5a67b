//! The SimpleBus2 line: a message is a train of bursts, and each bit is the
//! length of the quiet gap before a burst.
//!
//! A frame is a preamble (burst, 17 ms gap, burst) followed by eighteen data
//! bits, least significant first: six of the code, eight of the address and
//! four of the checksum. A gap of 3 ms is a zero, one of 6 ms a one.
//!
//! The receiver is told, at every edge on the line, how many timer ticks
//! (256 µs each) passed since the previous edge.
use vstd::prelude::*;

use crate::frame::{deposit, well_formed, Message};

verus! {

/// Quiet time after the first burst of the preamble, in milliseconds.
pub const PREAMBLE_GAP_MS: u8 = 17;

/// Quiet time before the burst of a zero bit, in milliseconds.
pub const ZERO_GAP_MS: u8 = 3;

/// Quiet time before the burst of a one bit, in milliseconds.
pub const ONE_GAP_MS: u8 = 6;

/// Pin toggles in one burst (about 3 ms at 25 kHz).
pub const BURST_TOGGLES: u8 = 75;

/// Time the pin is held high in each toggle of a burst, in microseconds.
///
/// A 25 kHz square wave asks for 40 µs; the delay routine of the target
/// runs short at such small values, so 45 µs is used.
pub const BURST_HIGH_US: u8 = 45;

/// Length of one tick of the receiver's timer, in microseconds.
pub const TICK_US: u16 = 256;

/// Data bits in a frame.
pub const FRAME_BITS: u8 = 18;

/// What the time since the previous edge says.
#[derive(Clone, Copy, Debug, PartialEq, Eq, Structural)]
pub enum Symbol {
    /// About 3 ms: a zero bit.
    Zero,
    /// About 6 ms: a one bit.
    One,
    /// About 17 ms: the start of a frame.
    Preamble,
    /// Anything else.
    Noise,
}

/// The symbol for `ticks` timer ticks of 256 µs.
pub open spec fn classify_spec(ticks: u8) -> Symbol {
    if 8 <= ticks <= 14 {
        Symbol::Zero
    } else if 19 <= ticks <= 26 {
        Symbol::One
    } else if 62 <= ticks <= 70 {
        Symbol::Preamble
    } else {
        Symbol::Noise
    }
}

/// Classifies the time since the previous edge.
pub fn classify(ticks: u8) -> (r: Symbol)
    ensures
        r == classify_spec(ticks),
{
    if 8 <= ticks && ticks <= 14 {
        Symbol::Zero
    } else if 19 <= ticks && ticks <= 26 {
        Symbol::One
    } else if 62 <= ticks && ticks <= 70 {
        Symbol::Preamble
    } else {
        Symbol::Noise
    }
}

/// The shift register after one more bit: it enters at bit 17 and the older
/// bits move one place down.
pub open spec fn shift_in(bits: u32, one: bool) -> u32 {
    ((if one {
        bits | 0x4_0000u32
    } else {
        bits
    }) >> 1u32) as u32
}

/// The message held by a full shift register: the first bit received is bit 0.
pub open spec fn register_message(bits: u32) -> Message {
    Message {
        addr: ((bits >> 6u32) & 0xffu32) as u8,
        code: (bits & 0x3fu32) as u8,
        checksum: (bits >> 14u32) as u8,
    }
}

/// Receiving side of the line: the frame being assembled and the mailbox.
#[derive(Clone, Copy, Debug)]
pub struct Bus {
    /// Bits received since the last preamble, the latest at bit 17.
    pub received_bits: u32,
    /// How many bits of the current frame have arrived.
    pub num_received_bits: u8,
    /// The last complete and valid message that was not taken yet.
    pub received_msg: Option<Message>,
}

/// The receiver after an edge that came `ticks` ticks after the previous one.
pub open spec fn on_edge_spec(bus: Bus, ticks: u8) -> Bus {
    let (bits, n) = match classify_spec(ticks) {
        Symbol::Zero => (shift_in(bus.received_bits, false), bus.num_received_bits + 1),
        Symbol::One => (shift_in(bus.received_bits, true), bus.num_received_bits + 1),
        Symbol::Preamble => (0u32, 0int),
        Symbol::Noise => (bus.received_bits, bus.num_received_bits as int),
    };
    if n == FRAME_BITS {
        Bus {
            received_bits: bits,
            num_received_bits: 0,
            received_msg: deposit(bus.received_msg, register_message(bits)),
        }
    } else {
        Bus { received_bits: bits, num_received_bits: n as u8, received_msg: bus.received_msg }
    }
}

impl Bus {
    /// The receiver holds a partial frame of fewer than eighteen bits, all
    /// within the register.
    pub open spec fn wf(&self) -> bool {
        &&& self.num_received_bits < FRAME_BITS
        &&& self.received_bits < 0x4_0000
        &&& self.received_msg matches Some(m) ==> well_formed(m)
    }

    /// An idle receiver with an empty mailbox.
    pub fn new() -> (r: Self)
        ensures
            r.wf(),
            r.received_bits == 0,
            r.num_received_bits == 0,
            r.received_msg is None,
    {
        Bus { received_bits: 0, num_received_bits: 0, received_msg: None }
    }

    /// Handles an edge on the line, `ticks` timer ticks after the previous one.
    pub fn on_edge(&mut self, ticks: u8)
        requires
            old(self).wf(),
        ensures
            final(self).wf(),
            *final(self) == on_edge_spec(*old(self), ticks),
    {
        proof {
            let b = self.received_bits;
            assert(b < 0x4_0000u32 ==> (b >> 1u32) < 0x4_0000u32 && ((b | 0x4_0000u32) >> 1u32)
                < 0x4_0000u32) by (bit_vector);
            assert(forall|x: u32| ((x & 0x3fu32) as u8) < 64) by (bit_vector);
        }
        match classify(ticks) {
            Symbol::Zero => {
                self.received_bits = self.received_bits >> 1;
                self.num_received_bits = self.num_received_bits + 1;
            },
            Symbol::One => {
                self.received_bits = (self.received_bits | 0x4_0000) >> 1;
                self.num_received_bits = self.num_received_bits + 1;
            },
            Symbol::Preamble => {
                self.received_bits = 0;
                self.num_received_bits = 0;
            },
            Symbol::Noise => {},
        }
        if self.num_received_bits == FRAME_BITS {
            let bits = self.received_bits;
            let addr = ((bits >> 6) & 0xff) as u8;
            let code = (bits & 0x3f) as u8;
            let checksum = (bits >> 14) as u8;
            let m = Message::new(addr, code, checksum);
            if let Some(valid) = m.validate() {
                self.received_msg = Some(valid);
            }
            self.num_received_bits = 0;
        }
    }

    /// Takes the message out of the mailbox, leaving it empty.
    pub fn take(&mut self) -> (r: Option<Message>)
        ensures
            r == old(self).received_msg,
            final(self).received_msg is None,
            final(self).received_bits == old(self).received_bits,
            final(self).num_received_bits == old(self).num_received_bits,
    {
        self.received_msg.take()
    }
}

/// Data bit `j` of a frame, in the order of transmission.
pub open spec fn frame_bit(m: Message, j: int) -> bool {
    if j < 6 {
        (m.code >> (j as u8)) & 1 == 1
    } else if j < 14 {
        (m.addr >> ((j - 6) as u8)) & 1 == 1
    } else {
        (m.checksum >> ((j - 14) as u8)) & 1 == 1
    }
}

/// The gap that carries a bit.
pub open spec fn gap_ms(one: bool) -> u8 {
    if one {
        ONE_GAP_MS
    } else {
        ZERO_GAP_MS
    }
}

/// The gaps of a whole frame: the preamble's, then one per data bit.
pub open spec fn frame_gaps(m: Message) -> Seq<u8> {
    seq![PREAMBLE_GAP_MS] + Seq::new(FRAME_BITS as nat, |j: int| gap_ms(frame_bit(m, j)))
}

/// The gaps for the `count` low bits of `value`, lowest first.
pub open spec fn value_gaps(value: u8, count: nat) -> Seq<u8> {
    Seq::new(count, |j: int| gap_ms((value >> (j as u8)) & 1 == 1))
}

/// Appends the gaps for the `count` low bits of `value`, lowest first.
fn push_gaps(gaps: &mut Vec<u8>, value: u8, count: u8)
    requires
        count <= 8,
    ensures
        final(gaps)@ == old(gaps)@ + value_gaps(value, count as nat),
{
    let ghost start = gaps@;
    let mut i: u8 = 0;
    while i < count
        invariant
            i <= count <= 8,
            gaps@ == start + value_gaps(value, i as nat),
        decreases count - i,
    {
        if (value >> i) & 1 == 1 {
            gaps.push(ONE_GAP_MS);
        } else {
            gaps.push(ZERO_GAP_MS);
        }
        i = i + 1;
        assert(gaps@ =~= start + value_gaps(value, i as nat));
    }
}

/// The quiet gaps, in milliseconds, that carry `m` on the line. The
/// transmitter sends a burst, then for each gap waits that long and sends
/// another burst.
pub fn bus_gaps(m: &Message) -> (r: Vec<u8>)
    ensures
        r@ == frame_gaps(*m),
{
    let mut gaps: Vec<u8> = Vec::new();
    gaps.push(PREAMBLE_GAP_MS);
    push_gaps(&mut gaps, m.code, 6);
    push_gaps(&mut gaps, m.addr, 8);
    push_gaps(&mut gaps, m.checksum, 4);
    assert(gaps@ =~= frame_gaps(*m));
    gaps
}

/// The receiver after a run of edges, in order.
pub open spec fn run_edges(bus: Bus, ticks: Seq<u8>) -> Bus
    decreases ticks.len(),
{
    if ticks.len() == 0 {
        bus
    } else {
        on_edge_spec(run_edges(bus, ticks.drop_last()), ticks.last())
    }
}

/// The symbol that carries a bit.
pub open spec fn symbol_for(one: bool) -> Symbol {
    if one {
        Symbol::One
    } else {
        Symbol::Zero
    }
}

/// Code, address and checksum packed as eighteen bits, the first sent at bit 0.
pub open spec fn pack(c: u8, a: u8, s: u8) -> u32 {
    ((c as u32) | ((a as u32) << 6u32) | ((s as u32) << 14u32)) as u32
}

/// The eighteen data bits of a frame as one number, the first sent at bit 0.
pub open spec fn frame_word(m: Message) -> u32 {
    pack(m.code, m.addr, m.checksum)
}

/// The shift register after the first `k` bits of `word` came in.
pub open spec fn partial_register(word: u32, k: u32) -> u32 {
    ((word & ((1u32 << k) - 1u32) as u32) << (18u32 - k) as u32) as u32
}

proof fn lemma_word_bit(c: u8, a: u8, s: u8, j: u32)
    by (bit_vector)
    requires
        c < 64,
        s < 16,
        j < 18,
    ensures
        ((pack(c, a, s) >> j) & 1u32 == 1u32)
            == (if j < 6 {
            (c >> (j as u8)) & 1 == 1
        } else if j < 14 {
            (a >> ((j - 6u32) as u8)) & 1 == 1
        } else {
            (s >> ((j - 14u32) as u8)) & 1 == 1
        }),
{
}

proof fn lemma_register_step(word: u32, k: u32)
    by (bit_vector)
    requires
        k < 18,
        word < 0x4_0000u32,
    ensures
        shift_in(partial_register(word, k), (word >> k) & 1u32 == 1u32) == partial_register(
            word,
            (k + 1) as u32,
        ),
        partial_register(word, k) < 0x4_0000u32,
        partial_register(word, 0) == 0,
        partial_register(word, 18) == word,
{
}

proof fn lemma_register_message(c: u8, a: u8, s: u8)
    by (bit_vector)
    requires
        c < 64,
        s < 16,
    ensures
        pack(c, a, s) < 0x4_0000u32,
        ((pack(c, a, s) >> 6u32) & 0xffu32) as u8 == a,
        (pack(c, a, s) & 0x3fu32) as u8 == c,
        (pack(c, a, s) >> 14u32) as u8 == s,
{
}

/// The edge times of a frame that carries `m`: a preamble, then one symbol
/// per data bit.
pub open spec fn carries(ticks: Seq<u8>, m: Message) -> bool {
    &&& ticks.len() == FRAME_BITS + 1
    &&& classify_spec(ticks[0]) == Symbol::Preamble
    &&& forall|j: int|
        0 <= j < FRAME_BITS ==> #[trigger] classify_spec(ticks[j + 1]) == symbol_for(
            frame_bit(m, j),
        )
}

proof fn lemma_partial_frame(bus: Bus, m: Message, ticks: Seq<u8>, k: int)
    requires
        bus.wf(),
        well_formed(m),
        carries(ticks, m),
        0 <= k < FRAME_BITS,
    ensures
        run_edges(bus, ticks.take(k + 1)) == (Bus {
            received_bits: partial_register(frame_word(m), k as u32),
            num_received_bits: k as u8,
            received_msg: bus.received_msg,
        }),
    decreases k,
{
    let word = frame_word(m);
    crate::frame::lemma_checksum_bound(m);
    lemma_register_message(m.code, m.addr, m.checksum);
    lemma_register_step(word, 0);
    if k == 0 {
        assert(ticks.take(1).drop_last() =~= Seq::<u8>::empty());
        assert(run_edges(bus, ticks.take(1)) == on_edge_spec(
            run_edges(bus, Seq::empty()),
            ticks[0],
        ));
    } else {
        lemma_partial_frame(bus, m, ticks, k - 1);
        assert(ticks.take(k + 1).drop_last() =~= ticks.take(k));
        let j = k - 1;
        assert(classify_spec(ticks[j + 1]) == symbol_for(frame_bit(m, j)));
        lemma_word_bit(m.code, m.addr, m.checksum, j as u32);
        lemma_register_step(word, j as u32);
    }
}

/// A frame received after a preamble delivers its message to the mailbox,
/// replacing anything there, and leaves the receiver ready for the next one.
pub proof fn lemma_bus_delivers(bus: Bus, m: Message, ticks: Seq<u8>)
    requires
        bus.wf(),
        well_formed(m),
        carries(ticks, m),
    ensures
        run_edges(bus, ticks).received_msg == Some(m),
        run_edges(bus, ticks).num_received_bits == 0,
        run_edges(bus, ticks).wf(),
{
    let word = frame_word(m);
    crate::frame::lemma_checksum_bound(m);
    lemma_register_message(m.code, m.addr, m.checksum);
    lemma_partial_frame(bus, m, ticks, 17);
    assert(ticks.drop_last() =~= ticks.take(18));
    assert(classify_spec(ticks[18]) == symbol_for(frame_bit(m, 17)));
    lemma_word_bit(m.code, m.addr, m.checksum, 17);
    lemma_register_step(word, 17);
}

/// The timer ticks that a gap of `ms` milliseconds lasts.
pub open spec fn ticks_of_ms(ms: u8) -> u8 {
    (ms as int * 1000 / TICK_US as int) as u8
}

/// The edge times at which a receiver sees the gaps of a frame, when the
/// transmitter keeps them exactly.
pub open spec fn nominal_ticks(gaps: Seq<u8>) -> Seq<u8> {
    Seq::new(gaps.len(), |i: int| ticks_of_ms(gaps[i]))
}

/// The gaps sent for a message, timed exactly, deliver that message to any
/// line receiver.
pub proof fn lemma_bus_round_trip(bus: Bus, m: Message)
    requires
        bus.wf(),
        well_formed(m),
    ensures
        run_edges(bus, nominal_ticks(frame_gaps(m))).received_msg == Some(m),
{
    let t = nominal_ticks(frame_gaps(m));
    assert(ticks_of_ms(PREAMBLE_GAP_MS) == 66);
    assert(ticks_of_ms(ZERO_GAP_MS) == 11);
    assert(ticks_of_ms(ONE_GAP_MS) == 23);
    assert forall|j: int| 0 <= j < FRAME_BITS implies #[trigger] classify_spec(t[j + 1])
        == symbol_for(frame_bit(m, j)) by {
        assert(frame_gaps(m)[j + 1] == gap_ms(frame_bit(m, j)));
    }
    lemma_bus_delivers(bus, m, t);
}

} // verus!
