use intercom::frame::Message;
use intercom::uart::{rx_byte, tx_levels, uart_frame, Uart, BIT_US, TX_DATA_BIT_US};

fn valid(addr: u8, code: u8) -> Message {
    Message::new(addr, code, (addr.count_ones() + code.count_ones()) as u8)
}

#[test]
fn levels_of_a_byte() {
    let l = tx_levels(0b1010_0011);
    assert_eq!(
        l,
        vec![false, true, true, false, false, false, true, false, true, true]
    );
    assert_eq!(tx_levels(0), vec![false, false, false, false, false, false, false, false, false, true]);
    assert_eq!(BIT_US, 208);
    assert_eq!(TX_DATA_BIT_US, 190);
}

#[test]
fn samples_to_byte() {
    let s = [true, true, false, false, false, true, false, true];
    assert_eq!(rx_byte(&s), 0b1010_0011);
    assert_eq!(rx_byte(&[false; 8]), 0);
    assert_eq!(rx_byte(&[true; 8]), 255);
}

#[test]
fn levels_sampled_back() {
    for byte in 0u8..=255 {
        let l = tx_levels(byte);
        let mut s = [false; 8];
        s.copy_from_slice(&l[1..9]);
        assert_eq!(rx_byte(&s), byte);
    }
}

#[test]
fn frame_bytes_of_concrete_message() {
    assert_eq!(uart_frame(&valid(12, 21)), [64, 197, 80]);
}

#[test]
fn received_frame_lands_in_mailbox() {
    let mut u = Uart::new();
    u.receive_frame(&[64, 197, 80]);
    assert_eq!(u.take(), Some(Message::new(12, 21, 5)));
    assert_eq!(u.take(), None);
}

#[test]
fn corrupt_frame_is_dropped() {
    let mut u = Uart::new();
    u.receive_frame(&[64, 197, 80]);
    u.receive_frame(&[64, 196, 80]);
    assert_eq!(u.received_msg, Some(Message::new(12, 21, 5)));
    let mut v = Uart::new();
    v.receive_frame(&[64, 196, 80]);
    assert_eq!(v.received_msg, None);
}

#[test]
fn second_frame_overwrites_first() {
    let mut u = Uart::new();
    u.receive_frame(&uart_frame(&valid(12, 21)));
    u.receive_frame(&uart_frame(&valid(3, 48)));
    assert_eq!(u.take(), Some(valid(3, 48)));
    assert_eq!(u.take(), None);
}

#[test]
fn wide_code_does_not_touch_address_bits() {
    let m = Message::new(0, 0xFF, 0);
    let b = uart_frame(&m);
    assert_eq!(b[1], 0x0F);
    assert_eq!(uart_frame(&Message::new(12, 21, 5)), [64, 197, 80]);
}
