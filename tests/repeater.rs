use intercom::bus::{bus_gaps, Bus};
use intercom::codec;
use intercom::frame::Message;
use intercom::repeater::Repeater;
use intercom::uart::uart_frame;

fn valid(addr: u8, code: u8) -> Message {
    Message::new(addr, code, (addr.count_ones() + code.count_ones()) as u8)
}

fn send_on_line(bus: &mut Bus, m: &Message) {
    for g in bus_gaps(m) {
        bus.on_edge(0);
        bus.on_edge((g as u32 * 1000 / 256) as u8);
    }
}

#[test]
fn line_message_goes_to_serial() {
    let m = valid(12, 21);
    let mut r = Repeater::new();
    send_on_line(&mut r.bus, &m);
    let out = r.drain();
    assert_eq!(out.to_uart, Some(m));
    assert_eq!(out.to_bus, None);
    let bytes = uart_frame(&out.to_uart.unwrap());
    assert_eq!(
        codec::Message::from_raw_bytes(&bytes),
        Some(codec::Message { code: 21, address: 12 })
    );
    let again = r.drain();
    assert_eq!(again.to_uart, None);
}

#[test]
fn serial_message_goes_to_line() {
    let mut r = Repeater::new();
    r.uart.receive_frame(&[64, 197, 80]);
    let out = r.drain();
    assert_eq!(out.to_uart, None);
    let m = out.to_bus.unwrap();
    let mut far = Bus::new();
    send_on_line(&mut far, &m);
    assert_eq!(far.take(), Some(valid(12, 21)));
    assert_eq!(r.uart.received_msg, None);
}

#[test]
fn both_mailboxes_drain_in_one_pass() {
    let mut r = Repeater::new();
    send_on_line(&mut r.bus, &valid(1, 16));
    r.uart.receive_frame(&uart_frame(&valid(2, 20)));
    let out = r.drain();
    assert_eq!(out.to_uart, Some(valid(1, 16)));
    assert_eq!(out.to_bus, Some(valid(2, 20)));
    assert_eq!(r.bus.received_msg, None);
    assert_eq!(r.uart.received_msg, None);
}

#[test]
fn drain_keeps_partial_line_frame() {
    let mut r = Repeater::new();
    r.bus.on_edge(66);
    r.bus.on_edge(11);
    r.bus.on_edge(23);
    let out = r.drain();
    assert_eq!(out.to_uart, None);
    assert_eq!(r.bus.num_received_bits, 2);
}

#[test]
fn validate_checks_the_count() {
    assert_eq!(Message::new(12, 21, 5).validate(), Some(Message::new(12, 21, 5)));
    assert_eq!(Message::new(12, 21, 4).validate(), None);
    assert_eq!(Message::new(255, 255, 16).validate(), Some(Message::new(255, 255, 16)));
}
