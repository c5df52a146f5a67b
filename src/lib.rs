//! SimpleBus2 intercom protocol: the three-byte frame codec, the timed-pulse
//! line transport, the bit-banged serial transport, the repeater that bridges
//! the two, and a debounced push-button state machine.

pub mod codec;
pub mod frame;
pub mod bus;
pub mod uart;
pub mod repeater;
pub mod config;
pub mod button;
pub mod gateway;
