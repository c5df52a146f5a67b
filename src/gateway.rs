//! Rules of the network gateway node: how it signals a message heard on the
//! bus, and what its button does.
use vstd::prelude::*;

use crate::button::ButtonEvent;
use crate::codec::{Message, CALL, CALL_END, CALL_FLOOR_DOOR, OPEN_DOOR};

verus! {

/// The signal given for a message heard on the bus.
#[derive(Clone, Copy, Debug, PartialEq, Eq, Structural)]
pub enum Feedback {
    /// No signal.
    Silent,
    /// A call, or the door being opened: a blue flash, then a buzz of the
    /// motor unless muted.
    Ring,
    /// A call from the floor door: blue, then red.
    FloorDoor,
}

/// The signal for a message with `code`.
pub open spec fn feedback_spec(code: u8) -> Feedback {
    if code == CALL || code == CALL_END || code == OPEN_DOOR {
        Feedback::Ring
    } else if code == CALL_FLOOR_DOOR {
        Feedback::FloorDoor
    } else {
        Feedback::Silent
    }
}

/// The signal to give for a message with `code`.
pub fn feedback_for(code: u8) -> (r: Feedback)
    ensures
        r == feedback_spec(code),
{
    if code == CALL || code == CALL_END || code == OPEN_DOOR {
        Feedback::Ring
    } else if code == CALL_FLOOR_DOOR {
        Feedback::FloorDoor
    } else {
        Feedback::Silent
    }
}

/// What the gateway does for a button event.
#[derive(Clone, Copy, Debug, PartialEq, Eq, Structural)]
pub enum Reaction {
    /// Send the message on the bus.
    Send(Message),
    /// Turn muting on or off.
    ToggleMute,
}

/// A press sequence asks the door to open, on behalf of the intercom at
/// `address`; a long press turns muting on or off.
pub fn on_button(event: ButtonEvent, address: u8) -> (r: Reaction)
    ensures
        r == (match event {
            ButtonEvent::ShortPress { .. } => Reaction::Send(Message { code: OPEN_DOOR, address }),
            ButtonEvent::LongPress => Reaction::ToggleMute,
        }),
{
    match event {
        ButtonEvent::ShortPress { .. } => Reaction::Send(Message { code: OPEN_DOOR, address }),
        ButtonEvent::LongPress => Reaction::ToggleMute,
    }
}

/// A command received from the broker.
#[derive(Clone, Copy, Debug, PartialEq, Eq, Structural)]
pub enum Command {
    /// `open_door`: ask the door to open.
    OpenDoor,
    /// `camera_on`: accepted, nothing to do.
    CameraOn,
    /// Anything else.
    Unknown,
}

/// The text of the open-door command.
pub open spec fn open_door_text() -> Seq<u8> {
    // o p e n _ d o o r
    seq![111u8, 112, 101, 110, 95, 100, 111, 111, 114]
}

/// The text of the camera-on command.
pub open spec fn camera_on_text() -> Seq<u8> {
    // c a m e r a _ o n
    seq![99u8, 97, 109, 101, 114, 97, 95, 111, 110]
}

/// The command that a payload names.
pub open spec fn command_spec(payload: Seq<u8>) -> Command {
    if payload == open_door_text() {
        Command::OpenDoor
    } else if payload == camera_on_text() {
        Command::CameraOn
    } else {
        Command::Unknown
    }
}

/// Whether two byte strings are equal.
fn bytes_eq(a: &[u8], b: &[u8]) -> (r: bool)
    ensures
        r == (a@ == b@),
{
    if a.len() != b.len() {
        return false;
    }
    let mut i: usize = 0;
    while i < a.len()
        invariant
            a@.len() == b@.len(),
            i <= a@.len(),
            forall|j: int| 0 <= j < i ==> a@[j] == b@[j],
        decreases a@.len() - i,
    {
        if a[i] != b[i] {
            return false;
        }
        i = i + 1;
    }
    assert(a@ =~= b@);
    true
}

/// Reads the payload of a message on the command topic.
pub fn parse_command(payload: &[u8]) -> (r: Command)
    ensures
        r == command_spec(payload@),
{
    let open_door: [u8; 9] = [111u8, 112, 101, 110, 95, 100, 111, 111, 114];
    let camera_on: [u8; 9] = [99u8, 97, 109, 101, 114, 97, 95, 111, 110];
    assert(open_door@ =~= open_door_text());
    assert(camera_on@ =~= camera_on_text());
    if bytes_eq(payload, open_door.as_slice()) {
        Command::OpenDoor
    } else if bytes_eq(payload, camera_on.as_slice()) {
        Command::CameraOn
    } else {
        Command::Unknown
    }
}

/// What to send on the bus for a message from the broker on `topic`, on
/// behalf of the intercom at `address`: the open-door request for an
/// `open_door` command on the command topic, nothing otherwise.
pub fn on_command(topic: &[u8], command_topic: &[u8], payload: &[u8], address: u8) -> (r: Option<
    Message,
>)
    ensures
        r == (if topic@ == command_topic@ && command_spec(payload@) == Command::OpenDoor {
            Some(Message { code: OPEN_DOOR, address })
        } else {
            None
        }),
{
    if !bytes_eq(topic, command_topic) {
        return None;
    }
    match parse_command(payload) {
        Command::OpenDoor => Some(Message { code: OPEN_DOOR, address }),
        Command::CameraOn | Command::Unknown => None,
    }
}

} // verus!
