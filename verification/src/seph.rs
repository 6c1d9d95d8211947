//! The event pump that every screen drives while it waits for the user.
//!
//! A screen is asked for its [`Turn`] before each packet is awaited, and again for
//! the packet that came. Touches and ticks go to the device's user interface, which
//! calls the screen back; everything else is skipped.

use vstd::prelude::*;

verus! {

/// Size of the buffer into which packets are received.
pub const RX_BUFFER_SIZE: usize = 273;

/// The numbers by which the device marks the packets that a screen cares about.
#[derive(Clone, Copy, PartialEq, Eq, Structural, Debug)]
pub struct SephCodes {
    /// Packet type of a packet from the coprocessor.
    pub packet_seph: u8,
    /// Packet type of an event of the secure element.
    pub packet_se_evt: u8,
    /// Tag of a touch.
    pub tag_finger: u32,
    /// Tag of a tick.
    pub tag_ticker: u32,
}

/// What the outcome of one reception means.
#[derive(Clone, Copy, PartialEq, Eq, Structural, Debug)]
pub enum Incoming {
    /// The reception failed.
    Failed,
    /// Nothing came, or nothing that concerns a screen.
    Ignored,
    /// A touch, for the user interface to process.
    Finger,
    /// A tick, for the user interface to process.
    Ticker,
}

/// What a screen has its driver do next.
#[derive(PartialEq, Eq, Debug)]
pub enum Turn<T> {
    /// Wait for a packet.
    Receive,
    /// Let the user interface process the received touch, then ask again.
    Finger,
    /// Let the user interface process the tick, then ask again.
    Ticker,
    /// Leave the screen with this result.
    Finish(T),
}

/// The packet has one of the two types that carry user interface events.
pub open spec fn concerns_ui(codes: SephCodes, packet_type: u8) -> bool {
    packet_type == codes.packet_seph || packet_type == codes.packet_se_evt
}

/// The meaning of a reception that returned `status` and left `packet_type` and
/// `tag` in the first two bytes of the buffer.
pub open spec fn incoming(codes: SephCodes, status: i32, packet_type: u8, tag: u8) -> Incoming {
    if status < 0 {
        Incoming::Failed
    } else if status == 0 || !concerns_ui(codes, packet_type) {
        Incoming::Ignored
    } else if tag as u32 == codes.tag_finger {
        Incoming::Finger
    } else if tag as u32 == codes.tag_ticker {
        Incoming::Ticker
    } else {
        Incoming::Ignored
    }
}

/// The turn that follows from a reception; `failed` is the result with which the
/// screen is left where the reception failed.
pub open spec fn turn_after<T>(received: Incoming, failed: T) -> Turn<T> {
    match received {
        Incoming::Failed => Turn::Finish(failed),
        Incoming::Ignored => Turn::Receive,
        Incoming::Finger => Turn::Finger,
        Incoming::Ticker => Turn::Ticker,
    }
}

/// Reads the outcome of one reception into `buf`.
pub fn classify(codes: &SephCodes, status: i32, buf: &[u8; RX_BUFFER_SIZE]) -> (r: Incoming)
    ensures
        r == incoming(*codes, status, buf@[0], buf@[1]),
{
    if status < 0 {
        return Incoming::Failed;
    }
    if status == 0 {
        return Incoming::Ignored;
    }
    let packet_type: u8 = buf[0];
    if packet_type != codes.packet_seph && packet_type != codes.packet_se_evt {
        return Incoming::Ignored;
    }
    let tag: u32 = buf[1] as u32;
    if tag == codes.tag_finger {
        Incoming::Finger
    } else if tag == codes.tag_ticker {
        Incoming::Ticker
    } else {
        Incoming::Ignored
    }
}

/// The turn that follows from a reception.
pub fn after<T>(received: Incoming, failed: T) -> (r: Turn<T>)
    ensures
        r == turn_after(received, failed),
{
    match received {
        Incoming::Failed => Turn::Finish(failed),
        Incoming::Ignored => Turn::Receive,
        Incoming::Finger => Turn::Finger,
        Incoming::Ticker => Turn::Ticker,
    }
}

/// Only a packet of one of the two known types is handed to the user interface,
/// and only a failed reception leaves a screen on its own account.
pub proof fn law_pump_filters<T>(
    codes: SephCodes,
    status: i32,
    packet_type: u8,
    tag: u8,
    failed: T,
)
    ensures
        ({
            let turn = turn_after(incoming(codes, status, packet_type, tag), failed);
            &&& turn is Finish <==> status < 0
            &&& turn is Finish ==> turn == Turn::Finish(failed)
            &&& turn is Finger || turn is Ticker ==> status > 0 && concerns_ui(codes, packet_type)
            &&& turn is Finger ==> tag as u32 == codes.tag_finger
            &&& turn is Ticker ==> tag as u32 == codes.tag_ticker
        }),
{
}

/// A reception is failed exactly where its status is negative. It is a touch, or a
/// tick, exactly where something came in a packet of one of the two types and the
/// packet's tag says so; a tag that stands for both is a touch.
pub proof fn law_reception_is_what_its_packet_says(
    codes: SephCodes,
    status: i32,
    buf: [u8; RX_BUFFER_SIZE],
    received: Incoming,
)
    requires
        call_ensures(classify, (&codes, status, &buf), received),
    ensures
        RX_BUFFER_SIZE == 273,
        received is Failed <==> status < 0,
        received is Finger <==> {
            &&& status > 0
            &&& buf@[0] == codes.packet_seph || buf@[0] == codes.packet_se_evt
            &&& buf@[1] == codes.tag_finger
        },
        received is Ticker <==> {
            &&& status > 0
            &&& buf@[0] == codes.packet_seph || buf@[0] == codes.packet_se_evt
            &&& buf@[1] == codes.tag_ticker
            &&& codes.tag_ticker != codes.tag_finger
        },
{
}

/// A failed reception is answered with the given result, a touch and a tick go to the
/// user interface as such, and after anything else the next packet is awaited.
pub proof fn law_turn_goes_by_the_reception<T>(received: Incoming, failed: T, turn: Turn<T>)
    requires
        call_ensures(after::<T>, (received, failed), turn),
    ensures
        received is Failed <==> turn == Turn::Finish(failed),
        received is Failed <==> turn is Finish,
        received is Ignored <==> turn is Receive,
        received is Finger <==> turn is Finger,
        received is Ticker <==> turn is Ticker,
{
}

/// What reaches the user interface, read off the packet: a screen is left exactly on a
/// failed reception, and touches and ticks are handed on exactly where a packet of one
/// of the two types came with their tag.
pub proof fn law_pump_hands_on_what_came<T>(
    codes: SephCodes,
    status: i32,
    packet_type: u8,
    tag: u8,
    failed: T,
)
    ensures
        ({
            let turn = turn_after(incoming(codes, status, packet_type, tag), failed);
            let of_ui = status > 0 && (packet_type == codes.packet_seph || packet_type
                == codes.packet_se_evt);
            &&& turn is Finish <==> status < 0
            &&& turn is Finish ==> turn == Turn::Finish(failed)
            &&& turn is Finger <==> of_ui && tag == codes.tag_finger
            &&& turn is Ticker <==> of_ui && tag == codes.tag_ticker && tag != codes.tag_finger
        }),
{
}

} // verus!
