//! Input events on their way to the desktop.

use vstd::prelude::*;

use crate::sos_constants::{MSG_KEY, MSG_MOUSE, MSG_SHUTDOWN};
use crate::text::copy_bytes;
use crate::wire::{get_le, put_le};
use crate::wire::{le_bytes, le_value, lemma_le_bytes_len, lemma_le_round_trip, lemma_pow256};

verus! {

/// An input event, as the pipe carries it: its payload is the serialized
/// event of the protocol.
#[derive(Debug, PartialEq, Eq)]
pub enum InputEvent {
    /// The service is to end.
    Shutdown,
    /// A mouse event.
    Mouse(Vec<u8>),
    /// A key event.
    Key(Vec<u8>),
    /// Something of an unknown type, to be passed over.
    Unknown(u32),
}

/// An input event, as a value of the model.
pub ghost enum Input {
    Shutdown,
    Mouse(Seq<u8>),
    Key(Seq<u8>),
    Unknown(u32),
}

impl View for InputEvent {
    type V = Input;

    open spec fn view(&self) -> Input {
        match *self {
            InputEvent::Shutdown => Input::Shutdown,
            InputEvent::Mouse(p) => Input::Mouse(p@),
            InputEvent::Key(p) => Input::Key(p@),
            InputEvent::Unknown(t) => Input::Unknown(t),
        }
    }
}

/// The event that a message type and a payload stand for.
pub open spec fn input_of(msg_type: u32, payload: Seq<u8>) -> Input {
    if msg_type == MSG_SHUTDOWN {
        Input::Shutdown
    } else if msg_type == MSG_MOUSE {
        Input::Mouse(payload)
    } else if msg_type == MSG_KEY {
        Input::Key(payload)
    } else {
        Input::Unknown(msg_type)
    }
}

/// What to do with one input message, and whether the service goes on:
/// `false` only for a shutdown.
pub fn dispatch(msg_type: u32, payload: &[u8]) -> (r: (bool, InputEvent))
    ensures
        r.1@ == input_of(msg_type, payload@),
        r.0 == (msg_type != MSG_SHUTDOWN),
{
    if msg_type == MSG_SHUTDOWN {
        (false, InputEvent::Shutdown)
    } else if msg_type == MSG_MOUSE {
        (true, InputEvent::Mouse(copy_bytes(payload)))
    } else if msg_type == MSG_KEY {
        (true, InputEvent::Key(copy_bytes(payload)))
    } else {
        (true, InputEvent::Unknown(msg_type))
    }
}

/// The message of an event: its type in four bytes, and its payload.
pub open spec fn input_message(msg_type: u32, payload: Seq<u8>) -> Seq<u8> {
    le_bytes(msg_type as nat, 4) + payload
}

/// The message that carries a payload of the given type.
pub fn encode_input(msg_type: u32, payload: &[u8]) -> (r: Vec<u8>)
    requires
        payload@.len() + 4 <= usize::MAX,
    ensures
        r@ == input_message(msg_type, payload@),
{
    let mut data: Vec<u8> = put_le(msg_type as u64, 4);
    data.extend_from_slice(payload);
    proof {
        assert(data@ =~= input_message(msg_type, payload@));
    }
    data
}

/// The event of a message, or nothing if the message is too short to be one:
/// a payload has at least one byte.
pub open spec fn decode_input(data: Seq<u8>) -> Option<Input> {
    if data.len() < 5 {
        None
    } else {
        Some(input_of(le_value(data.take(4)) as u32, data.skip(4)))
    }
}

/// What the service does with one message of the input pipe: messages under
/// five bytes are passed over.
pub fn read_input(data: &[u8]) -> (r: Option<(bool, InputEvent)>)
    ensures
        r is Some <==> decode_input(data@) is Some,
        r matches Some((goes_on, event)) ==> {
            &&& Some(event@) == decode_input(data@)
            &&& goes_on == (event@ != Input::Shutdown)
        },
{
    if data.len() < 5 {
        return None;
    }
    let head: &[u8] = vstd::slice::slice_subrange(data, 0, 4);
    let rest: &[u8] = vstd::slice::slice_subrange(data, 4, data.len());
    proof {
        crate::wire::lemma_le_value_bound(head@);
        lemma_pow256();
        assert(head@ =~= data@.take(4));
        assert(rest@ =~= data@.skip(4));
    }
    let msg_type: u32 = get_le(head) as u32;
    Some(dispatch(msg_type, rest))
}

/// What one process encodes, the other reads as the same event, if its
/// payload has a byte.
pub proof fn input_round_trip(msg_type: u32, payload: Seq<u8>)
    requires
        payload.len() > 0,
    ensures
        decode_input(input_message(msg_type, payload)) == Some(input_of(msg_type, payload)),
{
    let data = input_message(msg_type, payload);
    lemma_pow256();
    lemma_le_round_trip(msg_type as nat, 4);
    assert(data.take(4) =~= le_bytes(msg_type as nat, 4));
    assert(data.skip(4) =~= payload);
}

/// An event without a payload does not arrive.
pub proof fn empty_input_is_passed_over(msg_type: u32)
    ensures
        decode_input(input_message(msg_type, Seq::empty())) is None,
{
    lemma_le_bytes_len(msg_type as nat, 4);
}

// ---------------------------------------------------------------- keys
/// Whether `v` is the number of a character.
pub open spec fn is_char(v: u32) -> bool {
    v <= 0xD7FF || 0xE000 <= v <= 0x10FFFF
}

/// `char::from_u32`: the character with the given number, where there is one.
pub assume_specification[ char::from_u32 ](v: u32) -> (r: Option<char>)
    ensures
        r is Some <==> is_char(v),
        r matches Some(c) ==> c as u32 == v,
;

/// What the dispatcher reads of a key event.
#[derive(Debug, Clone, Copy, PartialEq, Eq, Structural)]
pub struct KeyEvent {
    /// The character number, in an event that carries one.
    pub chr: Option<u32>,
    /// Whether the key goes down.
    pub down: bool,
}

/// What to do with a key event.
#[derive(Debug, Clone, Copy, PartialEq, Eq)]
pub enum KeyAction {
    /// Nothing: the event could not be read, or names no character.
    Ignore,
    /// Press the key of this character in the current layout.
    LayoutDown(char),
    /// Release it.
    LayoutUp(char),
    /// Hand the event to the general key handler.
    Handle,
}

/// Chooses the way of a key event; `None` is one that could not be read.
pub fn dispatch_key(event: Option<KeyEvent>) -> (r: KeyAction)
    ensures
        match event {
            None => r == KeyAction::Ignore,
            Some(e) => match e.chr {
                None => r == KeyAction::Handle,
                Some(v) => if !is_char(v) {
                    r == KeyAction::Ignore
                } else if e.down {
                    r matches KeyAction::LayoutDown(c) && c as u32 == v
                } else {
                    r matches KeyAction::LayoutUp(c) && c as u32 == v
                },
            },
        },
{
    match event {
        None => KeyAction::Ignore,
        Some(e) => match e.chr {
            None => KeyAction::Handle,
            Some(v) => match char::from_u32(v) {
                None => KeyAction::Ignore,
                Some(c) => {
                    if e.down {
                        KeyAction::LayoutDown(c)
                    } else {
                        KeyAction::LayoutUp(c)
                    }
                },
            },
        },
    }
}

// ---------------------------------------------------------------- rates
/// Nanoseconds in a second.
pub const SECOND: u64 = 1_000_000_000;

/// Counts events and reports about once a second. Times are nanoseconds on a
/// clock that does not go back.
#[derive(Debug, Clone, Copy, PartialEq, Eq, Structural)]
pub struct RateTracker {
    pub count: u64,
    pub last_log: u64,
}

/// The nanoseconds from `then` to `now`.
pub open spec fn elapsed(then: u64, now: u64) -> nat {
    if now >= then {
        (now - then) as nat
    } else {
        0
    }
}

impl RateTracker {
    /// A tracker that has counted nothing.
    pub fn new(now: u64) -> (r: Self)
        ensures
            r == (RateTracker { count: 0, last_log: now }),
    {
        RateTracker { count: 0, last_log: now }
    }

    /// Counts one event. Once a second or more has gone by, gives the number
    /// of events and the time they took, and starts over.
    pub fn tick(&mut self, now: u64) -> (r: Option<(u64, u64)>)
        requires
            old(self).count < u64::MAX,
        ensures
            ({
                let count = (old(self).count + 1) as u64;
                let gone = elapsed(old(self).last_log, now);
                if gone >= SECOND {
                    &&& r == Some((count, gone as u64))
                    &&& *final(self) == (RateTracker { count: 0, last_log: now })
                } else {
                    &&& r is None
                    &&& *final(self) == (RateTracker { count, last_log: old(self).last_log })
                }
            }),
    {
        self.count = self.count + 1;
        let gone: u64 = now.saturating_sub(self.last_log);
        if gone >= SECOND {
            let count: u64 = self.count;
            self.count = 0;
            self.last_log = now;
            Some((count, gone))
        } else {
            None
        }
    }
}

/// The running cost of mouse events, in microseconds. The totals wrap around.
#[derive(Debug, Clone, Copy, PartialEq, Eq, Structural)]
pub struct MouseStats {
    pub count: u64,
    pub parse_total: u64,
    pub handle_total: u64,
}

impl MouseStats {
    /// No event yet.
    pub fn new() -> (r: Self)
        ensures
            r == (MouseStats { count: 0, parse_total: 0, handle_total: 0 }),
    {
        MouseStats { count: 0, parse_total: 0, handle_total: 0 }
    }

    /// Adds the cost of one event. With every hundredth event, gives the
    /// number of events and the two averages over all of them.
    pub fn record(&mut self, parse_us: u64, handle_us: u64) -> (r: Option<(u64, u64, u64)>)
        requires
            old(self).count < u64::MAX,
        ensures
            final(self).count == old(self).count + 1,
            final(self).parse_total == (old(self).parse_total + parse_us) % (u64::MAX + 1),
            final(self).handle_total == (old(self).handle_total + handle_us) % (u64::MAX + 1),
            r is Some <==> final(self).count % 100 == 0,
            r matches Some((n, parse, handle)) ==> {
                &&& n == final(self).count
                &&& parse == final(self).parse_total as int / n as int
                &&& handle == final(self).handle_total as int / n as int
            },
    {
        self.count = self.count + 1;
        self.parse_total = self.parse_total.wrapping_add(parse_us);
        self.handle_total = self.handle_total.wrapping_add(handle_us);
        let n: u64 = self.count;
        if n % 100 == 0 {
            Some((n, self.parse_total / n, self.handle_total / n))
        } else {
            None
        }
    }
}

} // verus!
