//! Input of the peer reaches the desktop, through a pipe.

use vstd::prelude::*;

use crate::sos_input::{
    dispatch, dispatch_key, encode_input, read_input, InputEvent, KeyAction, KeyEvent, MouseStats,
    RateTracker,
};
use crate::sos_pipe::{
    connect_pipe_client, create_pipe_server, encode_pipe_message, set_down_tx, try_send_input,
    PipeConnect, PipeReader, PipeServer, ReadStep, ServerAction, ServerEvent,
};
use crate::sos_pipe::Progress;
use crate::sos_system::{input_step, InputStep};
use crate::wire::{get_i32, get_le, put_i32, put_le};
use crate::wire::{le_bytes, le_value, lemma_le_value_bound, lemma_pow256};

verus! {

// ---------------------------------------------------------------- numbers
/// The number that four bytes stand for, the least significant one first.
pub open spec fn four_bytes(b: Seq<u8>) -> int {
    b[0] + 256 * b[1] + 65536 * b[2] + 16777216 * b[3]
}

proof fn lemma_four_bytes(b: Seq<u8>)
    requires
        b.len() == 4,
    ensures
        le_value(b) == four_bytes(b),
{
    reveal_with_fuel(le_value, 5);
    assert(b.drop_first()[0] == b[1]);
    assert(b.drop_first().drop_first()[0] == b[2]);
    assert(b.drop_first().drop_first().drop_first()[0] == b[3]);
}

/// Numbers are written in four or eight bytes, the least significant one
/// first, and read back as they were.
pub proof fn numbers_are_little_endian(
    v: i32,
    r: Vec<u8>,
    b: &[u8],
    back: i32,
    n: u64,
    n_bytes: Vec<u8>,
    n_slice: &[u8],
    n_back: u64,
)
    requires
        call_ensures(put_i32, (v,), r),
        b@.len() == 4,
        call_ensures(get_i32, (b,), back),
        call_ensures(put_le, (n, 4), n_bytes),
        n <= 0xFFFF_FFFF,
        n_slice@.len() == 4,
        call_ensures(get_le, (n_slice,), n_back),
    ensures
        r@.len() == 4,
        v >= 0 ==> four_bytes(r@) == v,
        v < 0 ==> four_bytes(r@) == v + 0x1_0000_0000,
        (four_bytes(b@) - back) % 0x1_0000_0000 == 0,
        n_bytes@.len() == 4,
        four_bytes(n_bytes@) == n,
        n_back == four_bytes(n_slice@),
{
    lemma_pow256();
    let u = (if v >= 0 {
        v as int
    } else {
        v + 0x1_0000_0000
    }) as nat;
    crate::wire::lemma_le_round_trip(u, 4);
    lemma_four_bytes(r@);
    lemma_four_bytes(b@);
    crate::wire::lemma_le_round_trip(n as nat, 4);
    lemma_four_bytes(n_bytes@);
    lemma_four_bytes(n_slice@);
}

/// A number in some bytes is its lowest byte and then the rest of it in the
/// other bytes, and some bytes stand for the first one and 256 times what the
/// others stand for; no bytes are zero.
pub proof fn bytes_go_one_by_one(
    v: u64,
    n: usize,
    r: Vec<u8>,
    rest: Vec<u8>,
    nothing: Vec<u8>,
    b: &[u8],
    value: u64,
    tail: &[u8],
    tail_value: u64,
    empty: &[u8],
    zero: u64,
)
    requires
        call_ensures(put_le, (v, n), r),
        n > 0,
        call_ensures(put_le, (v / 256, (n - 1) as usize), rest),
        call_ensures(put_le, (v, 0), nothing),
        call_ensures(get_le, (b,), value),
        b@.len() > 0,
        tail@ == b@.skip(1),
        call_ensures(get_le, (tail,), tail_value),
        empty@.len() == 0,
        call_ensures(get_le, (empty,), zero),
    ensures
        r@ == seq![(v % 256) as u8] + rest@,
        nothing@.len() == 0,
        value == b@[0] + 256 * tail_value,
        zero == 0,
{
    assert(b@.drop_first() =~= b@.skip(1));
}

// ---------------------------------------------------------------- messages
/// A message travels behind its length, which takes four bytes.
pub proof fn packet_is_length_and_message(data: &[u8], r: Vec<u8>)
    requires
        call_ensures(encode_pipe_message, (data,), r),
    ensures
        r@.len() == data@.len() + 4,
        four_bytes(r@.take(4)) == data@.len() % 0x1_0000_0000,
        r@.skip(4) == data@,
{
    lemma_pow256();
    let n = data@.len() % 0x1_0000_0000;
    crate::wire::lemma_le_round_trip(n, 4);
    assert(r@.take(4) =~= le_bytes(n, 4));
    assert(r@.skip(4) =~= data@);
    lemma_four_bytes(r@.take(4));
}

/// A reader between two messages asks for four bytes. A length above a
/// mebibyte, and a read that fails or brings less, is a broken pipe; a length
/// of zero is an empty message; and any other length is what it asks for
/// next.
pub proof fn length_is_read_first(
    p: &mut PipeReader,
    succeeded: bool,
    chunk: &[u8],
    r: ReadStep,
    fresh: PipeReader,
    asks: u64,
    next: &PipeReader,
    asks_next: u64,
)
    requires
        call_ensures(PipeReader::new, (), fresh),
        call_ensures(PipeReader::request, (&fresh,), asks),
        old(p)@ == fresh@,
        call_ensures(PipeReader::read_message, (p, succeeded, chunk), r),
        next@ == final(p)@,
        call_ensures(PipeReader::request, (next,), asks_next),
    ensures
        asks == 4,
        !succeeded || chunk@.len() != 4 ==> r is Broken && final(p)@ == fresh@,
        succeeded && chunk@.len() == 4 ==> {
            let n = four_bytes(chunk@);
            &&& n > 1_048_576 ==> r is Broken && final(p)@ == fresh@
            &&& n == 0 ==> (r matches ReadStep::Message(m) && m@.len() == 0) && final(p)@
                == fresh@
            &&& 0 < n <= 1_048_576 ==> {
                &&& r == ReadStep::Read(n as u64)
                &&& asks_next == n
                &&& final(p)@ == (Progress::Body { wanted: n as nat, received: Seq::empty() })
            }
        },
{
    if chunk@.len() == 4 {
        lemma_four_bytes(chunk@);
    }
}

/// Within a message the pieces are put together as they come. A message is
/// given when all of it has come, and not before; a read that fails or brings
/// nothing is a broken pipe. After either the reader is between messages.
pub proof fn pieces_are_put_together(
    p: &mut PipeReader,
    wanted: nat,
    received: Seq<u8>,
    succeeded: bool,
    chunk: &[u8],
    r: ReadStep,
    fresh: PipeReader,
    same: &PipeReader,
    asks: u64,
)
    requires
        same@ == old(p)@,
        call_ensures(PipeReader::request, (same,), asks),
        call_ensures(PipeReader::new, (), fresh),
        old(p)@ == (Progress::Body { wanted, received }),
        received.len() < wanted <= 1_048_576,
        call_ensures(PipeReader::read_message, (p, succeeded, chunk), r),
    ensures
        asks == wanted - received.len(),
        !succeeded || chunk@.len() == 0 ==> r is Broken && final(p)@ == fresh@,
        succeeded && 0 < chunk@.len() && received.len() + chunk@.len() < wanted ==> {
            &&& r == ReadStep::Read((wanted - received.len() - chunk@.len()) as u64)
            &&& final(p)@ == (Progress::Body { wanted, received: received + chunk@ })
        },
        succeeded && 0 < chunk@.len() && received.len() + chunk@.len() >= wanted ==> {
            &&& r matches ReadStep::Message(m)
            &&& m@ == received + chunk@
            &&& final(p)@ == fresh@
        },
{
}

// ---------------------------------------------------------------- events
/// An input event travels behind its type, which takes four bytes, and what
/// arrives has that type: 1 is the mouse, 2 a key, 3 the end, and anything
/// else is passed over. Messages without a byte of payload are no events.
pub proof fn event_arrives_as_it_was_sent(
    msg_type: u32,
    payload: &[u8],
    message: Vec<u8>,
    data: &[u8],
    r: Option<(bool, InputEvent)>,
    short: &[u8],
    of_short: Option<(bool, InputEvent)>,
)
    requires
        call_ensures(encode_input, (msg_type, payload), message),
        data@ == message@,
        call_ensures(read_input, (data,), r),
        short@.len() < 5,
        call_ensures(read_input, (short,), of_short),
    ensures
        of_short is None,
        four_bytes(message@.take(4)) == msg_type,
        message@.skip(4) == payload@,
        payload@.len() == 0 ==> r is None,
        payload@.len() > 0 ==> {
            &&& r matches Some((goes_on, event))
            &&& goes_on <==> msg_type != 3
            &&& msg_type == 1 ==> (event matches InputEvent::Mouse(p) && p@ == payload@)
            &&& msg_type == 2 ==> (event matches InputEvent::Key(p) && p@ == payload@)
            &&& msg_type == 3 ==> event is Shutdown
            &&& msg_type != 1 && msg_type != 2 && msg_type != 3 ==> event
                == InputEvent::Unknown(msg_type)
        },
{
    lemma_pow256();
    crate::wire::lemma_le_round_trip(msg_type as nat, 4);
    assert(message@.take(4) =~= le_bytes(msg_type as nat, 4));
    assert(message@.skip(4) =~= payload@);
    lemma_four_bytes(message@.take(4));
}

/// Events are told apart by their types.
pub proof fn type_tells_the_event(msg_type: u32, payload: &[u8], r: (bool, InputEvent))
    requires
        call_ensures(dispatch, (msg_type, payload), r),
    ensures
        r.0 <==> msg_type != 3,
        msg_type == 1 ==> (r.1 matches InputEvent::Mouse(p) && p@ == payload@),
        msg_type == 2 ==> (r.1 matches InputEvent::Key(p) && p@ == payload@),
        msg_type == 3 ==> r.1 is Shutdown,
        msg_type != 1 && msg_type != 2 && msg_type != 3 ==> r.1 == InputEvent::Unknown(msg_type),
{
}

/// The input thread injects what the mouse and the keys do, and nothing else;
/// the end of the service ends it, and a broken pipe ends the process.
pub proof fn input_is_injected(message: Option<&[u8]>, r: InputStep)
    requires
        call_ensures(input_step, (message,), r),
    ensures
        message is None ==> r == InputStep::EndProcess,
        message matches Some(data) ==> {
            let t = four_bytes(data@.take(4));
            &&& data@.len() < 5 ==> r == InputStep::ReadOn
            &&& data@.len() >= 5 && t == 1 ==> (r matches InputStep::Inject(InputEvent::Mouse(p))
                && p@ == data@.skip(4))
            &&& data@.len() >= 5 && t == 2 ==> (r matches InputStep::Inject(InputEvent::Key(p))
                && p@ == data@.skip(4))
            &&& data@.len() >= 5 && t == 3 ==> r == InputStep::EndThread
            &&& data@.len() >= 5 && t != 1 && t != 2 && t != 3 ==> r == InputStep::ReadOn
        },
{
    if message is Some && message->0@.len() >= 5 {
        let head = message->0@.take(4);
        lemma_four_bytes(head);
        lemma_le_value_bound(head);
        lemma_pow256();
    }
}

/// A key with a character is pressed or released as that character, where
/// there is such a character; a key without one goes to the general handler;
/// and what cannot be read is passed over.
pub proof fn key_is_pressed_or_released(event: Option<KeyEvent>, r: KeyAction)
    requires
        call_ensures(dispatch_key, (event,), r),
    ensures
        event is None ==> r == KeyAction::Ignore,
        event matches Some(e) ==> {
            &&& e.chr is None ==> r == KeyAction::Handle
            &&& e.chr matches Some(v) ==> {
                let exists_char = v <= 0xD7FF || (0xE000 <= v && v <= 0x10FFFF);
                &&& !exists_char ==> r == KeyAction::Ignore
                &&& exists_char && e.down ==> (r matches KeyAction::LayoutDown(c) && c as u32 == v)
                &&& exists_char && !e.down ==> (r matches KeyAction::LayoutUp(c) && c as u32 == v)
            }
        },
{
}

// ---------------------------------------------------------------- the pipe
/// The server of a pipe creates it, waits for its client, and writes message
/// after message, until the client or the sender is gone. A client that was
/// faster counts as connected.
pub proof fn pipe_is_served(s: &mut PipeServer, event: ServerEvent, r: ServerAction)
    requires
        call_ensures(PipeServer::step, (s, event), r),
    ensures
        event matches ServerEvent::Created(handle) ==> {
            &&& handle == -1 ==> r == ServerAction::End && *final(s) == PipeServer::Ended
            &&& handle != -1 ==> r == ServerAction::Connect && *final(s) == PipeServer::Connecting
        },
        event matches ServerEvent::Connected(ret, error) ==> {
            &&& ret != 0 || error == 535 ==> r == ServerAction::Receive && *final(s)
                == PipeServer::Receiving
            &&& ret == 0 && error != 535 ==> r == ServerAction::CloseAndEnd && *final(s)
                == PipeServer::Ended
        },
        event is SenderClosed ==> r == ServerAction::CloseAndEnd && *final(s) == PipeServer::Ended,
        event matches ServerEvent::Written(ret) ==> {
            &&& ret != 0 ==> r == ServerAction::Receive && *final(s) == PipeServer::Receiving
            &&& ret == 0 ==> r == ServerAction::CloseAndEnd && *final(s) == PipeServer::Ended
        },
        event is Data ==> *final(s) == PipeServer::Writing,
{
}

/// What the server of a pipe writes is the packet of the message.
pub proof fn server_writes_the_packet(
    s: &mut PipeServer,
    data: Vec<u8>,
    r: ServerAction,
    slice: &[u8],
    packet: Vec<u8>,
    first: (PipeServer, ServerAction),
)
    requires
        call_ensures(PipeServer::step, (s, ServerEvent::Data(data)), r),
        slice@ == data@,
        call_ensures(encode_pipe_message, (slice,), packet),
        call_ensures(create_pipe_server, (), first),
    ensures
        r matches ServerAction::Write(bytes) && bytes@ == packet@,
        first.0 == PipeServer::Creating && first.1 == ServerAction::Create,
{
}

/// A client tries ten times for each second that it has, and stops at the
/// first handle that is one.
pub proof fn client_tries_for_its_time(
    seconds: u32,
    c: PipeConnect,
    left: &mut PipeConnect,
    again: bool,
    at: &PipeConnect,
    handle: isize,
    got: Option<isize>,
)
    requires
        call_ensures(connect_pipe_client, (seconds,), c),
        call_ensures(PipeConnect::may_try, (left,), again),
        call_ensures(PipeConnect::opened, (at, handle), got),
    ensures
        c.attempts_left == 10 * seconds,
        again <==> old(left).attempts_left > 0,
        again ==> final(left).attempts_left == old(left).attempts_left - 1,
        !again ==> final(left).attempts_left == 0,
        handle == -1 ==> got is None,
        handle != -1 ==> got == Some(handle),
{
}

/// Input goes to the sender that was set last, unchanged; before there is one
/// it goes nowhere.
pub proof fn input_goes_to_the_sender<'a, T>(
    slot: &mut Option<T>,
    tx: T,
    held: &'a Option<T>,
    msg: Vec<u8>,
    r: Option<(&'a T, Vec<u8>)>,
)
    requires
        call_ensures(set_down_tx::<T>, (slot, tx), ()),
        call_ensures(try_send_input::<T>, (held, msg), r),
    ensures
        *final(slot) == Some(tx),
        *held is None ==> r is None,
        *held matches Some(sender) ==> (r matches Some((to, m)) && *to == sender && m == msg),
{
}

// ---------------------------------------------------------------- rates
/// Events are counted one by one, and reported, with the time that they
/// took, once a second has gone by.
pub proof fn events_are_counted(
    t: &mut RateTracker,
    now: u64,
    r: Option<(u64, u64)>,
    fresh: RateTracker,
)
    requires
        call_ensures(RateTracker::tick, (t, now), r),
        old(t).count < u64::MAX,
        call_ensures(RateTracker::new, (now,), fresh),
    ensures
        now - old(t).last_log >= 1_000_000_000 ==> {
            &&& r == Some(((old(t).count + 1) as u64, (now - old(t).last_log) as u64))
            &&& *final(t) == fresh
        },
        now - old(t).last_log < 1_000_000_000 ==> {
            &&& r is None
            &&& final(t).count == old(t).count + 1
            &&& final(t).last_log == old(t).last_log
        },
        fresh.count == 0 && fresh.last_log == now,
{
}

/// The cost of mouse events is added up, in 64 bits, and averaged over all of
/// them with every hundredth.
pub proof fn costs_are_averaged(
    s: &mut MouseStats,
    parse: u64,
    handled: u64,
    r: Option<(u64, u64, u64)>,
    fresh: MouseStats,
)
    requires
        call_ensures(MouseStats::record, (s, parse, handled), r),
        old(s).count < u64::MAX,
        call_ensures(MouseStats::new, (), fresh),
    ensures
        final(s).count == old(s).count + 1,
        final(s).parse_total == (old(s).parse_total + parse) % 0x1_0000_0000_0000_0000,
        final(s).handle_total == (old(s).handle_total + handled) % 0x1_0000_0000_0000_0000,
        r is Some <==> (old(s).count + 1) % 100 == 0,
        r matches Some((n, p, h)) ==> {
            &&& n == old(s).count + 1
            &&& p == final(s).parse_total as int / (old(s).count + 1)
            &&& h == final(s).handle_total as int / (old(s).count + 1)
        },
        fresh.count == 0 && fresh.parse_total == 0 && fresh.handle_total == 0,
{
}

} // verus!
