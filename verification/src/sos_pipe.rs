//! Messages over the named pipe.
//!
//! A message travels as its length, in four little-endian bytes, and its
//! bytes. The functions here decide; the caller makes the system calls.

use vstd::prelude::*;

use crate::wire::{get_le, put_le};
use crate::wire::{le_bytes, le_value, lemma_le_bytes_len, lemma_le_round_trip, lemma_pow256};

verus! {

/// The handle that a failed open gives.
pub const INVALID_HANDLE_VALUE: isize = -1;

/// Access of a pipe server that only writes.
pub const PIPE_ACCESS_OUTBOUND: u32 = 2;

/// Mode of a pipe server: blocking, and whole messages both ways.
pub const PIPE_MODE: u32 = 6;

/// The error of a connect whose client was faster.
pub const ERROR_PIPE_CONNECTED: u32 = 535;

/// The longest message that a reader accepts.
pub const MAX_MESSAGE: u64 = 1_048_576;

// ---------------------------------------------------------------- writing
/// The packet of a message: its length modulo 2^32, and its bytes.
pub open spec fn packet_of(data: Seq<u8>) -> Seq<u8> {
    le_bytes(data.len() % 0x1_0000_0000, 4) + data
}

/// The packet that carries `data`.
pub fn encode_pipe_message(data: &[u8]) -> (packet: Vec<u8>)
    requires
        data@.len() + 4 <= usize::MAX,
    ensures
        packet@ == packet_of(data@),
        packet@.len() == data@.len() + 4,
{
    proof {
        lemma_le_bytes_len(data@.len() % 0x1_0000_0000, 4);
    }
    let mut packet: Vec<u8> = put_le(data.len() as u64 % 0x1_0000_0000, 4);
    packet.extend_from_slice(data);
    proof {
        assert(packet@ =~= packet_of(data@));
    }
    packet
}

// ---------------------------------------------------------------- reading
/// What a reader wants next, or has found.
#[derive(Debug, PartialEq, Eq)]
pub enum ReadStep {
    /// Ask the pipe for up to this many bytes.
    Read(u64),
    /// A message is complete.
    Message(Vec<u8>),
    /// The pipe is broken.
    Broken,
}

/// What a reader wants next, or has found, as a value of the model.
pub ghost enum ReadOutcome {
    Read(nat),
    Message(Seq<u8>),
    Broken,
}

impl View for ReadStep {
    type V = ReadOutcome;

    open spec fn view(&self) -> ReadOutcome {
        match *self {
            ReadStep::Read(n) => ReadOutcome::Read(n as nat),
            ReadStep::Message(m) => ReadOutcome::Message(m@),
            ReadStep::Broken => ReadOutcome::Broken,
        }
    }
}

/// Where a reader stands: before a length, or within the bytes of a message.
pub ghost enum Progress {
    Length,
    Body { wanted: nat, received: Seq<u8> },
}

/// The bytes that a reader asks for.
pub open spec fn wants(p: Progress) -> nat {
    match p {
        Progress::Length => 4,
        Progress::Body { wanted, received } => (wanted - received.len()) as nat,
    }
}

/// One read of the pipe: `None` if the call failed, else the bytes that came.
pub open spec fn read_step(p: Progress, came: Option<Seq<u8>>) -> (Progress, ReadOutcome) {
    match came {
        None => (Progress::Length, ReadOutcome::Broken),
        Some(chunk) => match p {
            Progress::Length => {
                let n = le_value(chunk);
                if chunk.len() != 4 || n > MAX_MESSAGE {
                    (Progress::Length, ReadOutcome::Broken)
                } else if n == 0 {
                    (Progress::Length, ReadOutcome::Message(Seq::empty()))
                } else {
                    (Progress::Body { wanted: n, received: Seq::empty() }, ReadOutcome::Read(n))
                }
            },
            Progress::Body { wanted, received } => {
                let all = received + chunk;
                if chunk.len() == 0 {
                    (Progress::Length, ReadOutcome::Broken)
                } else if all.len() < wanted {
                    (
                        Progress::Body { wanted, received: all },
                        ReadOutcome::Read((wanted - all.len()) as nat),
                    )
                } else {
                    (Progress::Length, ReadOutcome::Message(all))
                }
            },
        },
    }
}

/// Puts messages together from what single reads of a pipe deliver.
pub struct PipeReader {
    wanted: Option<u64>,
    received: Vec<u8>,
}

impl View for PipeReader {
    type V = Progress;

    closed spec fn view(&self) -> Progress {
        match self.wanted {
            None => Progress::Length,
            Some(n) => Progress::Body { wanted: n as nat, received: self.received@ },
        }
    }
}

impl PipeReader {
    /// Within a message something is still missing; between messages nothing
    /// is kept.
    #[verifier::type_invariant]
    spec fn is_partial(self) -> bool {
        match self.wanted {
            None => self.received@.len() == 0,
            Some(n) => self.received@.len() < n <= MAX_MESSAGE,
        }
    }

    /// A reader before its first message.
    pub fn new() -> (r: Self)
        ensures
            r@ == Progress::Length,
    {
        PipeReader { wanted: None, received: Vec::new() }
    }

    /// The number of bytes to ask the pipe for.
    pub fn request(&self) -> (r: u64)
        ensures
            r == wants(self@),
            r > 0,
    {
        proof {
            use_type_invariant(self);
        }
        match self.wanted {
            None => 4,
            Some(n) => n - self.received.len() as u64,
        }
    }

    /// Takes the outcome of one read: whether the call succeeded, and the
    /// bytes that it delivered, at most as many as were asked for.
    pub fn read_message(&mut self, succeeded: bool, chunk: &[u8]) -> (r: ReadStep)
        requires
            chunk@.len() <= wants(old(self)@),
        ensures
            (final(self)@, r@) == read_step(
                old(self)@,
                if succeeded {
                    Some(chunk@)
                } else {
                    None
                },
            ),
    {
        proof {
            use_type_invariant(&*self);
        }
        if !succeeded {
            self.received = Vec::new();
            self.wanted = None;
            return ReadStep::Broken;
        }
        match self.wanted {
            None => {
                if chunk.len() != 4 {
                    return ReadStep::Broken;
                }
                let n: u64 = get_le(chunk);
                if n > MAX_MESSAGE {
                    return ReadStep::Broken;
                }
                if n == 0 {
                    return ReadStep::Message(Vec::new());
                }
                self.wanted = Some(n);
                proof {
                    assert(self.received@ =~= Seq::<u8>::empty());
                }
                ReadStep::Read(n)
            },
            Some(n) => {
                if chunk.len() == 0 {
                    self.received = Vec::new();
                    self.wanted = None;
                    return ReadStep::Broken;
                }
                let mut all: Vec<u8> = Vec::new();
                std::mem::swap(&mut all, &mut self.received);
                all.extend_from_slice(chunk);
                proof {
                    assert(all@ =~= old(self).received@ + chunk@);
                }
                if (all.len() as u64) < n {
                    let missing: u64 = n - all.len() as u64;
                    self.received = all;
                    ReadStep::Read(missing)
                } else {
                    self.wanted = None;
                    ReadStep::Message(all)
                }
            },
        }
    }
}

/// All chunks in a row.
pub open spec fn flatten(chunks: Seq<Seq<u8>>) -> Seq<u8>
    decreases chunks.len(),
{
    if chunks.len() == 0 {
        Seq::empty()
    } else {
        flatten(chunks.drop_last()) + chunks.last()
    }
}

/// Where a reader stands after successful reads that delivered `chunks`.
pub open spec fn progress_after(p: Progress, chunks: Seq<Seq<u8>>) -> Progress
    decreases chunks.len(),
{
    if chunks.len() == 0 {
        p
    } else {
        read_step(progress_after(p, chunks.drop_last()), Some(chunks.last())).0
    }
}

proof fn lemma_partial_body(wanted: nat, chunks: Seq<Seq<u8>>)
    requires
        forall|i: int| 0 <= i < chunks.len() ==> (#[trigger] chunks[i]).len() > 0,
        flatten(chunks).len() < wanted,
    ensures
        progress_after(Progress::Body { wanted, received: Seq::empty() }, chunks)
            == (Progress::Body { wanted, received: flatten(chunks) }),
    decreases chunks.len(),
{
    let start = Progress::Body { wanted, received: Seq::<u8>::empty() };
    if chunks.len() > 0 {
        let init = chunks.drop_last();
        assert forall|i: int| 0 <= i < init.len() implies (#[trigger] init[i]).len() > 0 by {
            assert(init[i] == chunks[i]);
        }
        lemma_partial_body(wanted, init);
        assert(chunks.last().len() > 0);
    }
}

/// A message that was written as one packet is read back as it was, in
/// however many pieces its bytes arrive: the length asks for all of them, and
/// the last piece completes the message.
pub proof fn pipe_round_trip(data: Seq<u8>, chunks: Seq<Seq<u8>>)
    requires
        0 < data.len() <= MAX_MESSAGE,
        forall|i: int| 0 <= i < chunks.len() ==> (#[trigger] chunks[i]).len() > 0,
        flatten(chunks) == data,
    ensures
        packet_of(data).skip(4) == data,
        ({
            let (body, first) = read_step(Progress::Length, Some(packet_of(data).take(4)));
            &&& first == ReadOutcome::Read(data.len())
            &&& chunks.len() > 0
            &&& read_step(progress_after(body, chunks.drop_last()), Some(chunks.last())) == (
                Progress::Length,
                ReadOutcome::Message(data),
            )
        }),
{
    let n = data.len();
    lemma_pow256();
    lemma_le_round_trip(n, 4);
    assert(n % 0x1_0000_0000 == n);
    assert(packet_of(data).take(4) =~= le_bytes(n, 4));
    assert(packet_of(data).skip(4) =~= data);
    assert(chunks.len() > 0);
    let init = chunks.drop_last();
    assert forall|i: int| 0 <= i < init.len() implies (#[trigger] init[i]).len() > 0 by {
        assert(init[i] == chunks[i]);
    }
    assert(chunks.last().len() > 0);
    lemma_partial_body(n, init);
}

/// An empty message is complete with its length.
pub proof fn pipe_round_trip_empty()
    ensures
        read_step(Progress::Length, Some(packet_of(Seq::empty()))) == (
            Progress::Length,
            ReadOutcome::Message(Seq::empty()),
        ),
{
    lemma_pow256();
    lemma_le_round_trip(0, 4);
    assert(packet_of(Seq::empty()) =~= le_bytes(0, 4));
}

/// A message that is too long is refused as soon as its length is read.
pub proof fn pipe_refuses_long_messages(data: Seq<u8>)
    requires
        MAX_MESSAGE < data.len() < 0x1_0000_0000,
    ensures
        read_step(Progress::Length, Some(packet_of(data).take(4))).1 == ReadOutcome::Broken,
{
    let n = data.len();
    lemma_pow256();
    lemma_le_round_trip(n, 4);
    assert(n % 0x1_0000_0000 == n);
    assert(packet_of(data).take(4) =~= le_bytes(n, 4));
}

// ---------------------------------------------------------------- client
/// The attempts that are left to connect as a client.
pub struct PipeConnect {
    pub attempts_left: u32,
}

/// Connecting as a client: one attempt each tenth of a second.
pub fn connect_pipe_client(timeout_secs: u32) -> (r: PipeConnect)
    requires
        timeout_secs * 10 <= u32::MAX,
    ensures
        r.attempts_left == timeout_secs * 10,
{
    PipeConnect { attempts_left: timeout_secs * 10 }
}

impl PipeConnect {
    /// Whether another attempt may be made; if so, it is counted.
    pub fn may_try(&mut self) -> (r: bool)
        ensures
            r == (old(self).attempts_left > 0),
            final(self).attempts_left == (if r {
                old(self).attempts_left - 1
            } else {
                0
            }),
    {
        if self.attempts_left > 0 {
            self.attempts_left = self.attempts_left - 1;
            true
        } else {
            false
        }
    }

    /// The outcome of an attempt: a usable handle ends the attempts.
    pub fn opened(&self, handle: isize) -> (r: Option<isize>)
        ensures
            r == (if handle != INVALID_HANDLE_VALUE {
                Some(handle)
            } else {
                None
            }),
    {
        if handle != INVALID_HANDLE_VALUE {
            Some(handle)
        } else {
            None
        }
    }
}

// ---------------------------------------------------------------- server
/// What the server thread does next.
#[derive(Debug, PartialEq, Eq)]
pub enum ServerAction {
    /// Create the pipe.
    Create,
    /// Wait for the client.
    Connect,
    /// Wait for the next message to send.
    Receive,
    /// Write these bytes.
    Write(Vec<u8>),
    /// Close the pipe and end the thread.
    CloseAndEnd,
    /// End the thread; there is no pipe to close.
    End,
}

/// What came of it.
#[derive(Debug, PartialEq, Eq)]
pub enum ServerEvent {
    /// The pipe was created, with this handle.
    Created(isize),
    /// The wait for the client returned this, with this last error.
    Connected(i32, u32),
    /// A message is to be sent.
    Data(Vec<u8>),
    /// No more messages will come.
    SenderClosed,
    /// The write returned this.
    Written(i32),
}

/// Where the server thread stands.
#[derive(Debug, Clone, Copy, PartialEq, Eq, Structural)]
pub enum PipeServer {
    Creating,
    Connecting,
    Receiving,
    Writing,
    Ended,
}

/// The server thread at its start, and what it does first.
pub fn create_pipe_server() -> (r: (PipeServer, ServerAction))
    ensures
        r == (PipeServer::Creating, ServerAction::Create),
{
    (PipeServer::Creating, ServerAction::Create)
}

impl PipeServer {
    /// Whether `event` is one that the thread is waiting for.
    pub open spec fn expects(self, event: ServerEvent) -> bool {
        match event {
            ServerEvent::Created(_) => self == PipeServer::Creating,
            ServerEvent::Connected(_, _) => self == PipeServer::Connecting,
            ServerEvent::Data(d) => self == PipeServer::Receiving && d@.len() + 4 <= usize::MAX,
            ServerEvent::SenderClosed => self == PipeServer::Receiving,
            ServerEvent::Written(_) => self == PipeServer::Writing,
        }
    }

    /// Whether the thread holds an open pipe.
    pub open spec fn holds_pipe(self) -> bool {
        self == PipeServer::Connecting || self == PipeServer::Receiving || self
            == PipeServer::Writing
    }

    /// Takes the outcome of the last action and says what to do next. The
    /// pipe serves one client, until a write fails or no message can come.
    pub fn step(&mut self, event: ServerEvent) -> (r: ServerAction)
        requires
            old(self).expects(event),
        ensures
            match event {
                ServerEvent::Created(handle) => if handle == INVALID_HANDLE_VALUE {
                    r == ServerAction::End && *final(self) == PipeServer::Ended
                } else {
                    r == ServerAction::Connect && *final(self) == PipeServer::Connecting
                },
                ServerEvent::Connected(ret, last_error) => if ret == 0 && last_error
                    != ERROR_PIPE_CONNECTED {
                    r == ServerAction::CloseAndEnd && *final(self) == PipeServer::Ended
                } else {
                    r == ServerAction::Receive && *final(self) == PipeServer::Receiving
                },
                ServerEvent::Data(data) => {
                    &&& r matches ServerAction::Write(packet)
                    &&& packet@ == packet_of(data@)
                    &&& *final(self) == PipeServer::Writing
                },
                ServerEvent::SenderClosed => r == ServerAction::CloseAndEnd && *final(self)
                    == PipeServer::Ended,
                ServerEvent::Written(ret) => if ret == 0 {
                    r == ServerAction::CloseAndEnd && *final(self) == PipeServer::Ended
                } else {
                    r == ServerAction::Receive && *final(self) == PipeServer::Receiving
                },
            },
            // the pipe is closed exactly when the thread ends with one open
            r == ServerAction::CloseAndEnd <==> (old(self).holds_pipe() && *final(self)
                == PipeServer::Ended),
    {
        match event {
            ServerEvent::Created(handle) => {
                if handle == INVALID_HANDLE_VALUE {
                    *self = PipeServer::Ended;
                    ServerAction::End
                } else {
                    *self = PipeServer::Connecting;
                    ServerAction::Connect
                }
            },
            ServerEvent::Connected(ret, last_error) => {
                if ret == 0 && last_error != ERROR_PIPE_CONNECTED {
                    *self = PipeServer::Ended;
                    ServerAction::CloseAndEnd
                } else {
                    *self = PipeServer::Receiving;
                    ServerAction::Receive
                }
            },
            ServerEvent::Data(data) => {
                *self = PipeServer::Writing;
                ServerAction::Write(encode_pipe_message(data.as_slice()))
            },
            ServerEvent::SenderClosed => {
                *self = PipeServer::Ended;
                ServerAction::CloseAndEnd
            },
            ServerEvent::Written(ret) => {
                if ret == 0 {
                    *self = PipeServer::Ended;
                    ServerAction::CloseAndEnd
                } else {
                    *self = PipeServer::Receiving;
                    ServerAction::Receive
                }
            },
        }
    }
}

// ---------------------------------------------------------------- sender
/// Makes `tx` the sender of input messages, in place of any earlier one.
pub fn set_down_tx<T>(slot: &mut Option<T>, tx: T)
    ensures
        *final(slot) == Some(tx),
{
    *slot = Some(tx);
}

/// The sender that is to send `msg`, and `msg`; nothing if there is none yet.
pub fn try_send_input<T>(slot: &Option<T>, msg: Vec<u8>) -> (r: Option<(&T, Vec<u8>)>)
    ensures
        r is Some <==> slot is Some,
        r matches Some((tx, m)) ==> *tx == slot->0 && m == msg,
{
    match slot {
        Some(tx) => Some((tx, msg)),
        None => None,
    }
}

} // verus!
