//! Registration with the rendezvous server, and the ways in which peers
//! come.
//!
//! The functions here decide; the caller exchanges the messages.

use vstd::prelude::*;
use vstd::utf8::{encode_utf8, valid_utf8};

use crate::keys::KeyPair;
use crate::random::random_text;
use crate::sos_config::{keys_in_use, memory_after, Stored};
use crate::sos_config::{set_nat_type, RegistryConfig, SosConfig};
use crate::sos_constants::{REG_INTERVAL, RELAY_PORT, RENDEZVOUS_PORT};
use crate::sos_input::elapsed;
use crate::text::{copy_bytes, decimal, is_alphanumeric};

verus! {

// ---------------------------------------------------------------- loop
/// The registration interval, in nanoseconds.
pub const REG_INTERVAL_NS: u64 = 15_000_000_000;

/// How long the server is listened to at a time, in milliseconds.
pub const LISTEN_TIMEOUT: u64 = 5_000;

/// How long to wait after a failed reconnection, in milliseconds.
pub const RECONNECT_DELAY: u64 = 5_000;

/// The number of the first registration.
pub const FIRST_SERIAL: u32 = 0;

/// How far the registration of this device has come.
#[derive(Debug, Clone, Copy, PartialEq, Eq, Structural)]
pub enum RegPhase {
    /// The server is connected, and nothing was sent yet.
    New,
    /// The first registration is being sent.
    First,
    /// The public key is being registered for the first time.
    Key,
    /// The device is registered, and again in every round that it is time to.
    Running,
    /// The first registration could not be sent.
    Failed,
}

/// The registration of this device.
#[derive(Debug, Clone, Copy, PartialEq, Eq, Structural)]
pub struct Registration {
    pub phase: RegPhase,
    /// The number of the next registration. It wraps around.
    pub serial: u32,
    /// When the last registration was, in nanoseconds.
    pub last_reg: u64,
}

/// What happens to the registration.
#[derive(Debug, Clone, Copy, PartialEq, Eq, Structural)]
pub enum RegEvent {
    /// The server is connected.
    Start,
    /// The first registration was sent, or it could not be.
    FirstSent(bool),
    /// The public key was registered, or it could not be, or there is none.
    KeySent(bool),
    /// A peer does not know the public key.
    KeyWanted,
    /// A round begins.
    Round,
    /// The registration of a round was sent, or it could not be.
    HeartbeatSent(bool),
    /// A message of the server came; whether it can be read.
    Received(bool),
    /// Receiving failed.
    ReceiveError,
    /// Nothing came in time.
    ReceiveTimeout,
    /// The connection to the server is closed.
    ConnectionClosed,
    /// There is a new connection, or there is none.
    Reconnected(bool),
    /// The registration after that was sent, or it could not be.
    ReregisterSent(bool),
}

/// A registration, as the server gets it.
#[derive(Debug, PartialEq, Eq)]
pub struct RegisterPeer {
    pub id: String,
    pub serial: i32,
}

/// What to do for the registration.
#[derive(Debug, PartialEq, Eq)]
pub enum RegAction {
    /// Send the first registration, and come back with `FirstSent`.
    SendFirst(RegisterPeer),
    /// Register the public key, as `send_register_pk` says, and come back
    /// with `KeySent`.
    RegisterKey,
    /// Find out the kind of NAT, beside everything else; then the first
    /// round.
    TestNat,
    /// Send the registration of a round, and come back with `HeartbeatSent`.
    SendHeartbeat(RegisterPeer),
    /// Listen to the server for up to this many milliseconds.
    Listen(u64),
    /// Let `handle_rendezvous_message` see the message; then the next round.
    HandleMessage,
    /// Connect anew, and come back with `Reconnected`.
    Reconnect,
    /// Send a registration, and come back with `ReregisterSent`.
    SendReregister(RegisterPeer),
    /// Begin the next round after this many milliseconds.
    NextRound(u64),
    /// End with an error.
    Fail,
    /// Nothing.
    Nothing,
}

/// What to do for the registration, in the model.
pub ghost enum RegDeed {
    SendFirst { id: Seq<char>, serial: i32 },
    RegisterKey,
    TestNat,
    SendHeartbeat { id: Seq<char>, serial: i32 },
    Listen(u64),
    HandleMessage,
    Reconnect,
    SendReregister { id: Seq<char>, serial: i32 },
    NextRound(u64),
    Fail,
    Nothing,
}

impl View for RegAction {
    type V = RegDeed;

    open spec fn view(&self) -> RegDeed {
        match *self {
            RegAction::SendFirst(p) => RegDeed::SendFirst { id: p.id@, serial: p.serial },
            RegAction::RegisterKey => RegDeed::RegisterKey,
            RegAction::TestNat => RegDeed::TestNat,
            RegAction::SendHeartbeat(p) => RegDeed::SendHeartbeat { id: p.id@, serial: p.serial },
            RegAction::Listen(ms) => RegDeed::Listen(ms),
            RegAction::HandleMessage => RegDeed::HandleMessage,
            RegAction::Reconnect => RegDeed::Reconnect,
            RegAction::SendReregister(p) => RegDeed::SendReregister {
                id: p.id@,
                serial: p.serial,
            },
            RegAction::NextRound(ms) => RegDeed::NextRound(ms),
            RegAction::Fail => RegDeed::Fail,
            RegAction::Nothing => RegDeed::Nothing,
        }
    }
}

/// The number of a registration as the protocol has it.
pub open spec fn serial_number(serial: u32) -> i32 {
    if serial < 0x8000_0000 {
        serial as i32
    } else {
        (serial - 0x1_0000_0000) as i32
    }
}

/// The number after that of a registration.
pub open spec fn next_serial(serial: u32) -> u32 {
    if serial == u32::MAX {
        0
    } else {
        (serial + 1) as u32
    }
}

/// How the registration goes on after an event, and what is to be done. `id`
/// is the identifier of the device at this time. An event that does not
/// belong to the phase changes nothing.
pub open spec fn reg_step(r: Registration, event: RegEvent, now: u64, id: Seq<char>) -> (
    Registration,
    RegDeed,
) {
    match r.phase {
        RegPhase::New => if event == RegEvent::Start {
            (
                Registration { phase: RegPhase::First, serial: next_serial(r.serial), ..r },
                RegDeed::SendFirst { id, serial: serial_number(r.serial) },
            )
        } else {
            (r, RegDeed::Nothing)
        },
        RegPhase::First => match event {
            RegEvent::FirstSent(ok) => if ok {
                (Registration { phase: RegPhase::Key, ..r }, RegDeed::RegisterKey)
            } else {
                (Registration { phase: RegPhase::Failed, ..r }, RegDeed::Fail)
            },
            _ => (r, RegDeed::Nothing),
        },
        RegPhase::Key => match event {
            RegEvent::KeySent(_) => (
                Registration { phase: RegPhase::Running, last_reg: now, ..r },
                RegDeed::TestNat,
            ),
            _ => (r, RegDeed::Nothing),
        },
        RegPhase::Running => running_reg_step(r, event, now, id),
        RegPhase::Failed => (r, RegDeed::Nothing),
    }
}

/// How the registration of a registered device goes on.
pub open spec fn running_reg_step(r: Registration, event: RegEvent, now: u64, id: Seq<char>) -> (
    Registration,
    RegDeed,
) {
    match event {
        RegEvent::Start => (r, RegDeed::Nothing),
        RegEvent::FirstSent(_) => (r, RegDeed::Nothing),
        RegEvent::KeySent(_) => (r, RegDeed::NextRound(0)),
        RegEvent::KeyWanted => (r, RegDeed::RegisterKey),
        RegEvent::Round => if elapsed(r.last_reg, now) >= REG_INTERVAL_NS {
            (
                Registration { serial: next_serial(r.serial), ..r },
                RegDeed::SendHeartbeat { id, serial: serial_number(r.serial) },
            )
        } else {
            (r, RegDeed::Listen(LISTEN_TIMEOUT))
        },
        RegEvent::HeartbeatSent(ok) => (
            if ok {
                Registration { last_reg: now, ..r }
            } else {
                r
            },
            RegDeed::Listen(LISTEN_TIMEOUT),
        ),
        RegEvent::Received(readable) => (
            r,
            if readable {
                RegDeed::HandleMessage
            } else {
                RegDeed::NextRound(0)
            },
        ),
        RegEvent::ReceiveError => (r, RegDeed::NextRound(0)),
        RegEvent::ReceiveTimeout => (r, RegDeed::NextRound(0)),
        RegEvent::ConnectionClosed => (r, RegDeed::Reconnect),
        RegEvent::Reconnected(ok) => if ok {
            (
                Registration { serial: next_serial(r.serial), ..r },
                RegDeed::SendReregister { id, serial: serial_number(r.serial) },
            )
        } else {
            (r, RegDeed::NextRound(RECONNECT_DELAY))
        },
        RegEvent::ReregisterSent(_) => (
            Registration { last_reg: now, ..r },
            RegDeed::NextRound(0),
        ),
    }
}

/// The registration of a device under a number.
pub fn send_register_peer(device_id: &str, serial: u32) -> (r: RegisterPeer)
    ensures
        r.id@ == device_id@,
        r.serial == serial_number(serial),
{
    let number: i32 = if serial < 0x8000_0000 {
        serial as i32
    } else {
        (serial as i64 - 0x1_0000_0000) as i32
    };
    RegisterPeer { id: String::from_str(device_id), serial: number }
}

/// The registration before anything was sent.
pub fn run() -> (r: Registration)
    ensures
        r == (Registration { phase: RegPhase::New, serial: FIRST_SERIAL, last_reg: 0 }),
{
    Registration { phase: RegPhase::New, serial: FIRST_SERIAL, last_reg: 0 }
}

impl Registration {
    /// Takes an event, and says what to do. `device_id` is the identifier of
    /// the device at this time. The clock is in nanoseconds and does not go
    /// back.
    pub fn step(&mut self, event: RegEvent, now: u64, device_id: &str) -> (r: RegAction)
        ensures
            (*final(self), r@) == reg_step(*old(self), event, now, device_id@),
    {
        match self.phase {
            RegPhase::New => match event {
                RegEvent::Start => {
                    self.phase = RegPhase::First;
                    RegAction::SendFirst(self.next_registration(device_id))
                },
                _ => RegAction::Nothing,
            },
            RegPhase::First => match event {
                RegEvent::FirstSent(ok) => {
                    if ok {
                        self.phase = RegPhase::Key;
                        RegAction::RegisterKey
                    } else {
                        self.phase = RegPhase::Failed;
                        RegAction::Fail
                    }
                },
                _ => RegAction::Nothing,
            },
            RegPhase::Key => match event {
                RegEvent::KeySent(_) => {
                    self.phase = RegPhase::Running;
                    self.last_reg = now;
                    RegAction::TestNat
                },
                _ => RegAction::Nothing,
            },
            RegPhase::Running => self.running_step(event, now, device_id),
            RegPhase::Failed => RegAction::Nothing,
        }
    }

    /// The registration under the next number, which it uses up.
    fn next_registration(&mut self, device_id: &str) -> (r: RegisterPeer)
        ensures
            r.id@ == device_id@,
            r.serial == serial_number(old(self).serial),
            *final(self) == (Registration {
                serial: next_serial(old(self).serial),
                ..*old(self)
            }),
    {
        let serial: u32 = self.serial;
        self.serial = serial.wrapping_add(1);
        send_register_peer(device_id, serial)
    }

    /// Takes an event of a registered device.
    fn running_step(&mut self, event: RegEvent, now: u64, device_id: &str) -> (r: RegAction)
        ensures
            (*final(self), r@) == running_reg_step(*old(self), event, now, device_id@),
    {
        match event {
            RegEvent::Start => RegAction::Nothing,
            RegEvent::FirstSent(_) => RegAction::Nothing,
            RegEvent::KeySent(_) => RegAction::NextRound(0),
            RegEvent::KeyWanted => RegAction::RegisterKey,
            RegEvent::Round => {
                if now.saturating_sub(self.last_reg) >= REG_INTERVAL_NS {
                    RegAction::SendHeartbeat(self.next_registration(device_id))
                } else {
                    RegAction::Listen(LISTEN_TIMEOUT)
                }
            },
            RegEvent::HeartbeatSent(ok) => {
                if ok {
                    self.last_reg = now;
                }
                RegAction::Listen(LISTEN_TIMEOUT)
            },
            RegEvent::Received(readable) => {
                if readable {
                    RegAction::HandleMessage
                } else {
                    RegAction::NextRound(0)
                }
            },
            RegEvent::ReceiveError => RegAction::NextRound(0),
            RegEvent::ReceiveTimeout => RegAction::NextRound(0),
            RegEvent::ConnectionClosed => RegAction::Reconnect,
            RegEvent::Reconnected(ok) => {
                if ok {
                    RegAction::SendReregister(self.next_registration(device_id))
                } else {
                    RegAction::NextRound(RECONNECT_DELAY)
                }
            },
            RegEvent::ReregisterSent(_) => {
                self.last_reg = now;
                RegAction::NextRound(0)
            },
        }
    }
}

/// A device that was registered less than the interval ago does not register
/// again by itself, and one that was not does, in the next round; a failure
/// is made up for in the round after.
pub proof fn registers_in_time(r: Registration, now: u64, later: u64, id: Seq<char>)
    requires
        r.phase == RegPhase::Running,
        now <= later,
    ensures
        REG_INTERVAL_NS == REG_INTERVAL * 1_000_000,
        reg_step(r, RegEvent::Round, now, id).1 is SendHeartbeat <==> elapsed(r.last_reg, now)
            >= REG_INTERVAL_NS,
        ({
            let (sent, _) = reg_step(r, RegEvent::Round, now, id);
            let (failed, _) = reg_step(sent, RegEvent::HeartbeatSent(false), now, id);
            elapsed(r.last_reg, now) >= REG_INTERVAL_NS ==> reg_step(
                failed,
                RegEvent::Round,
                later,
                id,
            ).1 is SendHeartbeat
        }),
        ({
            let (sent, _) = reg_step(r, RegEvent::Round, now, id);
            let (done, _) = reg_step(sent, RegEvent::HeartbeatSent(true), now, id);
            later - now < REG_INTERVAL_NS ==> !(reg_step(done, RegEvent::Round, later, id).1
                is SendHeartbeat)
        }),
{
}

/// Something in the course of a registration.
pub ghost enum Happening {
    /// An event, at its time.
    Event(RegEvent, u64),
    /// The device takes another identifier.
    NewId(Seq<char>),
}

/// The identifier of a device that began with `id`.
pub open spec fn present_id(id: Seq<char>, course: Seq<Happening>) -> Seq<char>
    decreases course.len(),
{
    if course.len() == 0 {
        id
    } else {
        match course.last() {
            Happening::NewId(new) => new,
            Happening::Event(_, _) => present_id(id, course.drop_last()),
        }
    }
}

/// What a deed sends, if it is a registration.
pub open spec fn registration_in(deed: RegDeed) -> Option<(Seq<char>, i32)> {
    match deed {
        RegDeed::SendFirst { id, serial } => Some((id, serial)),
        RegDeed::SendHeartbeat { id, serial } => Some((id, serial)),
        RegDeed::SendReregister { id, serial } => Some((id, serial)),
        _ => None,
    }
}

/// The registration after a course, and all registrations that were sent,
/// each with its identifier and its number.
pub open spec fn reg_course(r: Registration, id: Seq<char>, course: Seq<Happening>) -> (
    Registration,
    Seq<(Seq<char>, i32)>,
)
    decreases course.len(),
{
    if course.len() == 0 {
        (r, Seq::empty())
    } else {
        let init = course.drop_last();
        let (before, sent) = reg_course(r, id, init);
        match course.last() {
            Happening::NewId(_) => (before, sent),
            Happening::Event(event, now) => {
                let (after, deed) = reg_step(before, event, now, present_id(id, init));
                match registration_in(deed) {
                    Some(message) => (after, sent.push(message)),
                    None => (after, sent),
                }
            },
        }
    }
}

/// Whatever happens, registrations are numbered one after the other from
/// zero on, those that could not be sent included, and the numbers wrap
/// around.
pub proof fn serials_are_consecutive(id: Seq<char>, course: Seq<Happening>)
    ensures
        ({
            let start = Registration { phase: RegPhase::New, serial: FIRST_SERIAL, last_reg: 0 };
            let (after, sent) = reg_course(start, id, course);
            &&& after.serial == sent.len() % 0x1_0000_0000
            &&& forall|i: int|
                0 <= i < sent.len() ==> (#[trigger] sent[i]).1 == serial_number(
                    (i % 0x1_0000_0000) as u32,
                )
        }),
    decreases course.len(),
{
    if course.len() > 0 {
        serials_are_consecutive(id, course.drop_last());
    }
}

/// Every registration carries the identifier that the device has when it is
/// sent: after a change, the new one.
pub proof fn registrations_carry_the_present_id(
    r: Registration,
    id: Seq<char>,
    course: Seq<Happening>,
    i: int,
)
    requires
        0 <= i < course.len(),
    ensures
        ({
            let before = reg_course(r, id, course.take(i)).1;
            let after = reg_course(r, id, course.take(i + 1)).1;
            after == before || exists|serial: i32|
                after == #[trigger] before.push((present_id(id, course.take(i)), serial))
        }),
{
    let next = course.take(i + 1);
    assert(next.drop_last() =~= course.take(i));
    assert(next.last() == course[i]);
    let (state, before) = reg_course(r, id, course.take(i));
    match course[i] {
        Happening::NewId(_) => {},
        Happening::Event(event, now) => {
            let present = present_id(id, course.take(i));
            match registration_in(reg_step(state, event, now, present).1) {
                Some(message) => {
                    assert(message == (present, message.1));
                    assert(reg_course(r, id, next).1 == before.push((present, message.1)));
                },
                None => {},
            }
        },
    }
}

/// Only the first registration is needed to go well: its failure ends in an
/// error, and nothing else does. A device that was registered goes on for
/// good.
pub proof fn only_the_first_registration_can_fail(
    r: Registration,
    id: Seq<char>,
    event: RegEvent,
    now: u64,
    course: Seq<Happening>,
)
    ensures
        reg_step(r, event, now, id).1 is Fail <==> r.phase == RegPhase::First && event
            == RegEvent::FirstSent(false),
        r.phase == RegPhase::Running ==> reg_course(r, id, course).0.phase == RegPhase::Running,
    decreases course.len(),
{
    if course.len() > 0 {
        only_the_first_registration_can_fail(r, id, event, now, course.drop_last());
    }
}

// ---------------------------------------------------------------- messages
/// What the server says of a public key.
#[derive(Debug, Clone, Copy, PartialEq, Eq, Structural)]
pub enum RegisterPkResult {
    Accepted,
    /// Another device has this identifier.
    UuidMismatch,
    Other,
}

/// The kinds of NAT. One that is not known counts as unknown.
#[derive(Debug, Clone, Copy, PartialEq, Eq, Structural)]
pub enum NatType {
    Unknown,
    Asymmetric,
    Symmetric,
}

/// A peer wants to come directly.
#[derive(Debug, PartialEq, Eq)]
pub struct PunchHole {
    pub socket_addr: Vec<u8>,
    pub socket_addr_v6: Vec<u8>,
    pub relay_server: String,
    pub nat_type: NatType,
}

/// A peer wants to come through a relay.
#[derive(Debug, PartialEq, Eq)]
pub struct RequestRelay {
    pub id: String,
    pub uuid: String,
    pub socket_addr: Vec<u8>,
    pub relay_server: String,
}

/// A peer of the same network wants to know the address.
#[derive(Debug, PartialEq, Eq)]
pub struct FetchLocalAddr {
    pub socket_addr: Vec<u8>,
    pub relay_server: String,
}

/// A message of the rendezvous server.
#[derive(Debug, PartialEq, Eq)]
pub enum RendezvousMessage {
    PunchHole(PunchHole),
    RequestRelay(RequestRelay),
    RegisterPeerResponse { request_pk: bool },
    RegisterPkResponse(RegisterPkResult),
    FetchLocalAddr(FetchLocalAddr),
    Other,
}

/// What to do about a message of the rendezvous server.
#[derive(Debug, PartialEq, Eq)]
pub enum RendezvousAction {
    Nothing,
    /// Let the peer come, beside everything else.
    Connect(PunchHole),
    ConnectByRelay(RequestRelay),
    ConnectLocally(FetchLocalAddr),
    /// Register this public key under this identifier.
    RegisterPk { id: String, pk: Vec<u8> },
}

/// The name under which a message is logged.
pub fn message_type(message: &RendezvousMessage) -> (r: &'static str)
    ensures
        r@ == (match *message {
            RendezvousMessage::PunchHole(_) => "PunchHole"@,
            RendezvousMessage::RequestRelay(_) => "RequestRelay"@,
            RendezvousMessage::RegisterPeerResponse { .. } => "RegisterPeerResponse"@,
            RendezvousMessage::RegisterPkResponse(_) => "RegisterPkResponse"@,
            RendezvousMessage::FetchLocalAddr(_) => "FetchLocalAddr"@,
            RendezvousMessage::Other => "Other"@,
        }),
{
    match message {
        RendezvousMessage::PunchHole(_) => "PunchHole",
        RendezvousMessage::RequestRelay(_) => "RequestRelay",
        RendezvousMessage::RegisterPeerResponse { .. } => "RegisterPeerResponse",
        RendezvousMessage::RegisterPkResponse(_) => "RegisterPkResponse",
        RendezvousMessage::FetchLocalAddr(_) => "FetchLocalAddr",
        RendezvousMessage::Other => "Other",
    }
}

/// Whether `action` registers a public key under `id`, or does nothing
/// because the key is empty.
pub open spec fn registers(action: RendezvousAction, id: Seq<char>, pk: Seq<u8>) -> bool {
    if pk.len() > 0 {
        action matches RendezvousAction::RegisterPk { id: i, pk: p } && i@ == id && p@ == pk
    } else {
        action == RendezvousAction::Nothing
    }
}

/// The registration of the public key of this device, if it has one.
pub fn send_register_pk(id: &str, registry: &RegistryConfig, memory: &mut Option<KeyPair>) -> (r:
    RendezvousAction)
    ensures
        memory_after(registry@.key_pair(), *old(memory), *final(memory)),
        registers(r, id@, keys_in_use(registry@.key_pair(), *final(memory)).1),
{
    let pair: KeyPair = registry.get_key_pair(memory);
    if pair.pk.len() > 0 {
        RendezvousAction::RegisterPk { id: String::from_str(id), pk: pair.pk }
    } else {
        RendezvousAction::Nothing
    }
}

/// Takes a message of the rendezvous server. Where the server says that
/// another device has the identifier, this device takes a new one, in the
/// settings and in the registry.
pub fn handle_rendezvous_message(
    message: RendezvousMessage,
    config: &mut SosConfig,
    registry: &mut RegistryConfig,
    memory: &mut Option<KeyPair>,
) -> (r: RendezvousAction)
    ensures
        // the settings, but for the identifier
        final(config).rendezvous_server == old(config).rendezvous_server,
        final(config).relay_server == old(config).relay_server,
        final(config).key_pair == old(config).key_pair,
        final(config).password == old(config).password,
        final(config).server_pub_key == old(config).server_pub_key,
        // the key pair in memory
        if message == (RendezvousMessage::RegisterPeerResponse { request_pk: true }) || message
            == RendezvousMessage::RegisterPkResponse(RegisterPkResult::UuidMismatch) {
            memory_after(final(registry)@.key_pair(), *old(memory), *final(memory))
        } else {
            *final(memory) == *old(memory)
        },
        match message {
            RendezvousMessage::PunchHole(ph) => {
                &&& r == RendezvousAction::Connect(ph)
                &&& *final(config) == *old(config)
                &&& final(registry)@ == old(registry)@
            },
            RendezvousMessage::RequestRelay(rr) => {
                &&& r == RendezvousAction::ConnectByRelay(rr)
                &&& *final(config) == *old(config)
                &&& final(registry)@ == old(registry)@
            },
            RendezvousMessage::FetchLocalAddr(fla) => {
                &&& r == RendezvousAction::ConnectLocally(fla)
                &&& *final(config) == *old(config)
                &&& final(registry)@ == old(registry)@
            },
            RendezvousMessage::RegisterPeerResponse { request_pk } => {
                &&& *final(config) == *old(config)
                &&& final(registry)@ == old(registry)@
                &&& if request_pk {
                    registers(
                        r,
                        old(config).id@,
                        keys_in_use(final(registry)@.key_pair(), *final(memory)).1,
                    )
                } else {
                    r == RendezvousAction::Nothing
                }
            },
            RendezvousMessage::RegisterPkResponse(RegisterPkResult::Accepted) => {
                &&& r == RendezvousAction::Nothing
                &&& *final(config) == *old(config)
                &&& final(registry)@ == (if old(registry)@.available {
                    old(registry)@.with("KeyConfirmed"@, Stored::Dword(1))
                } else {
                    old(registry)@
                })
            },
            RendezvousMessage::RegisterPkResponse(RegisterPkResult::UuidMismatch) => {
                let id = final(config).id@;
                &&& exists|n: nat|
                    1_000_000_000 <= n < 2_000_000_000 && id == #[trigger] decimal(n)
                &&& final(registry)@ == (if old(registry)@.available {
                    old(registry)@.with("KeyConfirmed"@, Stored::Dword(0)).with(
                        "ID"@,
                        Stored::Text(id),
                    )
                } else {
                    old(registry)@
                })
                &&& registers(
                    r,
                    id,
                    keys_in_use(final(registry)@.key_pair(), *final(memory)).1,
                )
            },
            RendezvousMessage::RegisterPkResponse(RegisterPkResult::Other) => {
                &&& r == RendezvousAction::Nothing
                &&& *final(config) == *old(config)
                &&& final(registry)@ == old(registry)@
            },
            RendezvousMessage::Other => {
                &&& r == RendezvousAction::Nothing
                &&& *final(config) == *old(config)
                &&& final(registry)@ == old(registry)@
            },
        },
{
    match message {
        RendezvousMessage::PunchHole(ph) => RendezvousAction::Connect(ph),
        RendezvousMessage::RequestRelay(rr) => RendezvousAction::ConnectByRelay(rr),
        RendezvousMessage::FetchLocalAddr(fla) => RendezvousAction::ConnectLocally(fla),
        RendezvousMessage::RegisterPeerResponse { request_pk } => {
            if request_pk {
                send_register_pk(config.id.as_str(), registry, memory)
            } else {
                RendezvousAction::Nothing
            }
        },
        RendezvousMessage::RegisterPkResponse(result) => match result {
            RegisterPkResult::Accepted => {
                registry.set_key_confirmed(true);
                RendezvousAction::Nothing
            },
            RegisterPkResult::UuidMismatch => {
                registry.set_key_confirmed(false);
                config.id = registry.update_id();
                send_register_pk(config.id.as_str(), registry, memory)
            },
            RegisterPkResult::Other => RendezvousAction::Nothing,
        },
        RendezvousMessage::Other => RendezvousAction::Nothing,
    }
}

// ---------------------------------------------------------------- NAT
/// The number of a kind of NAT.
pub open spec fn nat_number(t: NatType) -> i32 {
    match t {
        NatType::Unknown => 0,
        NatType::Asymmetric => 1,
        NatType::Symmetric => 2,
    }
}

/// The kind of NAT with a number.
pub fn nat_from_number(n: i32) -> (r: NatType)
    ensures
        n == 1 || n == 2 ==> nat_number(r) == n,
        n != 1 && n != 2 ==> r == NatType::Unknown,
{
    if n == 1 {
        NatType::Asymmetric
    } else if n == 2 {
        NatType::Symmetric
    } else {
        NatType::Unknown
    }
}

/// Notes the kind of NAT, from the ports that the server saw on two
/// connections: asymmetric if it saw the same one twice, symmetric if it saw
/// two, or not both.
pub fn test_nat_type(first: Option<i32>, second: Option<i32>, slot: &mut Option<i32>) -> (r:
    NatType)
    ensures
        r == (if first matches Some(p) && p > 0 && second == Some(p) {
            NatType::Asymmetric
        } else {
            NatType::Symmetric
        }),
        *final(slot) == Some(nat_number(r)),
{
    let p: i32 = match first {
        Some(v) => v,
        None => 0,
    };
    let q: i32 = match second {
        Some(v) => v,
        None => 0,
    };
    if p > 0 && q > 0 && p == q {
        set_nat_type(slot, 1);
        NatType::Asymmetric
    } else {
        set_nat_type(slot, 2);
        NatType::Symmetric
    }
}

// ---------------------------------------------------------------- direct
/// The text that bytes are taken for: what is not UTF-8 is replaced.
pub uninterp spec fn utf8_lossy(bytes: Seq<u8>) -> Seq<char>;

/// `String::from_utf8_lossy`: the text itself where the bytes are UTF-8, and
/// else the text with replacement characters, so that it is empty only for
/// no bytes.
#[verifier::external_body]
fn from_utf8_lossy(bytes: &[u8]) -> (r: String)
    ensures
        r@ == utf8_lossy(bytes@),
        r@.len() == 0 <==> bytes@.len() == 0,
        valid_utf8(bytes@) ==> encode_utf8(r@) == bytes@,
{
    String::from_utf8_lossy(bytes).into_owned()
}

/// How far the attempt has come to reach a peer directly.
#[derive(Debug, Clone, Copy, PartialEq, Eq, Structural)]
pub enum PunchPhase {
    /// The first address is being tried.
    First,
    /// The IPv6 address is being tried.
    Second,
    Ended,
}

/// What to do next to reach a peer.
#[derive(Debug, PartialEq, Eq)]
pub enum PunchAction {
    /// Connect to this address, and come back with the outcome.
    Connect(String),
    /// The peer is there: let `handle` have the connection.
    Serve,
    /// Let the peer come through a relay.
    Relay,
}

/// The attempt to reach a peer directly.
#[derive(Debug, PartialEq, Eq)]
pub struct Punch {
    pub phase: PunchPhase,
    /// The IPv6 address; empty if there is none.
    pub v6_addr: String,
}

/// Begins to reach a peer. Behind a symmetric NAT, at either end, and
/// without an address it cannot be reached directly.
pub fn handle_punch_hole(ph: &PunchHole, our_nat: i32) -> (r: (Punch, PunchAction))
    ensures
        r.0.v6_addr@ == utf8_lossy(ph.socket_addr_v6@),
        r.0.v6_addr@.len() == 0 <==> ph.socket_addr_v6@.len() == 0,
        valid_utf8(ph.socket_addr_v6@) ==> encode_utf8(r.0.v6_addr@) == ph.socket_addr_v6@,
        if ph.nat_type == NatType::Symmetric || our_nat == nat_number(NatType::Symmetric)
            || ph.socket_addr@.len() == 0 {
            &&& r.1 == PunchAction::Relay
            &&& r.0.phase == PunchPhase::Ended
        } else {
            &&& r.1 matches PunchAction::Connect(addr)
            &&& addr@ == utf8_lossy(ph.socket_addr@)
            &&& valid_utf8(ph.socket_addr@) ==> encode_utf8(addr@) == ph.socket_addr@
            &&& r.0.phase == PunchPhase::First
        },
{
    let v6_addr: String = from_utf8_lossy(ph.socket_addr_v6.as_slice());
    let symmetric: bool = match (ph.nat_type, nat_from_number(our_nat)) {
        (NatType::Symmetric, _) => true,
        (_, NatType::Symmetric) => true,
        _ => false,
    };
    if symmetric {
        return (Punch { phase: PunchPhase::Ended, v6_addr }, PunchAction::Relay);
    }
    let peer_addr: String = from_utf8_lossy(ph.socket_addr.as_slice());
    if peer_addr.as_str().is_empty() {
        return (Punch { phase: PunchPhase::Ended, v6_addr }, PunchAction::Relay);
    }
    (Punch { phase: PunchPhase::First, v6_addr }, PunchAction::Connect(peer_addr))
}

impl Punch {
    /// Takes the outcome of connecting: after the first address comes the
    /// IPv6 address, if there is one, and then the relay.
    pub fn connected(&mut self, ok: bool) -> (r: PunchAction)
        requires
            old(self).phase == PunchPhase::First || old(self).phase == PunchPhase::Second,
        ensures
            final(self).v6_addr == old(self).v6_addr,
            if ok {
                r == PunchAction::Serve && final(self).phase == PunchPhase::Ended
            } else if old(self).phase == PunchPhase::First && old(self).v6_addr@.len() > 0 {
                &&& r matches PunchAction::Connect(addr)
                &&& addr@ == old(self).v6_addr@
                &&& final(self).phase == PunchPhase::Second
            } else {
                r == PunchAction::Relay && final(self).phase == PunchPhase::Ended
            },
    {
        if ok {
            self.phase = PunchPhase::Ended;
            return PunchAction::Serve;
        }
        let first: bool = match self.phase {
            PunchPhase::First => true,
            _ => false,
        };
        if first && !self.v6_addr.as_str().is_empty() {
            self.phase = PunchPhase::Second;
            PunchAction::Connect(self.v6_addr.clone())
        } else {
            self.phase = PunchPhase::Ended;
            PunchAction::Relay
        }
    }
}

// ---------------------------------------------------------------- relay
/// The version that this device claims to have.
pub const CLAIMED_VERSION: &'static str = "1.4.4";

/// What the rendezvous server is told about a relay.
#[derive(Debug, PartialEq, Eq)]
pub struct RelayResponse {
    pub uuid: String,
    pub socket_addr: Vec<u8>,
    pub relay_server: String,
    pub id: String,
    pub version: String,
}

/// What the relay is asked for.
#[derive(Debug, PartialEq, Eq)]
pub struct RelayRequest {
    pub uuid: String,
    pub licence_key: String,
    pub id: String,
}

/// How far a connection through a relay has come.
#[derive(Debug, Clone, Copy, PartialEq, Eq, Structural)]
pub enum RelayPhase {
    /// Nothing was sent yet.
    New,
    /// The rendezvous server is being told.
    Telling,
    /// The relay is being asked.
    Asking,
    Ended,
}

/// What happens on the way through a relay.
#[derive(Debug, Clone, Copy, PartialEq, Eq, Structural)]
pub enum RelayEvent {
    Start,
    /// The rendezvous server was connected and told, or it could not be.
    Told(bool),
    /// The relay was connected and asked, or it could not be.
    Asked(bool),
}

/// What to do on the way through a relay.
#[derive(Debug, Clone, Copy, PartialEq, Eq, Structural)]
pub enum RelayAction {
    /// Connect to the rendezvous server of the plan, on this port if it names
    /// none, send it the response, and come back with `Told`.
    Tell(i32),
    /// Connect to the relay that the response names, on this port if it names
    /// none, send it the request, and come back with `Asked`.
    Ask(i32),
    /// Let `handle` have the connection to the relay.
    Serve,
    /// End with an error.
    Fail,
    /// Nothing.
    Nothing,
}

/// How the way through a relay goes on after an event, and what is to be
/// done. An event that does not belong to the phase changes nothing.
pub open spec fn relay_step(phase: RelayPhase, event: RelayEvent) -> (RelayPhase, RelayAction) {
    match (phase, event) {
        (RelayPhase::New, RelayEvent::Start) => (
            RelayPhase::Telling,
            RelayAction::Tell(RENDEZVOUS_PORT),
        ),
        (RelayPhase::Telling, RelayEvent::Told(ok)) => if ok {
            (RelayPhase::Asking, RelayAction::Ask(RELAY_PORT))
        } else {
            (RelayPhase::Ended, RelayAction::Fail)
        },
        (RelayPhase::Asking, RelayEvent::Asked(ok)) => (
            RelayPhase::Ended,
            if ok {
                RelayAction::Serve
            } else {
                RelayAction::Fail
            },
        ),
        _ => (phase, RelayAction::Nothing),
    }
}

/// A connection through a relay.
#[derive(Debug, PartialEq, Eq)]
pub struct RelayPlan {
    pub phase: RelayPhase,
    /// The rendezvous server.
    pub server: String,
    /// What it is told.
    pub response: RelayResponse,
    /// What the relay is asked for.
    pub request: RelayRequest,
}

impl RelayPlan {
    /// Whether this is the plan for a peer: both ends are told of the same
    /// connection, which has the name that the peer gave it, if it gave one.
    pub open spec fn serves(
        &self,
        relay_host: Seq<char>,
        config: SosConfig,
        peer_socket_addr: Seq<u8>,
        uuid: Option<Seq<char>>,
        peer_id: Seq<char>,
        default_pub_key: Seq<char>,
    ) -> bool {
        &&& self.phase == RelayPhase::New
        &&& self.server@ == config.rendezvous_server@
        &&& self.response.uuid@ == self.request.uuid@
        &&& match uuid {
            Some(u) => self.response.uuid@ == u,
            None => self.response.uuid@.len() == 16 && forall|i: int|
                0 <= i < 16 ==> is_alphanumeric(#[trigger] self.response.uuid@[i]),
        }
        &&& self.response.socket_addr@ == peer_socket_addr
        &&& self.response.relay_server@ == relay_host
        &&& self.response.id@ == config.id@
        &&& self.response.version@ == CLAIMED_VERSION@
        &&& self.request.licence_key@ == (if config.server_pub_key@.len() > 0 {
            config.server_pub_key@
        } else {
            default_pub_key
        })
        &&& self.request.id@ == peer_id
    }

    /// Takes an event, and says what to do. The messages stay.
    pub fn step(&mut self, event: RelayEvent) -> (r: RelayAction)
        ensures
            (final(self).phase, r) == relay_step(old(self).phase, event),
            final(self).server == old(self).server,
            final(self).response == old(self).response,
            final(self).request == old(self).request,
    {
        match (self.phase, event) {
            (RelayPhase::New, RelayEvent::Start) => {
                self.phase = RelayPhase::Telling;
                RelayAction::Tell(RENDEZVOUS_PORT)
            },
            (RelayPhase::Telling, RelayEvent::Told(ok)) => {
                if ok {
                    self.phase = RelayPhase::Asking;
                    RelayAction::Ask(RELAY_PORT)
                } else {
                    self.phase = RelayPhase::Ended;
                    RelayAction::Fail
                }
            },
            (RelayPhase::Asking, RelayEvent::Asked(ok)) => {
                self.phase = RelayPhase::Ended;
                if ok {
                    RelayAction::Serve
                } else {
                    RelayAction::Fail
                }
            },
            _ => RelayAction::Nothing,
        }
    }
}

/// How far the way through a relay has come after a course of events, and all
/// that was done.
pub open spec fn relay_course(phase: RelayPhase, events: Seq<RelayEvent>) -> (
    RelayPhase,
    Seq<RelayAction>,
)
    decreases events.len(),
{
    if events.len() == 0 {
        (phase, Seq::empty())
    } else {
        let before = relay_course(phase, events.drop_last());
        let last = relay_step(before.0, events.last());
        (last.0, before.1.push(last.1))
    }
}

/// The relay is asked only once the rendezvous server was told, and the peer
/// is served only once the relay was asked. Where the server could not be
/// told, the relay is never asked.
pub proof fn server_is_told_before_the_relay(events: Seq<RelayEvent>, i: int)
    requires
        0 <= i < events.len(),
    ensures
        ({
            let done = relay_course(RelayPhase::New, events).1;
            &&& done[i] is Ask ==> {
                &&& events[i] == RelayEvent::Told(true)
                &&& exists|j: int| 0 <= j < i && #[trigger] done[j] is Tell
            }
            &&& done[i] is Serve ==> {
                &&& events[i] == RelayEvent::Asked(true)
                &&& exists|j: int| 0 <= j < i && #[trigger] done[j] is Ask
            }
            &&& done[i] is Fail ==> forall|j: int|
                i < j < events.len() ==> #[trigger] done[j] is Nothing
        }),
{
    lemma_relay_course(events);
    let done = relay_course(RelayPhase::New, events).1;
    lemma_relay_prefix(events, i);
    let before = relay_course(RelayPhase::New, events.take(i));
    lemma_relay_course(events.take(i));
    assert(relay_step(before.0, events[i]).1 == done[i]);
    if done[i] is Ask {
        let j = choose|j: int| 0 <= j < i && #[trigger] before.1[j] is Tell;
        assert(done[j] is Tell);
    }
    if done[i] is Serve {
        let j = choose|j: int| 0 <= j < i && #[trigger] before.1[j] is Ask;
        assert(done[j] is Ask);
    }
    if done[i] is Fail {
        assert forall|j: int| i < j < events.len() implies #[trigger] done[j] is Nothing by {
            lemma_relay_ended(events, i, j);
        }
    }
}

/// What was done by some point stays the beginning of what is done.
proof fn lemma_relay_prefix(events: Seq<RelayEvent>, i: int)
    requires
        0 <= i < events.len(),
    ensures
        relay_course(RelayPhase::New, events).1.len() == events.len(),
        relay_course(RelayPhase::New, events.take(i)).1.len() == i,
        relay_course(RelayPhase::New, events).1.take(i) == relay_course(
            RelayPhase::New,
            events.take(i),
        ).1,
        relay_course(RelayPhase::New, events).1[i] == relay_step(
            relay_course(RelayPhase::New, events.take(i)).0,
            events[i],
        ).1,
        relay_course(RelayPhase::New, events.take(i + 1)).0 == relay_step(
            relay_course(RelayPhase::New, events.take(i)).0,
            events[i],
        ).0,
    decreases events.len(),
{
    let init = events.drop_last();
    let n = events.len() - 1;
    assert(events.take(i + 1).drop_last() =~= events.take(i));
    lemma_relay_course(init);
    lemma_relay_course(events.take(i));
    if i < n {
        lemma_relay_prefix(init, i);
        assert(init.take(i) =~= events.take(i));
        assert(relay_course(RelayPhase::New, events).1.take(i) =~= relay_course(
            RelayPhase::New,
            init,
        ).1.take(i));
    } else {
        assert(events.take(i) =~= init);
        assert(relay_course(RelayPhase::New, events).1.take(i) =~= relay_course(
            RelayPhase::New,
            init,
        ).1);
    }
}

/// What each phase has behind it.
proof fn lemma_relay_course(events: Seq<RelayEvent>)
    ensures
        ({
            let (phase, done) = relay_course(RelayPhase::New, events);
            &&& done.len() == events.len()
            &&& phase == RelayPhase::Telling ==> exists|j: int|
                0 <= j < done.len() && #[trigger] done[j] is Tell
            &&& phase == RelayPhase::Asking ==> exists|j: int|
                0 <= j < done.len() && #[trigger] done[j] is Ask
        }),
    decreases events.len(),
{
    if events.len() > 0 {
        lemma_relay_course(events.drop_last());
        let (was, before) = relay_course(RelayPhase::New, events.drop_last());
        let (phase, done) = relay_course(RelayPhase::New, events);
        let n = events.len() - 1;
        if phase == RelayPhase::Telling && was == RelayPhase::Telling {
            let j = choose|j: int| 0 <= j < before.len() && #[trigger] before[j] is Tell;
            assert(done[j] is Tell);
        } else if phase == RelayPhase::Telling {
            assert(done[n] is Tell);
        }
        if phase == RelayPhase::Asking && was == RelayPhase::Asking {
            let j = choose|j: int| 0 <= j < before.len() && #[trigger] before[j] is Ask;
            assert(done[j] is Ask);
        } else if phase == RelayPhase::Asking {
            assert(done[n] is Ask);
        }
    }
}

/// After a failure nothing is done any more.
proof fn lemma_relay_ended(events: Seq<RelayEvent>, i: int, j: int)
    requires
        0 <= i < j < events.len(),
        relay_course(RelayPhase::New, events).1[i] is Fail,
    ensures
        relay_course(RelayPhase::New, events.take(j)).0 == RelayPhase::Ended,
        relay_course(RelayPhase::New, events).1[j] is Nothing,
    decreases j - i,
{
    lemma_relay_prefix(events, i);
    lemma_relay_prefix(events, j);
    if j > i + 1 {
        lemma_relay_ended(events, i, j - 1);
        lemma_relay_prefix(events, j - 1);
    }
}

/// Plans a connection through a relay. `uuid` is the name that the peer gave
/// the connection; a fallback from a direct one has none, and gets sixteen
/// random letters and digits.
pub fn handle_relay_fallback(
    relay_host: &str,
    config: &SosConfig,
    peer_socket_addr: &[u8],
    uuid: Option<String>,
    peer_id: &str,
    default_pub_key: &str,
) -> (r: RelayPlan)
    ensures
        r.serves(
            relay_host@,
            *config,
            peer_socket_addr@,
            match uuid {
                Some(u) => Some(u@),
                None => None,
            },
            peer_id@,
            default_pub_key@,
        ),
{
    let name: String = match uuid {
        Some(u) => u,
        None => random_text(16),
    };
    let licence_key: String = if !config.server_pub_key.as_str().is_empty() {
        config.server_pub_key.clone()
    } else {
        String::from_str(default_pub_key)
    };
    RelayPlan {
        phase: RelayPhase::New,
        server: config.rendezvous_server.clone(),
        response: RelayResponse {
            uuid: name.clone(),
            socket_addr: copy_bytes(peer_socket_addr),
            relay_server: String::from_str(relay_host),
            id: config.id.clone(),
            version: String::from_str(CLAIMED_VERSION),
        },
        request: RelayRequest { uuid: name, licence_key, id: String::from_str(peer_id) },
    }
}

/// Plans the connection of a peer that cannot be reached directly: through
/// the relay of the settings, or the one that the rendezvous server names if
/// there is none.
pub fn relay_for(ph: &PunchHole, config: &SosConfig, default_pub_key: &str) -> (r: RelayPlan)
    ensures
        r.serves(
            if config.relay_server@.len() > 0 {
                config.relay_server@
            } else {
                ph.relay_server@
            },
            *config,
            ph.socket_addr@,
            None,
            Seq::empty(),
            default_pub_key@,
        ),
{
    proof {
        reveal_strlit("");
        assert(""@ =~= Seq::<char>::empty());
    }
    let relay_host: &str = if !config.relay_server.as_str().is_empty() {
        config.relay_server.as_str()
    } else {
        ph.relay_server.as_str()
    };
    handle_relay_fallback(
        relay_host,
        config,
        ph.socket_addr.as_slice(),
        None,
        "",
        default_pub_key,
    )
}

/// Plans the connection of a peer that asked for a relay, under the name that
/// it gave; nothing, if it named no relay.
pub fn handle_request_relay(rr: &RequestRelay, config: &SosConfig, default_pub_key: &str) -> (r:
    Option<RelayPlan>)
    ensures
        r is None <==> rr.relay_server@.len() == 0,
        r matches Some(plan) ==> plan.serves(
            rr.relay_server@,
            *config,
            rr.socket_addr@,
            if rr.uuid@.len() > 0 {
                Some(rr.uuid@)
            } else {
                None
            },
            rr.id@,
            default_pub_key@,
        ),
{
    if rr.relay_server.as_str().is_empty() {
        return None;
    }
    let uuid: Option<String> = if rr.uuid.as_str().is_empty() {
        None
    } else {
        Some(rr.uuid.clone())
    };
    Some(
        handle_relay_fallback(
            rr.relay_server.as_str(),
            config,
            rr.socket_addr.as_slice(),
            uuid,
            rr.id.as_str(),
            default_pub_key,
        ),
    )
}

// ---------------------------------------------------------------- local
/// How long a peer of the same network may take to come, in milliseconds.
pub const ACCEPT_TIMEOUT: u64 = 10_000;

/// Where a peer of the same network finds this device.
#[derive(Debug, PartialEq, Eq)]
pub struct LocalAddr {
    pub id: String,
    pub socket_addr: Vec<u8>,
    pub local_addr: Vec<u8>,
    pub relay_server: String,
    pub version: String,
}

/// The answer to a peer of the same network, from the encoded addresses of
/// the peer and of this device.
pub fn send_local_addr_fla(
    fla: &FetchLocalAddr,
    config: &SosConfig,
    peer_addr: Vec<u8>,
    own_addr: Vec<u8>,
) -> (r: LocalAddr)
    ensures
        r.id@ == config.id@,
        r.socket_addr == peer_addr,
        r.local_addr == own_addr,
        r.relay_server@ == fla.relay_server@,
        r.version@ == CLAIMED_VERSION@,
{
    LocalAddr {
        id: config.id.clone(),
        socket_addr: peer_addr,
        local_addr: own_addr,
        relay_server: fla.relay_server.clone(),
        version: String::from_str(CLAIMED_VERSION),
    }
}

} // verus!
