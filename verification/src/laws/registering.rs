//! This device registers with the rendezvous server, and stays registered.

use vstd::prelude::*;

use crate::keys::KeyPair;
use crate::keys::ed25519_public;
use crate::laws::settings::{is_numeral, lemma_numeral, numeral_value};
use crate::sos_config::{RegistryConfig, RegistryError, SosConfig, Stored};
use crate::sos_rendezvous::{
    handle_rendezvous_message, message_type, run, send_register_peer, send_register_pk, RegAction,
    RegEvent, RegPhase, RegisterPeer, RegisterPkResult, Registration, RendezvousAction,
    RendezvousMessage,
};
use crate::sos_rendezvous::{reg_course, serials_are_consecutive, Happening};
use crate::text::decimal;

verus! {

// ---------------------------------------------------------------- first
/// A device begins with nothing sent.
pub proof fn registration_begins_anew(r: Registration)
    requires
        call_ensures(run, (), r),
    ensures
        r.phase == RegPhase::New,
        r.serial == 0,
        r.last_reg == 0,
{
}

/// Whether a message registers a device under the number of its turn, as 32
/// bits hold it.
pub open spec fn is_registration(p: RegisterPeer, id: Seq<char>, serial: u32) -> bool {
    &&& p.id@ == id
    &&& serial <= i32::MAX ==> p.serial == serial
    &&& serial > i32::MAX ==> p.serial == serial - 0x1_0000_0000
}

/// A registration holds the identifier and the number that it was made with.
pub proof fn registration_is_made(device_id: &str, serial: u32, r: RegisterPeer)
    requires
        call_ensures(send_register_peer, (device_id, serial), r),
    ensures
        is_registration(r, device_id@, serial),
{
}

/// Whether the number of the next registration has gone up by one, or round.
pub open spec fn number_is_used_up(before: Registration, after: Registration) -> bool {
    &&& before.serial < u32::MAX ==> after.serial == before.serial + 1
    &&& before.serial == u32::MAX ==> after.serial == 0
}

/// A device starts by registering, then registers its public key, then finds
/// out its kind of NAT, whether or not the key went out, and from then on is
/// registered. Only a first registration that did not go out ends it, with an
/// error.
pub proof fn device_starts_by_registering(
    r: &mut Registration,
    event: RegEvent,
    now: u64,
    device_id: &str,
    done: RegAction,
)
    requires
        call_ensures(Registration::step, (r, event, now, device_id), done),
    ensures
        old(r).phase == RegPhase::New && event == RegEvent::Start ==> {
            &&& done matches RegAction::SendFirst(p)
            &&& is_registration(p, device_id@, old(r).serial)
            &&& number_is_used_up(*old(r), *final(r))
            &&& final(r).phase == RegPhase::First
            &&& final(r).last_reg == old(r).last_reg
        },
        old(r).phase == RegPhase::First && event == RegEvent::FirstSent(true) ==> {
            &&& done is RegisterKey
            &&& final(r).phase == RegPhase::Key
            &&& final(r).serial == old(r).serial
            &&& final(r).last_reg == old(r).last_reg
        },
        old(r).phase == RegPhase::First && event == RegEvent::FirstSent(false) ==> {
            &&& done is Fail
            &&& final(r).phase == RegPhase::Failed
            &&& final(r).serial == old(r).serial
            &&& final(r).last_reg == old(r).last_reg
        },
        old(r).phase == RegPhase::Key && event is KeySent ==> {
            &&& done is TestNat
            &&& final(r).phase == RegPhase::Running
            &&& final(r).last_reg == now
            &&& final(r).serial == old(r).serial
        },
        done is Fail ==> old(r).phase == RegPhase::First && event == RegEvent::FirstSent(false),
{
}

// ---------------------------------------------------------------- rounds
/// In a round a registered device registers again once fifteen seconds have
/// gone by since it last did, and not before; otherwise it listens for five
/// seconds.
pub proof fn device_registers_every_fifteen_seconds(
    r: &mut Registration,
    now: u64,
    device_id: &str,
    done: RegAction,
)
    requires
        call_ensures(Registration::step, (r, RegEvent::Round, now, device_id), done),
        old(r).phase == RegPhase::Running,
    ensures
        final(r).phase == RegPhase::Running,
        final(r).last_reg == old(r).last_reg,
        now - old(r).last_reg >= 15_000_000_000 ==> {
            &&& done matches RegAction::SendHeartbeat(p)
            &&& is_registration(p, device_id@, old(r).serial)
            &&& number_is_used_up(*old(r), *final(r))
        },
        now - old(r).last_reg < 15_000_000_000 ==> {
            &&& done == RegAction::Listen(5_000)
            &&& final(r).serial == old(r).serial
        },
{
}

/// A registration that went out counts from then on, and one that did not is
/// due again at once; either way the device listens.
pub proof fn device_listens_after_registering(
    r: &mut Registration,
    sent: bool,
    now: u64,
    device_id: &str,
    done: RegAction,
)
    requires
        call_ensures(Registration::step, (r, RegEvent::HeartbeatSent(sent), now, device_id), done),
        old(r).phase == RegPhase::Running,
    ensures
        done == RegAction::Listen(5_000),
        final(r).phase == RegPhase::Running,
        final(r).serial == old(r).serial,
        sent ==> final(r).last_reg == now,
        !sent ==> final(r).last_reg == old(r).last_reg,
{
}

/// A message that can be read is dealt with; one that cannot, a failure and
/// silence lead to the next round at once.
pub proof fn device_deals_with_messages(
    r: &mut Registration,
    event: RegEvent,
    now: u64,
    device_id: &str,
    done: RegAction,
)
    requires
        call_ensures(Registration::step, (r, event, now, device_id), done),
        old(r).phase == RegPhase::Running,
    ensures
        event == RegEvent::Received(true) ==> done is HandleMessage,
        event == RegEvent::Received(false) || event is ReceiveError || event is ReceiveTimeout
            ==> done == RegAction::NextRound(0),
        event is Received || event is ReceiveError || event is ReceiveTimeout ==> *final(r)
            == *old(r),
{
}

/// A connection that is closed is made anew; once there is one the device
/// registers at once, and where there is none it tries again after five
/// seconds.
pub proof fn device_reconnects(
    r: &mut Registration,
    event: RegEvent,
    now: u64,
    device_id: &str,
    done: RegAction,
)
    requires
        call_ensures(Registration::step, (r, event, now, device_id), done),
        old(r).phase == RegPhase::Running,
    ensures
        event is ConnectionClosed ==> done is Reconnect && *final(r) == *old(r),
        event == RegEvent::Reconnected(false) ==> done == RegAction::NextRound(5_000) && *final(r)
            == *old(r),
        event == RegEvent::Reconnected(true) ==> {
            &&& done matches RegAction::SendReregister(p)
            &&& is_registration(p, device_id@, old(r).serial)
            &&& number_is_used_up(*old(r), *final(r))
            &&& final(r).phase == RegPhase::Running
            &&& final(r).last_reg == old(r).last_reg
        },
        event is ReregisterSent ==> {
            &&& done == RegAction::NextRound(0)
            &&& final(r).phase == RegPhase::Running
            &&& final(r).last_reg == now
            &&& final(r).serial == old(r).serial
        },
{
}

/// A public key that a peer does not know is registered again, and then the
/// rounds go on.
pub proof fn unknown_key_is_registered(
    r: &mut Registration,
    event: RegEvent,
    now: u64,
    device_id: &str,
    done: RegAction,
)
    requires
        call_ensures(Registration::step, (r, event, now, device_id), done),
        old(r).phase == RegPhase::Running,
        event is KeyWanted || event is KeySent,
    ensures
        event is KeyWanted ==> done is RegisterKey,
        event is KeySent ==> done == RegAction::NextRound(0),
        *final(r) == *old(r),
{
}

/// Whether an event is one that a registration waits for.
pub open spec fn is_due(phase: RegPhase, event: RegEvent) -> bool {
    match phase {
        RegPhase::New => event is Start,
        RegPhase::First => event is FirstSent,
        RegPhase::Key => event is KeySent,
        RegPhase::Running => !(event is Start || event is FirstSent),
        RegPhase::Failed => false,
    }
}

/// A registration always knows what to do about what it waits for, and does
/// nothing about anything else.
pub proof fn registration_goes_on(
    r: &mut Registration,
    event: RegEvent,
    now: u64,
    device_id: &str,
    done: RegAction,
)
    requires
        call_ensures(Registration::step, (r, event, now, device_id), done),
    ensures
        is_due(old(r).phase, event) ==> !(done is Nothing),
        !is_due(old(r).phase, event) ==> done is Nothing && *final(r) == *old(r),
        old(r).phase == RegPhase::Running ==> final(r).phase == RegPhase::Running,
{
}

/// From the first one on, registrations are numbered zero, one, two and so
/// on, in 32 bits.
pub proof fn registrations_are_numbered(
    start: Registration,
    id: Seq<char>,
    course: Seq<Happening>,
    i: int,
)
    requires
        call_ensures(run, (), start),
        0 <= i < reg_course(start, id, course).1.len(),
    ensures
        (reg_course(start, id, course).1[i].1 - i) % 0x1_0000_0000 == 0,
{
    serials_are_consecutive(id, course);
    let n = i % 0x1_0000_0000;
    assert((n - i) % 0x1_0000_0000 == 0 && (n - 0x1_0000_0000 - i) % 0x1_0000_0000 == 0)
        by (nonlinear_arith)
        requires
            n == i % 0x1_0000_0000,
    ;
}

// ---------------------------------------------------------------- messages
/// The kinds of messages of the server are logged under their names.
pub proof fn messages_of_the_server_have_names(message: &RendezvousMessage, r: &'static str)
    requires
        call_ensures(message_type, (message,), r),
    ensures
        *message is PunchHole ==> r@ == "PunchHole"@,
        *message is RequestRelay ==> r@ == "RequestRelay"@,
        *message is RegisterPeerResponse ==> r@ == "RegisterPeerResponse"@,
        *message is RegisterPkResponse ==> r@ == "RegisterPkResponse"@,
        *message is FetchLocalAddr ==> r@ == "FetchLocalAddr"@,
        *message is Other ==> r@ == "Other"@,
{
}

/// Whether the memory has changed as it does when keys are asked for: it stays
/// where it holds some, and where the registry has 64 bytes of them; otherwise
/// it holds some from then on.
pub open spec fn keys_are_remembered(
    stored: Result<Vec<u8>, RegistryError>,
    before: Option<KeyPair>,
    after: Option<KeyPair>,
) -> bool {
    let held = stored is Ok && stored->Ok_0@.len() == 64;
    &&& before is Some || held ==> after == before
    &&& before is None && !held ==> {
        &&& after matches Some(made)
        &&& made.sk@.len() == 64
        &&& made.pk@.len() == 32
        &&& made.sk@.skip(32) == made.pk@
        &&& made.pk@ == ed25519_public(made.sk@.take(32))
    }
}

/// The public key is registered under the identifier that is given: the one
/// that `get_key_pair` gives on the same registry. Without a key there is
/// nothing to register.
pub proof fn public_key_is_registered(
    id: &str,
    registry: &RegistryConfig,
    memory: &mut Option<KeyPair>,
    r: RendezvousAction,
    same: &mut Option<KeyPair>,
    pair: KeyPair,
    stored: Result<Vec<u8>, RegistryError>,
)
    requires
        call_ensures(RegistryConfig::get_binary, (registry, "KeyPair"), stored),
        call_ensures(send_register_pk, (id, registry, memory), r),
        call_ensures(RegistryConfig::get_key_pair, (registry, same), pair),
        *old(same) == *final(memory),
    ensures
        pair.pk@.len() > 0 ==> {
            &&& r matches RendezvousAction::RegisterPk { id: i, pk }
            &&& i@ == id@
            &&& pk@ == pair.pk@
        },
        pair.pk@.len() == 0 ==> r == RendezvousAction::Nothing,
        keys_are_remembered(stored, *old(memory), *final(memory)),
{
}

/// A peer that the server announces is let in the way that the server says,
/// with all that it says; nothing else changes.
pub proof fn announced_peer_is_let_in(
    message: RendezvousMessage,
    config: &mut SosConfig,
    registry: &mut RegistryConfig,
    memory: &mut Option<KeyPair>,
    r: RendezvousAction,
)
    requires
        call_ensures(handle_rendezvous_message, (message, config, registry, memory), r),
        message is PunchHole || message is RequestRelay || message is FetchLocalAddr,
    ensures
        message matches RendezvousMessage::PunchHole(ph) ==> r == RendezvousAction::Connect(ph),
        message matches RendezvousMessage::RequestRelay(rr) ==> r
            == RendezvousAction::ConnectByRelay(rr),
        message matches RendezvousMessage::FetchLocalAddr(fla) ==> r
            == RendezvousAction::ConnectLocally(fla),
        *final(config) == *old(config),
        final(registry)@ == old(registry)@,
        *final(memory) == *old(memory),
{
}

/// A public key that the server asks for is registered under the identifier
/// of the device; where it asks for none, nothing is done.
pub proof fn requested_key_is_registered(
    request_pk: bool,
    config: &mut SosConfig,
    registry: &mut RegistryConfig,
    memory: &mut Option<KeyPair>,
    r: RendezvousAction,
    same: &mut Option<KeyPair>,
    pair: KeyPair,
    stored: Result<Vec<u8>, RegistryError>,
)
    requires
        call_ensures(
            handle_rendezvous_message,
            (RendezvousMessage::RegisterPeerResponse { request_pk }, config, registry, memory),
            r,
        ),
        call_ensures(RegistryConfig::get_binary, (&*final(registry), "KeyPair"), stored),
        call_ensures(RegistryConfig::get_key_pair, (&*final(registry), same), pair),
        *old(same) == *final(memory),
    ensures
        *final(config) == *old(config),
        final(registry)@ == old(registry)@,
        request_pk && pair.pk@.len() > 0 ==> {
            &&& r matches RendezvousAction::RegisterPk { id, pk }
            &&& id@ == old(config).id@
            &&& pk@ == pair.pk@
        },
        pair.pk@.len() == 0 ==> r == RendezvousAction::Nothing,
        !request_pk ==> r == RendezvousAction::Nothing && *final(memory) == *old(memory),
        request_pk ==> keys_are_remembered(stored, *old(memory), *final(memory)),
{
}

/// A public key that the server accepts is noted as confirmed, and a refusal
/// for other reasons than the identifier changes nothing.
pub proof fn accepted_key_is_noted(
    message: RendezvousMessage,
    config: &mut SosConfig,
    registry: &mut RegistryConfig,
    memory: &mut Option<KeyPair>,
    r: RendezvousAction,
    other: Seq<char>,
)
    requires
        call_ensures(handle_rendezvous_message, (message, config, registry, memory), r),
        message == RendezvousMessage::RegisterPkResponse(RegisterPkResult::Accepted) || message
            == RendezvousMessage::RegisterPkResponse(RegisterPkResult::Other) || message
            == RendezvousMessage::Other,
    ensures
        r == RendezvousAction::Nothing,
        *final(config) == *old(config),
        *final(memory) == *old(memory),
        message == RendezvousMessage::RegisterPkResponse(RegisterPkResult::Accepted) ==> {
            &&& old(registry)@.available ==> final(registry)@.values.contains_key("KeyConfirmed"@)
                && final(registry)@.values["KeyConfirmed"@] == Stored::Dword(1)
            &&& !old(registry)@.available ==> final(registry)@ == old(registry)@
            &&& other != "KeyConfirmed"@ ==> final(registry)@.values.contains_key(other)
                == old(registry)@.values.contains_key(other) && final(registry)@.values[other]
                == old(registry)@.values[other]
        },
        message != RendezvousMessage::RegisterPkResponse(RegisterPkResult::Accepted)
            ==> final(registry)@ == old(registry)@,
        final(registry)@.options == old(registry)@.options,
        final(registry)@.available == old(registry)@.available,
{
}

/// An identifier that another device has is replaced by one of ten digits, in
/// the settings and in the registry; the key is not confirmed any more, and
/// is registered under the new identifier. All other settings stay.
pub proof fn taken_identifier_is_replaced(
    config: &mut SosConfig,
    registry: &mut RegistryConfig,
    memory: &mut Option<KeyPair>,
    r: RendezvousAction,
    same: &mut Option<KeyPair>,
    pair: KeyPair,
    stored: Result<Vec<u8>, RegistryError>,
    other: Seq<char>,
)
    requires
        call_ensures(RegistryConfig::get_binary, (&*final(registry), "KeyPair"), stored),
        call_ensures(
            handle_rendezvous_message,
            (
                RendezvousMessage::RegisterPkResponse(RegisterPkResult::UuidMismatch),
                config,
                registry,
                memory,
            ),
            r,
        ),
        call_ensures(RegistryConfig::get_key_pair, (&*final(registry), same), pair),
        *old(same) == *final(memory),
    ensures
        is_numeral(final(config).id@),
        1_000_000_000 <= numeral_value(final(config).id@) < 2_000_000_000,
        final(config).rendezvous_server == old(config).rendezvous_server,
        final(config).relay_server == old(config).relay_server,
        final(config).key_pair == old(config).key_pair,
        final(config).password == old(config).password,
        final(config).server_pub_key == old(config).server_pub_key,
        old(registry)@.available ==> {
            &&& final(registry)@.values.contains_key("ID"@)
            &&& final(registry)@.values["ID"@] == Stored::Text(final(config).id@)
            &&& final(registry)@.values.contains_key("KeyConfirmed"@)
            &&& final(registry)@.values["KeyConfirmed"@] == Stored::Dword(0)
        },
        !old(registry)@.available ==> final(registry)@ == old(registry)@,
        other != "ID"@ && other != "KeyConfirmed"@ ==> {
            &&& final(registry)@.values.contains_key(other) == old(registry)@.values.contains_key(
                other,
            )
            &&& final(registry)@.values[other] == old(registry)@.values[other]
        },
        final(registry)@.options == old(registry)@.options,
        keys_are_remembered(stored, *old(memory), *final(memory)),
        pair.pk@.len() == 0 ==> r == RendezvousAction::Nothing,
        pair.pk@.len() > 0 ==> {
            &&& r matches RendezvousAction::RegisterPk { id, pk }
            &&& id@ == final(config).id@
            &&& pk@ == pair.pk@
        },
{
    reveal_strlit("ID");
    reveal_strlit("KeyConfirmed");
    assert("ID"@.len() != "KeyConfirmed"@.len());
    let n = choose|n: nat|
        1_000_000_000 <= n < 2_000_000_000 && final(config).id@ == #[trigger] decimal(n);
    lemma_numeral(n);
}

} // verus!
