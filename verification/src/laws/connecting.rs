//! A connection of a peer, from the exchange of keys to its end.

use vstd::prelude::*;
use vstd::utf8::encode_utf8;

use crate::digest::sha256;
use crate::keys::KeyPair;
use crate::keys::{box_public, ed25519_signed};
use crate::laws::serving::{in_32_bits, lemma_in_32_bits};
use crate::sos_connection::{
    handle, send_close_reason, send_login_response, setup_encrypted_stream, ConnAction, ConnEvent,
    Connection, ExchangeAction, ExchangeEvent, IdPk, KeyExchange, KeyExchangeError, KeyPhase,
    KeyReply, PeerInfo, Phase, SupportedEncoding,
};
use crate::sos_login::{Challenge, LoginFailures};
use crate::text::decimal;

verus! {

// ---------------------------------------------------------------- in
/// An address that has to wait is turned away with the seconds that it has
/// to, and any other one is let in, to exchange keys.
pub proof fn whoever_has_to_wait_is_turned_away(
    addr: &str,
    fixed_password: &str,
    failures: &LoginFailures,
    now: u64,
    wait: u64,
    r: Result<Connection, u64>,
)
    requires
        call_ensures(handle, (addr, fixed_password, failures, now), r),
        call_ensures(LoginFailures::check_login_rate_limit, (failures, addr, now), wait),
    ensures
        wait > 0 ==> r == Err::<Connection, u64>(wait),
        wait == 0 ==> {
            &&& r matches Ok(c)
            &&& c.phase == Phase::KeyExchange
            &&& c.addr@ == addr@
            &&& c.fixed_password@ == fixed_password@
            &&& c.salt@.len() == 0
            &&& c.challenge@.len() == 0
            &&& c.attempts == 0
        },
{
}

/// Whether nothing but the phase of a connection has changed.
pub open spec fn only_phase_changed(before: Connection, after: Connection) -> bool {
    &&& after.addr@ == before.addr@
    &&& after.fixed_password@ == before.fixed_password@
    &&& after.salt@ == before.salt@
    &&& after.challenge@ == before.challenge@
    &&& after.attempts == before.attempts
}

/// With its keys exchanged a peer is sent the challenge that was made, and it
/// is the one that its proof will be judged by.
pub proof fn peer_is_challenged(
    c: &mut Connection,
    given: Challenge,
    failures: &mut LoginFailures,
    now: u64,
    done: Vec<ConnAction>,
)
    requires
        call_ensures(
            Connection::step,
            (c, ConnEvent::KeysExchanged(Ok(given)), failures, now),
            done,
        ),
        old(c).phase == Phase::KeyExchange,
    ensures
        done@ == seq![ConnAction::SendChallenge],
        final(c).phase == Phase::Challenging,
        final(c).salt@ == given.salt@,
        final(c).challenge@ == given.challenge@,
        final(c).addr@ == old(c).addr@,
        final(c).fixed_password@ == old(c).fixed_password@,
        final(c).attempts == old(c).attempts,
        final(failures)@ == old(failures)@,
{
}

/// Without keys the connection is closed, which is no error; and where the
/// peer did not know the key of this device, the key is registered again.
pub proof fn no_keys_no_connection(
    c: &mut Connection,
    e: KeyExchangeError,
    failures: &mut LoginFailures,
    now: u64,
    done: Vec<ConnAction>,
)
    requires
        call_ensures(Connection::step, (c, ConnEvent::KeysExchanged(Err(e)), failures, now), done),
        old(c).phase == Phase::KeyExchange,
    ensures
        e == KeyExchangeError::UnknownKey ==> done@ == seq![
            ConnAction::RegisterKey,
            ConnAction::Finish(true),
        ],
        e != KeyExchangeError::UnknownKey ==> done@ == seq![ConnAction::Finish(true)],
        final(c).phase == Phase::Closed,
        only_phase_changed(*old(c), *final(c)),
        final(failures)@ == old(failures)@,
{
}

/// Once challenged a peer has a minute to log in, and another one after each
/// message that is no login; then the connection is closed.
pub proof fn peer_has_a_minute(
    c: &mut Connection,
    event: ConnEvent,
    failures: &mut LoginFailures,
    now: u64,
    done: Vec<ConnAction>,
)
    requires
        call_ensures(Connection::step, (c, event, failures, now), done),
    ensures
        old(c).phase == Phase::Challenging && event == ConnEvent::ChallengeSent(true) ==> {
            &&& done@ == seq![ConnAction::AwaitLogin(60_000)]
            &&& final(c).phase == Phase::AwaitingLogin
            &&& only_phase_changed(*old(c), *final(c))
            &&& final(failures)@ == old(failures)@
        },
        old(c).phase == Phase::Challenging && event == ConnEvent::ChallengeSent(false) ==> {
            &&& done@ == seq![ConnAction::Finish(false)]
            &&& final(c).phase == Phase::Closed
            &&& only_phase_changed(*old(c), *final(c))
            &&& final(failures)@ == old(failures)@
        },
        old(c).phase == Phase::AwaitingLogin && event == ConnEvent::OtherMessage ==> {
            &&& done@ == seq![ConnAction::AwaitLogin(60_000)]
            &&& final(c).phase == Phase::AwaitingLogin
            &&& only_phase_changed(*old(c), *final(c))
            &&& final(failures)@ == old(failures)@
        },
        old(c).phase == Phase::AwaitingLogin && event == ConnEvent::LoginEnded ==> {
            &&& done@ == seq![ConnAction::Finish(true)]
            &&& final(c).phase == Phase::Closed
            &&& only_phase_changed(*old(c), *final(c))
            &&& final(failures)@ == old(failures)@
        },
{
}

/// The proof of the password that counts on a connection: the fixed one, or
/// else the temporary one of the moment.
pub open spec fn right_proof(c: Connection, current: Seq<char>) -> Seq<u8> {
    let password = if c.fixed_password@.len() > 0 {
        c.fixed_password@
    } else {
        current
    };
    sha256(sha256(encode_utf8(password) + encode_utf8(c.salt@)) + encode_utf8(c.challenge@))
}

/// A peer with the right proof is logged in: it is answered, the failures of
/// its address are forgotten, and it will be served as it asked.
pub proof fn right_proof_lets_in(
    c: &mut Connection,
    proof_given: Vec<u8>,
    file_transfer: bool,
    current: String,
    failures: &mut LoginFailures,
    now: u64,
    done: Vec<ConnAction>,
    other: Seq<char>,
)
    requires
        call_ensures(
            Connection::step,
            (
                c,
                ConnEvent::LoginRequest {
                    proof_of_password: proof_given,
                    file_transfer,
                    current_password: current,
                },
                failures,
                now,
            ),
            done,
        ),
        old(c).phase == Phase::AwaitingLogin,
        old(c).fixed_password@.len() > 0 || current@.len() > 0,
        proof_given@ == right_proof(*old(c), current@),
    ensures
        done@ == seq![ConnAction::SendLoginResponse],
        final(c).phase == Phase::Accepting(file_transfer),
        only_phase_changed(*old(c), *final(c)),
        !final(failures)@.contains_key(old(c).addr@),
        other != old(c).addr@ ==> {
            &&& final(failures)@.contains_key(other) == old(failures)@.contains_key(other)
            &&& final(failures)@[other] == old(failures)@[other]
        },
{
}

/// A peer with any other proof is not let in. One without a proof has more
/// time to type. A wrong one is told so, it is recorded as a failure of its
/// address, and the fifth one closes the connection, with the reason.
pub proof fn wrong_proof_keeps_out(
    c: &mut Connection,
    proof_given: Vec<u8>,
    file_transfer: bool,
    current: String,
    failures: &mut LoginFailures,
    now: u64,
    done: Vec<ConnAction>,
    addr: &str,
    recorded: &mut LoginFailures,
)
    requires
        call_ensures(
            Connection::step,
            (
                c,
                ConnEvent::LoginRequest {
                    proof_of_password: proof_given,
                    file_transfer,
                    current_password: current,
                },
                failures,
                now,
            ),
            done,
        ),
        old(c).phase == Phase::AwaitingLogin,
        proof_given@ != right_proof(*old(c), current@) || (old(c).fixed_password@.len() == 0
            && current@.len() == 0),
        addr@ == old(c).addr@,
        old(recorded)@ == old(failures)@,
        call_ensures(LoginFailures::record_login_failure, (recorded, addr, now), ()),
    ensures
        final(c).addr@ == old(c).addr@,
        final(c).fixed_password@ == old(c).fixed_password@,
        final(c).salt@ == old(c).salt@,
        final(c).challenge@ == old(c).challenge@,
        proof_given@.len() == 0 ==> {
            &&& done@ == seq![ConnAction::AwaitLogin(60_000)]
            &&& final(c).phase == Phase::AwaitingLogin
            &&& final(c).attempts == old(c).attempts
            &&& final(failures)@ == old(failures)@
        },
        proof_given@.len() > 0 ==> {
            &&& final(failures)@ == final(recorded)@
            &&& final(c).attempts == old(c).attempts + 1
            &&& done@.len() >= 2
            &&& done@[0] matches ConnAction::SendLoginError(text)
            &&& text@ == "Wrong Password"@
            &&& old(c).attempts < 4 ==> {
                &&& done@.len() == 2
                &&& done@[1] == ConnAction::AwaitLogin(60_000)
                &&& final(c).phase == Phase::AwaitingLogin
            }
            &&& old(c).attempts >= 4 ==> {
                &&& done@.len() == 3
                &&& done@[1] matches ConnAction::SendCloseReason(reason)
                &&& reason@ == "Wrong Password"@
                &&& done@[2] == ConnAction::Finish(true)
                &&& final(c).phase == Phase::Closed
            }
        },
{
}

/// A peer that was answered is served: with the loop for files if it came for
/// those, and otherwise with the other one.
pub proof fn answered_peer_is_served(
    c: &mut Connection,
    file_transfer: bool,
    sent: bool,
    failures: &mut LoginFailures,
    now: u64,
    done: Vec<ConnAction>,
)
    requires
        call_ensures(Connection::step, (c, ConnEvent::LoginAnswered(sent), failures, now), done),
        old(c).phase == Phase::Accepting(file_transfer),
    ensures
        sent && file_transfer ==> done@ == seq![ConnAction::RunFileTransferLoop],
        sent && !file_transfer ==> done@ == seq![ConnAction::RunServiceLoop],
        sent ==> final(c).phase == Phase::Serving,
        !sent ==> done@ == seq![ConnAction::Finish(false)] && final(c).phase == Phase::Closed,
        only_phase_changed(*old(c), *final(c)),
        final(failures)@ == old(failures)@,
{
}

/// After a peer was served the password is replaced, and the connection ends
/// as the service did.
pub proof fn password_is_replaced_after_service(
    c: &mut Connection,
    ok: bool,
    failures: &mut LoginFailures,
    now: u64,
    done: Vec<ConnAction>,
)
    requires
        call_ensures(Connection::step, (c, ConnEvent::ServiceEnded(ok), failures, now), done),
        old(c).phase == Phase::Serving,
    ensures
        done@ == seq![ConnAction::RefreshPassword, ConnAction::Finish(ok)],
        final(c).phase == Phase::Closed,
        only_phase_changed(*old(c), *final(c)),
        final(failures)@ == old(failures)@,
{
}

/// Whether an event is one that a connection waits for.
pub open spec fn is_awaited(phase: Phase, event: ConnEvent) -> bool {
    match event {
        ConnEvent::KeysExchanged(_) => phase == Phase::KeyExchange,
        ConnEvent::ChallengeSent(_) => phase == Phase::Challenging,
        ConnEvent::LoginEnded => phase == Phase::AwaitingLogin,
        ConnEvent::OtherMessage => phase == Phase::AwaitingLogin,
        ConnEvent::LoginRequest { .. } => phase == Phase::AwaitingLogin,
        ConnEvent::LoginAnswered(_) => phase is Accepting,
        ConnEvent::ServiceEnded(_) => phase == Phase::Serving,
    }
}

/// A connection always knows what to do about what it waits for, and does
/// nothing about anything else.
pub proof fn connection_goes_on(
    c: &mut Connection,
    event: ConnEvent,
    failures: &mut LoginFailures,
    now: u64,
    done: Vec<ConnAction>,
)
    requires
        call_ensures(Connection::step, (c, event, failures, now), done),
    ensures
        is_awaited(old(c).phase, event) ==> done@.len() > 0,
        !is_awaited(old(c).phase, event) ==> {
            &&& done@.len() == 0
            &&& final(c).phase == old(c).phase
            &&& only_phase_changed(*old(c), *final(c))
            &&& final(failures)@ == old(failures)@
        },
{
}

// ---------------------------------------------------------------- keys
/// Keys are exchanged with signing keys of the right sizes only, which sign;
/// and the keys of the session are new and belong together.
pub proof fn exchange_needs_signing_keys(
    pair: &KeyPair,
    r: Result<KeyExchange, KeyExchangeError>,
)
    requires
        call_ensures(setup_encrypted_stream, (pair,), r),
    ensures
        r is Ok <==> pair.sk@.len() == 64 && pair.pk@.len() == 32,
        r matches Ok(k) ==> {
            &&& k.phase == KeyPhase::Sending
            &&& k.signing_key@ == pair.sk@
            &&& k.session.sk@.len() == 32
            &&& k.session.pk@.len() == 32
            &&& k.session.pk@ == box_public(k.session.sk@)
        },
        r matches Err(e) ==> e == (KeyExchangeError::InvalidKeyPair {
            sk: pair.sk@.len() as usize,
            pk: pair.pk@.len() as usize,
        }),
{
}

/// What is signed is the identifier of the device and the public key of the
/// session, under the signing key, with the message behind the signature.
pub proof fn identity_of_the_session_is_signed(
    k: &KeyExchange,
    device_id: &str,
    id_pk: IdPk,
    serialized: &[u8],
    signed: Vec<u8>,
)
    requires
        call_ensures(KeyExchange::id_pk, (k, device_id), id_pk),
        call_ensures(KeyExchange::signed_id, (k, serialized), signed),
    ensures
        id_pk.id@ == device_id@,
        id_pk.pk@ == k.session.pk@,
        signed@ == ed25519_signed(serialized@, k.signing_key@),
        signed@.len() == 64 + serialized@.len(),
        signed@.skip(64) == serialized@,
{
}

/// A key exchange takes its steps: the identity is sent, the key of the peer
/// is awaited for ten seconds, the key of the stream is opened with what the
/// peer sent, and then the stream is secured. Any failure on the way is named
/// and ends it. The keys stay.
pub proof fn exchange_takes_its_steps(
    k: &mut KeyExchange,
    event: ExchangeEvent,
    r: ExchangeAction,
)
    requires
        call_ensures(KeyExchange::step, (k, event), r),
    ensures
        final(k).signing_key == old(k).signing_key,
        final(k).session == old(k).session,
        old(k).phase == KeyPhase::Sending && event == ExchangeEvent::Sent(true) ==> {
            &&& r == ExchangeAction::AwaitReply(10_000)
            &&& final(k).phase == KeyPhase::Awaiting
        },
        old(k).phase == KeyPhase::Sending && event == ExchangeEvent::Sent(false) ==> r
            == ExchangeAction::Fail(KeyExchangeError::NotSent),
        old(k).phase == KeyPhase::Opening && event == ExchangeEvent::Opened(true) ==> r
            == ExchangeAction::Secured,
        old(k).phase == KeyPhase::Opening && event == ExchangeEvent::Opened(false) ==> r
            == ExchangeAction::Fail(KeyExchangeError::BadKey),
        r is Fail || r is Secured ==> final(k).phase == KeyPhase::Ended,
{
}

/// The reply of the peer decides: a key, whatever it is, is opened with what
/// came with it; no key means that the peer does not know this device; and no
/// reply, a failure and one that cannot be read are told apart.
pub proof fn reply_of_the_peer_decides(
    k: &mut KeyExchange,
    reply: KeyReply,
    r: ExchangeAction,
)
    requires
        call_ensures(KeyExchange::step, (k, ExchangeEvent::Replied(reply)), r),
        old(k).phase == KeyPhase::Awaiting,
    ensures
        reply == KeyReply::Timeout ==> r == ExchangeAction::Fail(KeyExchangeError::Timeout),
        reply == KeyReply::StreamError ==> r == ExchangeAction::Fail(KeyExchangeError::Stream),
        reply == KeyReply::Unreadable ==> r == ExchangeAction::Fail(KeyExchangeError::Unreadable),
        reply matches KeyReply::PublicKey { asymmetric: theirs, symmetric: sealed } ==> {
            &&& theirs@.len() == 0 ==> r == ExchangeAction::Fail(KeyExchangeError::UnknownKey)
            &&& theirs@.len() > 0 ==> {
                &&& r matches ExchangeAction::OpenKey { symmetric, asymmetric }
                &&& symmetric@ == sealed@
                &&& asymmetric@ == theirs@
                &&& final(k).phase == KeyPhase::Opening
            }
        },
        r is Fail ==> final(k).phase == KeyPhase::Ended,
{
}

/// What does not belong to the step that a key exchange is at does nothing.
pub proof fn exchange_keeps_its_order(k: &mut KeyExchange, event: ExchangeEvent, r: ExchangeAction)
    requires
        call_ensures(KeyExchange::step, (k, event), r),
        !(event is Sent && old(k).phase == KeyPhase::Sending),
        !(event is Replied && old(k).phase == KeyPhase::Awaiting),
        !(event is Opened && old(k).phase == KeyPhase::Opening),
    ensures
        r == ExchangeAction::Nothing,
        final(k).phase == old(k).phase,
{
}

// ---------------------------------------------------------------- answers
/// A peer that has logged in is told who this device is and what its displays
/// are, each with its size and its number, in their order. The first one is
/// shown.
pub proof fn device_is_described(
    hostname: &str,
    version: &str,
    platform: &str,
    displays: &Option<Vec<(u64, u64)>>,
    resolutions: Vec<(i32, i32)>,
    encoding: SupportedEncoding,
    r: PeerInfo,
    i: int,
)
    requires
        call_ensures(
            send_login_response,
            (hostname, version, platform, displays, resolutions, encoding),
            r,
        ),
    ensures
        r.username@ == hostname@,
        r.version@ == version@,
        r.platform@ == platform@,
        r.current_display == 0,
        !r.privacy_mode,
        !r.terminal,
        *displays is None ==> r.displays@.len() == 0 && r.resolutions is None,
        *displays matches Some(sizes) ==> {
            &&& r.displays@.len() == sizes@.len()
            &&& sizes@.len() == 0 ==> r.resolutions is None
            &&& sizes@.len() > 0 ==> r.resolutions == Some(resolutions)
            &&& 0 <= i < sizes@.len() ==> {
                &&& r.displays@[i].online
                &&& r.displays@[i].name@ == "Display "@ + decimal(i as nat)
                &&& r.displays@[i].width == in_32_bits(sizes@[i].0)
                &&& r.displays@[i].height == in_32_bits(sizes@[i].1)
            }
        },
{
    if *displays is Some {
        let sizes = (*displays)->0;
        lemma_in_32_bits(sizes@[i].0);
        lemma_in_32_bits(sizes@[i].1);
    }
}

/// A peer is offered every encoding that this device has, but for AV1.
pub proof fn encodings_are_offered(
    hostname: &str,
    version: &str,
    platform: &str,
    displays: &Option<Vec<(u64, u64)>>,
    resolutions: Vec<(i32, i32)>,
    encoding: SupportedEncoding,
    r: PeerInfo,
)
    requires
        call_ensures(
            send_login_response,
            (hostname, version, platform, displays, resolutions, encoding),
            r,
        ),
    ensures
        r.encoding.h264 == encoding.h264,
        r.encoding.h265 == encoding.h265,
        r.encoding.vp8 == encoding.vp8,
        !r.encoding.av1,
        r.encoding.i444 is Some <==> encoding.i444 is Some,
        encoding.i444 matches Some(full) ==> {
            &&& r.encoding.i444->0.vp8 == full.vp8
            &&& r.encoding.i444->0.vp9 == full.vp9
            &&& r.encoding.i444->0.h264 == full.h264
            &&& r.encoding.i444->0.h265 == full.h265
            &&& !r.encoding.i444->0.av1
        },
{
}

/// A peer is told the reason for which a connection is closed; where there is
/// none, that it was closed by hand.
pub proof fn reason_is_told(reason: &str, r: String)
    requires
        call_ensures(send_close_reason, (reason,), r),
    ensures
        reason@.len() > 0 ==> r@ == reason@,
        reason@.len() == 0 ==> r@ == "Closed manually by the peer"@,
{
}

} // verus!
