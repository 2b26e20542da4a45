//! A connection of a peer: key exchange, login, service.
//!
//! The functions here decide; the caller exchanges the messages.

use vstd::prelude::*;

use crate::keys::{box_public, ed25519_signed, is_box_pair};
use crate::keys::{gen_box_keypair, sign, KeyPair, PUBLICKEYBYTES, SECRETKEYBYTES, SIGNATUREBYTES};
use crate::sos_login::{wait_of, with_failure};
use crate::sos_login::{
    proof_in_force, verdict_of, verify_login, Challenge, LoginFailure, LoginFailures, Verdict,
};
use crate::text::{copy_bytes, decimal, join, to_decimal};

verus! {

// ---------------------------------------------------------------- handle
/// How long a login request may take to come, in milliseconds.
pub const LOGIN_TIMEOUT: u64 = 60_000;

/// So many wrong passwords close a connection.
pub const MAX_LOGIN_ATTEMPTS: u32 = 5;

/// What a peer with a wrong password is told.
pub const WRONG_PASSWORD: &'static str = "Wrong Password";

/// How far a connection has come.
#[derive(Debug, Clone, Copy, PartialEq, Eq, Structural)]
pub enum Phase {
    /// The keys are being exchanged.
    KeyExchange,
    /// The challenge is being sent.
    Challenging,
    /// A login request is awaited.
    AwaitingLogin,
    /// The login was accepted and is being answered; whether it is for a file
    /// transfer.
    Accepting(bool),
    /// The peer is served.
    Serving,
    Closed,
}

/// A connection.
#[derive(Debug, PartialEq, Eq)]
pub struct Connection {
    pub phase: Phase,
    /// The address of the peer.
    pub addr: String,
    /// The password of the command line; empty if there is none.
    pub fixed_password: String,
    pub salt: String,
    pub challenge: String,
    /// Wrong passwords so far.
    pub attempts: u32,
}

/// A connection, in the model.
pub ghost struct Conn {
    pub phase: Phase,
    pub addr: Seq<char>,
    pub fixed_password: Seq<char>,
    pub salt: Seq<char>,
    pub challenge: Seq<char>,
    pub attempts: nat,
}

impl View for Connection {
    type V = Conn;

    open spec fn view(&self) -> Conn {
        Conn {
            phase: self.phase,
            addr: self.addr@,
            fixed_password: self.fixed_password@,
            salt: self.salt@,
            challenge: self.challenge@,
            attempts: self.attempts as nat,
        }
    }
}

/// What happens on a connection.
#[derive(Debug, PartialEq, Eq)]
pub enum ConnEvent {
    /// The keys were exchanged, and this is the challenge; or they were not.
    KeysExchanged(Result<Challenge, KeyExchangeError>),
    /// The challenge was sent, or it could not be.
    ChallengeSent(bool),
    /// No login request came: the stream failed, or time was up.
    LoginEnded,
    /// A message came that is no login request, or cannot be read.
    OtherMessage,
    /// A login request came, with the proof of a password.
    LoginRequest {
        proof_of_password: Vec<u8>,
        file_transfer: bool,
        /// The temporary password at this time; empty if there is none.
        current_password: String,
    },
    /// The login was answered, or it could not be.
    LoginAnswered(bool),
    /// The service has ended, well or not.
    ServiceEnded(bool),
}

/// What to do on a connection.
#[derive(Debug, Clone, Copy, PartialEq, Eq)]
pub enum ConnAction {
    /// Register the public key of this device again: the peer does not know
    /// it.
    RegisterKey,
    /// Send the salt and the challenge of the connection.
    SendChallenge,
    /// Wait for a login request, up to this many milliseconds.
    AwaitLogin(u64),
    /// Answer a login with this error. A failure to send it is passed over.
    SendLoginError(&'static str),
    /// Tell the peer why the connection closes.
    SendCloseReason(&'static str),
    /// Answer a login with what there is to know of this device.
    SendLoginResponse,
    RunServiceLoop,
    RunFileTransferLoop,
    /// Let the temporary password be replaced.
    RefreshPassword,
    /// Close the connection, which went well or not.
    Finish(bool),
}

/// The verdict on a login request.
pub open spec fn login_verdict(c: Conn, received: Seq<u8>, current: Seq<char>) -> Verdict {
    verdict_of(proof_in_force(c.fixed_password, current, c.salt, c.challenge), received)
}

/// How a connection goes on after an event, and what is to be done. An event
/// that does not belong to the phase changes nothing.
pub open spec fn conn_step(c: Conn, event: ConnEvent) -> (Conn, Seq<ConnAction>) {
    match (c.phase, event) {
        (Phase::KeyExchange, ConnEvent::KeysExchanged(given)) => match given {
            Ok(ch) => (
                Conn {
                    phase: Phase::Challenging,
                    salt: ch.salt@,
                    challenge: ch.challenge@,
                    ..c
                },
                seq![ConnAction::SendChallenge],
            ),
            Err(e) => (
                Conn { phase: Phase::Closed, ..c },
                if e == KeyExchangeError::UnknownKey {
                    seq![ConnAction::RegisterKey, ConnAction::Finish(true)]
                } else {
                    seq![ConnAction::Finish(true)]
                },
            ),
        },
        (Phase::Challenging, ConnEvent::ChallengeSent(sent)) => if sent {
            (
                Conn { phase: Phase::AwaitingLogin, ..c },
                seq![ConnAction::AwaitLogin(LOGIN_TIMEOUT)],
            )
        } else {
            (Conn { phase: Phase::Closed, ..c }, seq![ConnAction::Finish(false)])
        },
        (Phase::AwaitingLogin, ConnEvent::LoginEnded) => (
            Conn { phase: Phase::Closed, ..c },
            seq![ConnAction::Finish(true)],
        ),
        (Phase::AwaitingLogin, ConnEvent::OtherMessage) => (
            c,
            seq![ConnAction::AwaitLogin(LOGIN_TIMEOUT)],
        ),
        (
            Phase::AwaitingLogin,
            ConnEvent::LoginRequest { proof_of_password, file_transfer, current_password },
        ) => match login_verdict(c, proof_of_password@, current_password@) {
            Verdict::Authorized => (
                Conn { phase: Phase::Accepting(file_transfer), ..c },
                seq![ConnAction::SendLoginResponse],
            ),
            Verdict::Empty => (c, seq![ConnAction::AwaitLogin(LOGIN_TIMEOUT)]),
            Verdict::Wrong => if c.attempts + 1 >= MAX_LOGIN_ATTEMPTS {
                (
                    Conn { phase: Phase::Closed, attempts: c.attempts + 1, ..c },
                    seq![
                        ConnAction::SendLoginError(WRONG_PASSWORD),
                        ConnAction::SendCloseReason(WRONG_PASSWORD),
                        ConnAction::Finish(true),
                    ],
                )
            } else {
                (
                    Conn { attempts: c.attempts + 1, ..c },
                    seq![
                        ConnAction::SendLoginError(WRONG_PASSWORD),
                        ConnAction::AwaitLogin(LOGIN_TIMEOUT),
                    ],
                )
            },
        },
        (Phase::Accepting(file_transfer), ConnEvent::LoginAnswered(sent)) => if sent {
            (
                Conn { phase: Phase::Serving, ..c },
                seq![
                    if file_transfer {
                        ConnAction::RunFileTransferLoop
                    } else {
                        ConnAction::RunServiceLoop
                    },
                ],
            )
        } else {
            (Conn { phase: Phase::Closed, ..c }, seq![ConnAction::Finish(false)])
        },
        (Phase::Serving, ConnEvent::ServiceEnded(ok)) => (
            Conn { phase: Phase::Closed, ..c },
            seq![ConnAction::RefreshPassword, ConnAction::Finish(ok)],
        ),
        _ => (c, Seq::empty()),
    }
}

/// The failures of logins after an event: a right password clears those of
/// the address, a wrong one counts, and nothing else matters.
pub open spec fn failures_after(
    failures: Map<Seq<char>, LoginFailure>,
    c: Conn,
    event: ConnEvent,
    now: u64,
) -> Map<Seq<char>, LoginFailure> {
    match event {
        ConnEvent::LoginRequest { proof_of_password, file_transfer, current_password } => if c.phase
            == Phase::AwaitingLogin {
            match login_verdict(c, proof_of_password@, current_password@) {
                Verdict::Authorized => failures.remove(c.addr),
                Verdict::Empty => failures,
                Verdict::Wrong => with_failure(failures, c.addr, now),
            }
        } else {
            failures
        },
        _ => failures,
    }
}

/// A new connection from an address: turned away with the seconds that it
/// has to wait, or let in to exchange keys.
pub fn handle(addr: &str, fixed_password: &str, failures: &LoginFailures, now: u64) -> (r: Result<
    Connection,
    u64,
>)
    ensures
        match r {
            Err(wait) => wait > 0 && wait == wait_of(failures@, addr@, now),
            Ok(c) => {
                &&& wait_of(failures@, addr@, now) == 0
                &&& c.wf()
                &&& c@ == (Conn {
                    phase: Phase::KeyExchange,
                    addr: addr@,
                    fixed_password: fixed_password@,
                    salt: Seq::empty(),
                    challenge: Seq::empty(),
                    attempts: 0,
                })
            },
        },
{
    let wait: u64 = failures.check_login_rate_limit(addr, now);
    if wait > 0 {
        return Err(wait);
    }
    Ok(
        Connection {
            phase: Phase::KeyExchange,
            addr: String::from_str(addr),
            fixed_password: String::from_str(fixed_password),
            salt: String::new(),
            challenge: String::new(),
            attempts: 0,
        },
    )
}

impl Connection {
    /// An open connection has attempts left.
    pub open spec fn wf(&self) -> bool {
        self.phase != Phase::Closed ==> self.attempts < MAX_LOGIN_ATTEMPTS
    }

    /// Takes an event, and says what to do, in order.
    pub fn step(&mut self, event: ConnEvent, failures: &mut LoginFailures, now: u64) -> (r: Vec<
        ConnAction,
    >)
        requires
            old(self).wf(),
        ensures
            final(self).wf(),
            (final(self)@, r@) == conn_step(old(self)@, event),
            final(failures)@ == failures_after(old(failures)@, old(self)@, event, now),
    {
        let mut actions: Vec<ConnAction> = Vec::new();
        match (self.phase, event) {
            (Phase::KeyExchange, ConnEvent::KeysExchanged(given)) => match given {
                Ok(ch) => {
                    self.phase = Phase::Challenging;
                    self.salt = ch.salt;
                    self.challenge = ch.challenge;
                    actions.push(ConnAction::SendChallenge);
                },
                Err(e) => {
                    self.phase = Phase::Closed;
                    match e {
                        KeyExchangeError::UnknownKey => actions.push(ConnAction::RegisterKey),
                        _ => {},
                    }
                    actions.push(ConnAction::Finish(true));
                },
            },
            (Phase::Challenging, ConnEvent::ChallengeSent(sent)) => {
                if sent {
                    self.phase = Phase::AwaitingLogin;
                    actions.push(ConnAction::AwaitLogin(LOGIN_TIMEOUT));
                } else {
                    self.phase = Phase::Closed;
                    actions.push(ConnAction::Finish(false));
                }
            },
            (Phase::AwaitingLogin, ConnEvent::LoginEnded) => {
                self.phase = Phase::Closed;
                actions.push(ConnAction::Finish(true));
            },
            (Phase::AwaitingLogin, ConnEvent::OtherMessage) => {
                actions.push(ConnAction::AwaitLogin(LOGIN_TIMEOUT));
            },
            (
                Phase::AwaitingLogin,
                ConnEvent::LoginRequest { proof_of_password, file_transfer, current_password },
            ) => {
                let verdict: Verdict = verify_login(
                    self.fixed_password.as_str(),
                    current_password.as_str(),
                    self.salt.as_str(),
                    self.challenge.as_str(),
                    proof_of_password.as_slice(),
                );
                match verdict {
                    Verdict::Authorized => {
                        failures.clear_login_failures(self.addr.as_str());
                        self.phase = Phase::Accepting(file_transfer);
                        actions.push(ConnAction::SendLoginResponse);
                    },
                    Verdict::Empty => {
                        actions.push(ConnAction::AwaitLogin(LOGIN_TIMEOUT));
                    },
                    Verdict::Wrong => {
                        self.attempts = self.attempts + 1;
                        failures.record_login_failure(self.addr.as_str(), now);
                        actions.push(ConnAction::SendLoginError(WRONG_PASSWORD));
                        if self.attempts >= MAX_LOGIN_ATTEMPTS {
                            self.phase = Phase::Closed;
                            actions.push(ConnAction::SendCloseReason(WRONG_PASSWORD));
                            actions.push(ConnAction::Finish(true));
                        } else {
                            actions.push(ConnAction::AwaitLogin(LOGIN_TIMEOUT));
                        }
                    },
                }
            },
            (Phase::Accepting(file_transfer), ConnEvent::LoginAnswered(sent)) => {
                if sent {
                    self.phase = Phase::Serving;
                    if file_transfer {
                        actions.push(ConnAction::RunFileTransferLoop);
                    } else {
                        actions.push(ConnAction::RunServiceLoop);
                    }
                } else {
                    self.phase = Phase::Closed;
                    actions.push(ConnAction::Finish(false));
                }
            },
            (Phase::Serving, ConnEvent::ServiceEnded(ok)) => {
                self.phase = Phase::Closed;
                actions.push(ConnAction::RefreshPassword);
                actions.push(ConnAction::Finish(ok));
            },
            _ => {},
        }
        proof {
            assert(actions@ =~= conn_step(old(self)@, event).1);
        }
        actions
    }
}

// ---------------------------------------------------------------- laws
/// A connection after a course of events, and all that was done.
pub open spec fn conn_course(c: Conn, events: Seq<ConnEvent>) -> (Conn, Seq<ConnAction>)
    decreases events.len(),
{
    if events.len() == 0 {
        (c, Seq::empty())
    } else {
        let before = conn_course(c, events.drop_last());
        let last = conn_step(before.0, events.last());
        (last.0, before.1 + last.1)
    }
}

/// Whether an event logs the peer in.
pub open spec fn logs_in(c: Conn, event: ConnEvent) -> bool {
    &&& c.phase == Phase::AwaitingLogin
    &&& event matches ConnEvent::LoginRequest {
        proof_of_password,
        file_transfer,
        current_password,
    }
    &&& login_verdict(c, proof_of_password@, current_password@) == Verdict::Authorized
}

/// Whether an action is only for peers that have logged in.
pub open spec fn is_reserved(action: ConnAction) -> bool {
    ||| action is SendLoginResponse
    ||| action is RunServiceLoop
    ||| action is RunFileTransferLoop
    ||| action is RefreshPassword
}

/// Without a login, whatever else happens on a connection, the peer is not
/// told of this device, not served, and the password is not replaced.
pub proof fn nothing_without_login(c: Conn, events: Seq<ConnEvent>)
    requires
        c.phase == Phase::KeyExchange,
        forall|i: int|
            0 <= i < events.len() ==> !logs_in(
                conn_course(c, #[trigger] events.take(i)).0,
                events[i],
            ),
    ensures
        forall|i: int|
            0 <= i < conn_course(c, events).1.len() ==> !is_reserved(
                #[trigger] conn_course(c, events).1[i],
            ),
        !(conn_course(c, events).0.phase is Accepting),
        conn_course(c, events).0.phase != Phase::Serving,
    decreases events.len(),
{
    if events.len() > 0 {
        let init = events.drop_last();
        let n = events.len() - 1;
        assert(events.take(n) =~= init);
        assert forall|i: int| 0 <= i < init.len() implies !logs_in(
            conn_course(c, #[trigger] init.take(i)).0,
            init[i],
        ) by {
            assert(init.take(i) =~= events.take(i));
        }
        nothing_without_login(c, init);
        let before = conn_course(c, init);
        assert(!logs_in(before.0, events[n]));
        let last = conn_step(before.0, events.last());
        assert(conn_course(c, events) == (last.0, before.1 + last.1));
        assert forall|i: int| 0 <= i < last.1.len() implies !is_reserved(#[trigger] last.1[i]) by {}
        assert forall|i: int| 0 <= i < conn_course(c, events).1.len() implies !is_reserved(
            #[trigger] conn_course(c, events).1[i],
        ) by {
            if i < before.1.len() {
                assert(conn_course(c, events).1[i] == before.1[i]);
            } else {
                assert(conn_course(c, events).1[i] == last.1[i - before.1.len()]);
            }
        }
    }
}

/// How often an action occurs.
pub open spec fn occurrences(actions: Seq<ConnAction>, action: ConnAction) -> nat
    decreases actions.len(),
{
    if actions.len() == 0 {
        0
    } else {
        occurrences(actions.drop_last(), action) + if actions.last() == action {
            1nat
        } else {
            0
        }
    }
}

/// Occurrences in two parts add up.
pub proof fn lemma_occurrences_add(a: Seq<ConnAction>, b: Seq<ConnAction>, action: ConnAction)
    ensures
        occurrences(a + b, action) == occurrences(a, action) + occurrences(b, action),
    decreases b.len(),
{
    if b.len() == 0 {
        assert(a + b =~= a);
    } else {
        lemma_occurrences_add(a, b.drop_last(), action);
        assert((a + b).drop_last() =~= a + b.drop_last());
    }
}

/// Occurrences among at most three actions.
proof fn lemma_occurrences_short(actions: Seq<ConnAction>, action: ConnAction)
    requires
        actions.len() <= 3,
    ensures
        occurrences(actions, action) == (if actions.len() > 0 && actions[0] == action {
            1nat
        } else {
            0
        }) + (if actions.len() > 1 && actions[1] == action {
            1nat
        } else {
            0
        }) + (if actions.len() > 2 && actions[2] == action {
            1nat
        } else {
            0
        }),
{
    reveal_with_fuel(occurrences, 4);
}

/// No connection tries more than five passwords, and each wrong one is told
/// the peer.
pub proof fn five_attempts_at_most(c: Conn, events: Seq<ConnEvent>)
    requires
        c.phase == Phase::KeyExchange,
        c.attempts == 0,
    ensures
        ({
            let after = conn_course(c, events);
            &&& after.0.attempts <= MAX_LOGIN_ATTEMPTS
            &&& after.0.attempts == MAX_LOGIN_ATTEMPTS ==> after.0.phase == Phase::Closed
            &&& occurrences(after.1, ConnAction::SendLoginError(WRONG_PASSWORD))
                == after.0.attempts
        }),
    decreases events.len(),
{
    let wrong = ConnAction::SendLoginError(WRONG_PASSWORD);
    if events.len() > 0 {
        five_attempts_at_most(c, events.drop_last());
        let before = conn_course(c, events.drop_last());
        let last = conn_step(before.0, events.last());
        lemma_occurrences_add(before.1, last.1, wrong);
        lemma_occurrences_short(last.1, wrong);
    }
}

/// A connection has one challenge: it is sent once at most, and from then on
/// salt and challenge stay, whatever happens.
pub proof fn one_challenge(c: Conn, events: Seq<ConnEvent>, later: Seq<ConnEvent>)
    requires
        c.phase == Phase::KeyExchange,
    ensures
        occurrences(conn_course(c, events).1, ConnAction::SendChallenge) <= 1,
        conn_course(c, events).0.phase == Phase::KeyExchange ==> occurrences(
            conn_course(c, events).1,
            ConnAction::SendChallenge,
        ) == 0,
        conn_course(c, events).0.phase != Phase::KeyExchange ==> {
            &&& conn_course(conn_course(c, events).0, later).0.salt == conn_course(
                c,
                events,
            ).0.salt
            &&& conn_course(conn_course(c, events).0, later).0.challenge == conn_course(
                c,
                events,
            ).0.challenge
        },
    decreases events.len(),
{
    if events.len() > 0 {
        one_challenge(c, events.drop_last(), later);
        let before = conn_course(c, events.drop_last());
        let last = conn_step(before.0, events.last());
        lemma_occurrences_add(before.1, last.1, ConnAction::SendChallenge);
        lemma_occurrences_short(last.1, ConnAction::SendChallenge);
    }
    if conn_course(c, events).0.phase != Phase::KeyExchange {
        lemma_challenge_stays(conn_course(c, events).0, later);
    }
}

proof fn lemma_challenge_stays(c: Conn, events: Seq<ConnEvent>)
    requires
        c.phase != Phase::KeyExchange,
    ensures
        conn_course(c, events).0.phase != Phase::KeyExchange,
        conn_course(c, events).0.salt == c.salt,
        conn_course(c, events).0.challenge == c.challenge,
    decreases events.len(),
{
    if events.len() > 0 {
        lemma_challenge_stays(c, events.drop_last());
    }
}

/// Whether an action closes the connection.
pub open spec fn is_finish(action: ConnAction) -> bool {
    action is Finish
}

/// A connection is closed once, and that is the last thing that is done: it
/// is closed exactly if the last action says so, and no earlier one does.
pub proof fn closed_once(c: Conn, events: Seq<ConnEvent>)
    requires
        c.phase == Phase::KeyExchange,
    ensures
        ({
            let (after, done) = conn_course(c, events);
            &&& after.phase == Phase::Closed <==> done.len() > 0 && is_finish(done.last())
            &&& forall|i: int| 0 <= i < done.len() - 1 ==> !is_finish(#[trigger] done[i])
        }),
    decreases events.len(),
{
    if events.len() > 0 {
        closed_once(c, events.drop_last());
        let before = conn_course(c, events.drop_last());
        let last = conn_step(before.0, events.last());
        let done = before.1 + last.1;
        assert(conn_course(c, events) == (last.0, done));
        if last.1.len() == 0 {
            assert(done =~= before.1);
        } else {
            assert(before.0.phase != Phase::Closed);
            assert(done.last() == last.1.last());
            assert forall|i: int| 0 <= i < done.len() - 1 implies !is_finish(#[trigger] done[i]) by {
                if i < before.1.len() {
                    assert(done[i] == before.1[i]);
                } else {
                    assert(done[i] == last.1[i - before.1.len()]);
                }
            }
        }
    }
}

/// Once a connection is closed nothing happens on it any more.
pub proof fn closed_is_closed(c: Conn, events: Seq<ConnEvent>)
    requires
        c.phase == Phase::Closed,
    ensures
        conn_course(c, events) == (c, Seq::<ConnAction>::empty()),
    decreases events.len(),
{
    if events.len() > 0 {
        closed_is_closed(c, events.drop_last());
        assert(Seq::<ConnAction>::empty() + Seq::<ConnAction>::empty() =~= Seq::empty());
    }
}

// ---------------------------------------------------------------- keys
/// How long the key of the peer may take to come, in milliseconds.
pub const KEY_TIMEOUT: u64 = 10_000;

/// Why keys were not exchanged.
#[derive(Debug, Clone, Copy, PartialEq, Eq, Structural)]
pub enum KeyExchangeError {
    /// The signing keys of this device have the wrong sizes.
    InvalidKeyPair { sk: usize, pk: usize },
    /// The signed identity could not be sent.
    NotSent,
    /// The peer did not answer in time.
    Timeout,
    /// The stream failed.
    Stream,
    /// The answer cannot be read.
    Unreadable,
    /// The peer does not know the public key of this device.
    UnknownKey,
    /// The key of the stream cannot be opened.
    BadKey,
}

/// What the peer answered.
#[derive(Debug, PartialEq, Eq)]
pub enum KeyReply {
    Timeout,
    StreamError,
    Unreadable,
    /// Its public key, and the sealed key of the stream. A message of another
    /// kind counts as one with both empty.
    PublicKey { asymmetric: Vec<u8>, symmetric: Vec<u8> },
}

/// How far a key exchange has come.
#[derive(Debug, Clone, Copy, PartialEq, Eq, Structural)]
pub enum KeyPhase {
    /// The signed identity is being sent.
    Sending,
    /// The key of the peer is awaited.
    Awaiting,
    /// The key of the stream is being opened.
    Opening,
    Ended,
}

/// What happens in a key exchange.
#[derive(Debug, PartialEq, Eq)]
pub enum ExchangeEvent {
    /// The signed identity was sent, or it could not be.
    Sent(bool),
    Replied(KeyReply),
    /// The key of the stream was opened, or it could not be.
    Opened(bool),
}

/// What to do in a key exchange.
#[derive(Debug, PartialEq, Eq)]
pub enum ExchangeAction {
    /// Wait for the key of the peer, up to this many milliseconds.
    AwaitReply(u64),
    /// Open the sealed key of the stream, with the public key of the peer and
    /// the secret key of the session.
    OpenKey { symmetric: Vec<u8>, asymmetric: Vec<u8> },
    /// The stream is secured with the key that was opened.
    Secured,
    /// Give the stream up.
    Fail(KeyExchangeError),
    /// Nothing.
    Nothing,
}

/// How a key exchange goes on after an event, and what is to be done. An
/// event that does not belong to the phase changes nothing.
pub open spec fn key_step(phase: KeyPhase, event: ExchangeEvent) -> (KeyPhase, ExchangeAction) {
    match (phase, event) {
        (KeyPhase::Sending, ExchangeEvent::Sent(ok)) => if ok {
            (KeyPhase::Awaiting, ExchangeAction::AwaitReply(KEY_TIMEOUT))
        } else {
            (KeyPhase::Ended, ExchangeAction::Fail(KeyExchangeError::NotSent))
        },
        (KeyPhase::Awaiting, ExchangeEvent::Replied(reply)) => match reply {
            KeyReply::Timeout => (KeyPhase::Ended, ExchangeAction::Fail(KeyExchangeError::Timeout)),
            KeyReply::StreamError => (
                KeyPhase::Ended,
                ExchangeAction::Fail(KeyExchangeError::Stream),
            ),
            KeyReply::Unreadable => (
                KeyPhase::Ended,
                ExchangeAction::Fail(KeyExchangeError::Unreadable),
            ),
            KeyReply::PublicKey { asymmetric, symmetric } => if asymmetric@.len() == 0 {
                (KeyPhase::Ended, ExchangeAction::Fail(KeyExchangeError::UnknownKey))
            } else {
                (KeyPhase::Opening, ExchangeAction::OpenKey { symmetric, asymmetric })
            },
        },
        (KeyPhase::Opening, ExchangeEvent::Opened(ok)) => (
            KeyPhase::Ended,
            if ok {
                ExchangeAction::Secured
            } else {
                ExchangeAction::Fail(KeyExchangeError::BadKey)
            },
        ),
        _ => (phase, ExchangeAction::Nothing),
    }
}

/// What is signed: the identifier of this device, and the public key of the
/// session.
#[derive(Debug, PartialEq, Eq)]
pub struct IdPk {
    pub id: String,
    pub pk: Vec<u8>,
}

/// A key exchange at work.
#[derive(Debug, PartialEq, Eq)]
pub struct KeyExchange {
    pub phase: KeyPhase,
    /// The signing key of this device.
    pub signing_key: Vec<u8>,
    /// The keys of this session.
    pub session: KeyPair,
}

/// Starts a key exchange, with fresh keys for the session. With signing keys
/// of the wrong sizes there is none, and nothing is sent.
pub fn setup_encrypted_stream(pair: &KeyPair) -> (r: Result<KeyExchange, KeyExchangeError>)
    ensures
        match r {
            Ok(k) => {
                &&& pair.sk@.len() == SECRETKEYBYTES
                &&& pair.pk@.len() == PUBLICKEYBYTES
                &&& k.wf()
                &&& k.phase == KeyPhase::Sending
                &&& k.signing_key@ == pair.sk@
                &&& k.session.pk@ == box_public(k.session.sk@)
            },
            Err(e) => {
                &&& pair.sk@.len() != SECRETKEYBYTES || pair.pk@.len() != PUBLICKEYBYTES
                &&& e matches KeyExchangeError::InvalidKeyPair { sk, pk }
                &&& sk == pair.sk@.len()
                &&& pk == pair.pk@.len()
            },
        },
{
    if pair.sk.len() != SECRETKEYBYTES || pair.pk.len() != PUBLICKEYBYTES {
        return Err(
            KeyExchangeError::InvalidKeyPair { sk: pair.sk.len(), pk: pair.pk.len() },
        );
    }
    Ok(
        KeyExchange {
            phase: KeyPhase::Sending,
            signing_key: copy_bytes(pair.sk.as_slice()),
            session: gen_box_keypair(),
        },
    )
}

impl KeyExchange {
    /// The signing key has its size, and the keys of the session are a pair.
    pub open spec fn wf(&self) -> bool {
        &&& self.signing_key@.len() == SECRETKEYBYTES
        &&& is_box_pair(self.session.sk@, self.session.pk@)
    }

    /// What is to be signed for this device.
    pub fn id_pk(&self, device_id: &str) -> (r: IdPk)
        ensures
            r.id@ == device_id@,
            r.pk@ == self.session.pk@,
    {
        IdPk {
            id: String::from_str(device_id),
            pk: copy_bytes(self.session.pk.as_slice()),
        }
    }

    /// Signs what `id_pk` gave, serialized.
    pub fn signed_id(&self, id_pk: &[u8]) -> (r: Vec<u8>)
        requires
            self.wf(),
            id_pk@.len() + SIGNATUREBYTES <= isize::MAX,
        ensures
            r@ == ed25519_signed(id_pk@, self.signing_key@),
            r@.len() == SIGNATUREBYTES + id_pk@.len(),
            r@.skip(SIGNATUREBYTES as int) == id_pk@,
    {
        sign(id_pk, self.signing_key.as_slice())
    }

    /// Takes an event, and says what to do. The keys stay.
    pub fn step(&mut self, event: ExchangeEvent) -> (r: ExchangeAction)
        ensures
            (final(self).phase, r) == key_step(old(self).phase, event),
            final(self).signing_key == old(self).signing_key,
            final(self).session == old(self).session,
    {
        match (self.phase, event) {
            (KeyPhase::Sending, ExchangeEvent::Sent(ok)) => {
                if ok {
                    self.phase = KeyPhase::Awaiting;
                    ExchangeAction::AwaitReply(KEY_TIMEOUT)
                } else {
                    self.phase = KeyPhase::Ended;
                    ExchangeAction::Fail(KeyExchangeError::NotSent)
                }
            },
            (KeyPhase::Awaiting, ExchangeEvent::Replied(reply)) => {
                self.phase = KeyPhase::Ended;
                match reply {
                    KeyReply::Timeout => ExchangeAction::Fail(KeyExchangeError::Timeout),
                    KeyReply::StreamError => ExchangeAction::Fail(KeyExchangeError::Stream),
                    KeyReply::Unreadable => ExchangeAction::Fail(KeyExchangeError::Unreadable),
                    KeyReply::PublicKey { asymmetric, symmetric } => {
                        if asymmetric.len() == 0 {
                            ExchangeAction::Fail(KeyExchangeError::UnknownKey)
                        } else {
                            self.phase = KeyPhase::Opening;
                            ExchangeAction::OpenKey { symmetric, asymmetric }
                        }
                    },
                }
            },
            (KeyPhase::Opening, ExchangeEvent::Opened(ok)) => {
                self.phase = KeyPhase::Ended;
                if ok {
                    ExchangeAction::Secured
                } else {
                    ExchangeAction::Fail(KeyExchangeError::BadKey)
                }
            },
            _ => ExchangeAction::Nothing,
        }
    }
}

/// How far a key exchange has come after a course of events.
pub open spec fn key_course(phase: KeyPhase, events: Seq<ExchangeEvent>) -> KeyPhase
    decreases events.len(),
{
    if events.len() == 0 {
        phase
    } else {
        key_step(key_course(phase, events.drop_last()), events.last()).0
    }
}

/// Whether an event brings the public key of the peer.
pub open spec fn brings_key(event: ExchangeEvent) -> bool {
    event matches ExchangeEvent::Replied(KeyReply::PublicKey { asymmetric, symmetric })
        && asymmetric@.len() > 0
}

/// Whether the signed identity was sent, and the key of the peer came after
/// it.
pub open spec fn keys_met(events: Seq<ExchangeEvent>) -> bool {
    exists|i: int, j: int|
        0 <= i < j < events.len() && #[trigger] events[i] == ExchangeEvent::Sent(true) && brings_key(
            #[trigger] events[j],
        )
}

/// A stream is never taken for secured while it is not: that takes an
/// identity that was sent, a key of the peer that came after it, and a key
/// of the stream that could be opened, in this order.
pub proof fn secured_in_order(events: Seq<ExchangeEvent>, event: ExchangeEvent)
    ensures
        key_step(key_course(KeyPhase::Sending, events), event).1 is Secured ==> {
            &&& event == ExchangeEvent::Opened(true)
            &&& keys_met(events)
        },
{
    lemma_key_course(events);
}

/// A key exchange that runs its course secures the stream if and only if the
/// identity could be sent, the peer answered with a key, and the key of the
/// stream could be opened.
pub proof fn secured_if_all_went_well(sent: bool, reply: KeyReply, opened: bool)
    ensures
        ({
            let events = seq![ExchangeEvent::Sent(sent), ExchangeEvent::Replied(reply)];
            let end = key_course(KeyPhase::Sending, events);
            key_step(end, ExchangeEvent::Opened(opened)).1 is Secured <==> sent && brings_key(
                ExchangeEvent::Replied(reply),
            ) && opened
        }),
{
    let events = seq![ExchangeEvent::Sent(sent), ExchangeEvent::Replied(reply)];
    reveal_with_fuel(key_course, 3);
    assert(events.drop_last() =~= seq![ExchangeEvent::Sent(sent)]);
    assert(events.drop_last().drop_last() =~= Seq::<ExchangeEvent>::empty());
}

/// What each phase has behind it.
proof fn lemma_key_course(events: Seq<ExchangeEvent>)
    ensures
        key_course(KeyPhase::Sending, events) == KeyPhase::Awaiting ==> exists|i: int|
            0 <= i < events.len() && #[trigger] events[i] == ExchangeEvent::Sent(true),
        key_course(KeyPhase::Sending, events) == KeyPhase::Opening ==> keys_met(events),
    decreases events.len(),
{
    if events.len() > 0 {
        let init = events.drop_last();
        let n = events.len() - 1;
        lemma_key_course(init);
        let before = key_course(KeyPhase::Sending, init);
        if before == KeyPhase::Opening && key_course(KeyPhase::Sending, events)
            == KeyPhase::Opening {
            let (i, j) = choose|i: int, j: int|
                0 <= i < j < init.len() && #[trigger] init[i] == ExchangeEvent::Sent(true)
                    && brings_key(#[trigger] init[j]);
            assert(events[i] == init[i] && events[j] == init[j]);
        }
        if before == KeyPhase::Awaiting {
            let i = choose|i: int|
                0 <= i < init.len() && #[trigger] init[i] == ExchangeEvent::Sent(true);
            assert(events[i] == init[i]);
            if key_course(KeyPhase::Sending, events) == KeyPhase::Opening {
                assert(brings_key(events[n]));
            }
        }
        if before == KeyPhase::Sending && key_course(KeyPhase::Sending, events)
            == KeyPhase::Awaiting {
            assert(events[n] == ExchangeEvent::Sent(true));
        }
    }
}

// ---------------------------------------------------------------- answers
/// What is told of a display.
#[derive(Debug, PartialEq, Eq)]
pub struct DisplayInfo {
    pub width: i32,
    pub height: i32,
    pub name: String,
    pub online: bool,
}

/// Codecs for a full chroma picture.
#[derive(Debug, Clone, Copy, PartialEq, Eq, Structural)]
pub struct CodecAbility {
    pub vp8: bool,
    pub vp9: bool,
    pub av1: bool,
    pub h264: bool,
    pub h265: bool,
}

/// Codecs that this device can encode with.
#[derive(Debug, Clone, Copy, PartialEq, Eq, Structural)]
pub struct SupportedEncoding {
    pub h264: bool,
    pub h265: bool,
    pub vp8: bool,
    pub av1: bool,
    pub i444: Option<CodecAbility>,
}

/// What a peer that has logged in is told of this device.
#[derive(Debug, PartialEq, Eq)]
pub struct PeerInfo {
    pub username: String,
    pub version: String,
    pub platform: String,
    pub displays: Vec<DisplayInfo>,
    pub current_display: i32,
    /// The sizes that the first display can take.
    pub resolutions: Option<Vec<(i32, i32)>>,
    pub privacy_mode: bool,
    pub terminal: bool,
    pub encoding: SupportedEncoding,
}

/// The encodings without AV1.
pub open spec fn without_av1(e: SupportedEncoding) -> SupportedEncoding {
    SupportedEncoding {
        av1: false,
        i444: match e.i444 {
            Some(a) => Some(CodecAbility { av1: false, ..a }),
            None => None,
        },
        ..e
    }
}

/// What this device tells of itself. `displays` are the sizes of the
/// displays, if they could be found out, and `resolutions` the sizes that the
/// first one can take.
pub fn send_login_response(
    hostname: &str,
    version: &str,
    platform: &str,
    displays: &Option<Vec<(u64, u64)>>,
    resolutions: Vec<(i32, i32)>,
    encoding: SupportedEncoding,
) -> (r: PeerInfo)
    ensures
        r.username@ == hostname@,
        r.version@ == version@,
        r.platform@ == platform@,
        match *displays {
            None => r.displays@.len() == 0 && r.resolutions is None,
            Some(sizes) => {
                &&& r.displays@.len() == sizes@.len()
                &&& forall|i: int|
                    0 <= i < sizes@.len() ==> {
                        &&& (#[trigger] r.displays@[i]).width == sizes@[i].0 as i32
                        &&& r.displays@[i].height == sizes@[i].1 as i32
                        &&& r.displays@[i].name@ == "Display "@ + decimal(i as nat)
                        &&& r.displays@[i].online
                    }
                &&& r.resolutions == (if sizes@.len() > 0 {
                    Some(resolutions)
                } else {
                    None
                })
            },
        },
        r.current_display == 0,
        !r.privacy_mode,
        !r.terminal,
        r.encoding == without_av1(encoding),
{
    let mut infos: Vec<DisplayInfo> = Vec::new();
    let mut listed: Option<Vec<(i32, i32)>> = None;
    match displays {
        None => {},
        Some(sizes) => {
            let mut i: usize = 0;
            while i < sizes.len()
                invariant
                    i <= sizes@.len(),
                    infos@.len() == i,
                    forall|j: int|
                        0 <= j < i ==> {
                            &&& (#[trigger] infos@[j]).width == sizes@[j].0 as i32
                            &&& infos@[j].height == sizes@[j].1 as i32
                            &&& infos@[j].name@ == "Display "@ + decimal(j as nat)
                            &&& infos@[j].online
                        },
                decreases sizes@.len() - i,
            {
                infos.push(
                    DisplayInfo {
                        width: #[verifier::truncate] (sizes[i].0 as i32),
                        height: #[verifier::truncate] (sizes[i].1 as i32),
                        name: join("Display ", to_decimal(i as u64).as_str()),
                        online: true,
                    },
                );
                i = i + 1;
            }
            if sizes.len() > 0 {
                listed = Some(resolutions);
            }
        },
    }
    let i444: Option<CodecAbility> = match encoding.i444 {
        Some(a) => Some(
            CodecAbility { vp8: a.vp8, vp9: a.vp9, av1: false, h264: a.h264, h265: a.h265 },
        ),
        None => None,
    };
    PeerInfo {
        username: String::from_str(hostname),
        version: String::from_str(version),
        platform: String::from_str(platform),
        displays: infos,
        current_display: 0,
        resolutions: listed,
        privacy_mode: false,
        terminal: false,
        encoding: SupportedEncoding {
            h264: encoding.h264,
            h265: encoding.h265,
            vp8: encoding.vp8,
            av1: false,
            i444,
        },
    }
}

/// The reason that is given where there is no other.
pub const CLOSED_MANUALLY: &'static str = "Closed manually by the peer";

/// The reason for closing that the peer is told.
pub fn send_close_reason(reason: &str) -> (r: String)
    ensures
        r@ == (if reason@.len() == 0 {
            CLOSED_MANUALLY@
        } else {
            reason@
        }),
{
    if reason.is_empty() {
        String::from_str(CLOSED_MANUALLY)
    } else {
        String::from_str(reason)
    }
}

} // verus!
