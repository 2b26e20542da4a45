use sos_client::keys::KeyPair;
use sos_client::sos_config::RegistryConfig;
use sos_client::sos_connection::{
    handle, send_close_reason, send_login_response, setup_encrypted_stream, CodecAbility,
    ConnAction, ConnEvent, Connection, ExchangeAction, ExchangeEvent, IdPk, KeyExchange,
    KeyExchangeError, KeyPhase, KeyReply, Phase, SupportedEncoding, LOGIN_TIMEOUT,
};
use sos_client::sos_login::{expected_proof, new_challenge, Challenge, LoginFailures};

fn challenge() -> Challenge {
    Challenge { salt: "salt".to_string(), challenge: "challenge".to_string() }
}

fn login(password: &str, current: &str, file_transfer: bool) -> ConnEvent {
    ConnEvent::LoginRequest {
        proof_of_password: expected_proof(password, "salt", "challenge"),
        file_transfer,
        current_password: current.to_string(),
    }
}

fn awaiting(fixed: &str, failures: &mut LoginFailures) -> Connection {
    let mut c = handle("10.0.0.1", fixed, failures, 0).unwrap();
    assert_eq!(
        c.step(ConnEvent::KeysExchanged(Ok(challenge())), failures, 0),
        vec![ConnAction::SendChallenge]
    );
    assert_eq!((c.salt.as_str(), c.challenge.as_str()), ("salt", "challenge"));
    assert_eq!(
        c.step(ConnEvent::ChallengeSent(true), failures, 0),
        vec![ConnAction::AwaitLogin(LOGIN_TIMEOUT)]
    );
    c
}

#[test]
fn peer_with_the_password_is_served() {
    let mut failures = LoginFailures::new();
    failures.record_login_failure("10.0.0.2", 0);
    let mut c = awaiting("", &mut failures);
    assert_eq!(
        c.step(login("now", "now", false), &mut failures, 0),
        vec![ConnAction::SendLoginResponse]
    );
    assert_eq!(
        c.step(ConnEvent::LoginAnswered(true), &mut failures, 0),
        vec![ConnAction::RunServiceLoop]
    );
    assert_eq!(
        c.step(ConnEvent::ServiceEnded(true), &mut failures, 0),
        vec![ConnAction::RefreshPassword, ConnAction::Finish(true)]
    );
    assert_eq!(c.phase, Phase::Closed);
    assert_eq!(failures.check_login_rate_limit("10.0.0.2", 0), 2);
}

#[test]
fn file_transfers_have_their_own_loop() {
    let mut failures = LoginFailures::new();
    let mut c = awaiting("fixed", &mut failures);
    c.step(login("fixed", "now", true), &mut failures, 0);
    assert_eq!(
        c.step(ConnEvent::LoginAnswered(true), &mut failures, 0),
        vec![ConnAction::RunFileTransferLoop]
    );
    assert_eq!(
        c.step(ConnEvent::ServiceEnded(false), &mut failures, 0),
        vec![ConnAction::RefreshPassword, ConnAction::Finish(false)]
    );
}

#[test]
fn fifth_wrong_password_closes_the_connection() {
    let mut failures = LoginFailures::new();
    let mut c = awaiting("", &mut failures);
    for _ in 0..4 {
        assert_eq!(
            c.step(login("guess", "now", false), &mut failures, 0),
            vec![
                ConnAction::SendLoginError("Wrong Password"),
                ConnAction::AwaitLogin(60_000)
            ]
        );
    }
    assert_eq!(
        c.step(login("guess", "now", false), &mut failures, 0),
        vec![
            ConnAction::SendLoginError("Wrong Password"),
            ConnAction::SendCloseReason("Wrong Password"),
            ConnAction::Finish(true)
        ]
    );
    assert_eq!(c.phase, Phase::Closed);
    // too late
    assert_eq!(c.step(login("now", "now", false), &mut failures, 0), vec![]);
    // and the next connection has to wait
    assert_eq!(handle("10.0.0.1", "", &failures, 0), Err(32));
    assert!(handle("10.0.0.9", "", &failures, 0).is_ok());
}

#[test]
fn right_password_clears_the_failures() {
    let mut failures = LoginFailures::new();
    let mut c = awaiting("", &mut failures);
    c.step(login("guess", "now", false), &mut failures, 0);
    assert_eq!(failures.check_login_rate_limit("10.0.0.1", 0), 2);
    c.step(login("now", "now", false), &mut failures, 0);
    assert_eq!(failures.check_login_rate_limit("10.0.0.1", 0), 0);
}

#[test]
fn peer_may_take_its_time_to_type() {
    let mut failures = LoginFailures::new();
    let mut c = awaiting("", &mut failures);
    let empty = ConnEvent::LoginRequest {
        proof_of_password: vec![],
        file_transfer: false,
        current_password: "now".to_string(),
    };
    assert_eq!(
        c.step(empty, &mut failures, 0),
        vec![ConnAction::AwaitLogin(60_000)]
    );
    assert_eq!(
        c.step(ConnEvent::OtherMessage, &mut failures, 0),
        vec![ConnAction::AwaitLogin(60_000)]
    );
    assert_eq!(c.attempts, 0);
    assert_eq!(failures.check_login_rate_limit("10.0.0.1", 0), 0);
    assert_eq!(
        c.step(ConnEvent::LoginEnded, &mut failures, 0),
        vec![ConnAction::Finish(true)]
    );
}

#[test]
fn failures_on_the_way_close_the_connection() {
    let mut failures = LoginFailures::new();
    let mut c = handle("a", "", &failures, 0).unwrap();
    assert_eq!(
        c.step(ConnEvent::KeysExchanged(Err(KeyExchangeError::Timeout)), &mut failures, 0),
        vec![ConnAction::Finish(true)]
    );
    assert_eq!(c.phase, Phase::Closed);
    let mut c = handle("a", "", &failures, 0).unwrap();
    c.step(ConnEvent::KeysExchanged(Ok(challenge())), &mut failures, 0);
    assert_eq!(
        c.step(ConnEvent::ChallengeSent(false), &mut failures, 0),
        vec![ConnAction::Finish(false)]
    );
    let mut c = awaiting("p", &mut failures);
    c.step(login("p", "", false), &mut failures, 0);
    // no refresh: the peer was not served
    assert_eq!(
        c.step(ConnEvent::LoginAnswered(false), &mut failures, 0),
        vec![ConnAction::Finish(false)]
    );
}

#[test]
fn events_out_of_order_do_nothing() {
    let mut failures = LoginFailures::new();
    let mut c = handle("a", "", &failures, 0).unwrap();
    for event in [
        ConnEvent::ChallengeSent(true),
        ConnEvent::LoginAnswered(true),
        ConnEvent::ServiceEnded(true),
        ConnEvent::LoginEnded,
        login("now", "now", false),
    ] {
        assert_eq!(c.step(event, &mut failures, 0), vec![]);
    }
    assert_eq!(c.phase, Phase::KeyExchange);
}

#[test]
fn keys_of_wrong_sizes_are_refused() {
    let pair = KeyPair { sk: vec![0; 32], pk: vec![0; 32] };
    assert_eq!(
        setup_encrypted_stream(&pair),
        Err(KeyExchangeError::InvalidKeyPair { sk: 32, pk: 32 })
    );
    let pair = KeyPair { sk: vec![0; 64], pk: vec![0; 31] };
    assert_eq!(
        setup_encrypted_stream(&pair),
        Err(KeyExchangeError::InvalidKeyPair { sk: 64, pk: 31 })
    );
}

#[test]
fn identity_is_signed() {
    let registry = RegistryConfig::new(true, true);
    let mut memory = None;
    let pair = registry.get_key_pair(&mut memory);
    let exchange = setup_encrypted_stream(&pair).unwrap();
    assert_eq!(exchange.signing_key, pair.sk);
    assert_eq!((exchange.session.sk.len(), exchange.session.pk.len()), (32, 32));
    assert_ne!(setup_encrypted_stream(&pair).unwrap().session, exchange.session);
    let signed = exchange.signed_id(b"identity");
    assert_eq!(signed.len(), 64 + 8);
    assert_eq!(&signed[64..], b"identity");
    assert_eq!(signed, exchange.signed_id(b"identity"));
    // the public key opens what the secret key has signed
    let mut key = [0u8; 32];
    key.copy_from_slice(&pair.pk);
    let opened =
        sodiumoxide::crypto::sign::verify(&signed, &sodiumoxide::crypto::sign::PublicKey(key));
    assert_eq!(opened, Ok(b"identity".to_vec()));
}

#[test]
fn unknown_key_is_registered_again() {
    let mut failures = LoginFailures::new();
    let mut c = handle("a", "", &failures, 0).unwrap();
    assert_eq!(
        c.step(ConnEvent::KeysExchanged(Err(KeyExchangeError::UnknownKey)), &mut failures, 0),
        vec![ConnAction::RegisterKey, ConnAction::Finish(true)]
    );
    assert_eq!(c.phase, Phase::Closed);
}

fn exchange() -> KeyExchange {
    let registry = RegistryConfig::new(true, true);
    setup_encrypted_stream(&registry.get_key_pair(&mut None)).unwrap()
}

#[test]
fn session_keys_belong_together() {
    let e = exchange();
    let secret = sodiumoxide::crypto::box_::SecretKey::from_slice(&e.session.sk).unwrap();
    assert_eq!(secret.public_key().as_ref(), &e.session.pk[..]);
    assert_ne!(e.session.sk, e.session.pk);
    assert_eq!(e.id_pk("100"), IdPk { id: "100".to_string(), pk: e.session.pk.clone() });
}

#[test]
fn keys_are_exchanged() {
    let mut e = exchange();
    let (signing_key, session_pk) = (e.signing_key.clone(), e.session.pk.clone());
    assert_eq!(e.phase, KeyPhase::Sending);
    // nothing is awaited before the identity was sent
    let early = KeyReply::PublicKey { asymmetric: vec![2], symmetric: vec![1] };
    assert_eq!(e.step(ExchangeEvent::Replied(early)), ExchangeAction::Nothing);
    assert_eq!(e.step(ExchangeEvent::Opened(true)), ExchangeAction::Nothing);
    assert_eq!(e.step(ExchangeEvent::Sent(true)), ExchangeAction::AwaitReply(10_000));
    let reply = KeyReply::PublicKey { asymmetric: vec![2], symmetric: vec![1] };
    assert_eq!(
        e.step(ExchangeEvent::Replied(reply)),
        ExchangeAction::OpenKey { symmetric: vec![1], asymmetric: vec![2] }
    );
    assert_eq!(e.step(ExchangeEvent::Opened(true)), ExchangeAction::Secured);
    assert_eq!(e.phase, KeyPhase::Ended);
    assert_eq!(e.step(ExchangeEvent::Opened(true)), ExchangeAction::Nothing);
    assert_eq!((e.signing_key, e.session.pk), (signing_key, session_pk));
}

#[test]
fn failures_of_the_key_exchange() {
    let mut e = exchange();
    assert_eq!(
        e.step(ExchangeEvent::Sent(false)),
        ExchangeAction::Fail(KeyExchangeError::NotSent)
    );
    assert_eq!(e.phase, KeyPhase::Ended);
    for (reply, error) in [
        (KeyReply::Timeout, KeyExchangeError::Timeout),
        (KeyReply::StreamError, KeyExchangeError::Stream),
        (KeyReply::Unreadable, KeyExchangeError::Unreadable),
        (
            KeyReply::PublicKey { asymmetric: vec![], symmetric: vec![1] },
            KeyExchangeError::UnknownKey,
        ),
    ] {
        let mut e = exchange();
        e.step(ExchangeEvent::Sent(true));
        assert_eq!(e.step(ExchangeEvent::Replied(reply)), ExchangeAction::Fail(error));
        assert_eq!(e.phase, KeyPhase::Ended);
    }
    let mut e = exchange();
    e.step(ExchangeEvent::Sent(true));
    let reply = KeyReply::PublicKey { asymmetric: vec![2], symmetric: vec![] };
    e.step(ExchangeEvent::Replied(reply));
    assert_eq!(
        e.step(ExchangeEvent::Opened(false)),
        ExchangeAction::Fail(KeyExchangeError::BadKey)
    );
}

#[test]
fn challenge_of_the_registry_is_used() {
    let mut failures = LoginFailures::new();
    let mut registry = RegistryConfig::new(true, true);
    let given = new_challenge(&mut registry);
    let (salt, chal) = (given.salt.clone(), given.challenge.clone());
    let mut c = handle("a", "pw", &failures, 0).unwrap();
    c.step(ConnEvent::KeysExchanged(Ok(given)), &mut failures, 0);
    c.step(ConnEvent::ChallengeSent(true), &mut failures, 0);
    let event = ConnEvent::LoginRequest {
        proof_of_password: expected_proof("pw", &salt, &chal),
        file_transfer: false,
        current_password: String::new(),
    };
    assert_eq!(
        c.step(event, &mut failures, 0),
        vec![ConnAction::SendLoginResponse]
    );
}

fn all_codecs() -> SupportedEncoding {
    SupportedEncoding {
        h264: true,
        h265: true,
        vp8: true,
        av1: true,
        i444: Some(CodecAbility { vp8: true, vp9: true, av1: true, h264: true, h265: true }),
    }
}

#[test]
fn device_tells_of_itself() {
    let info = send_login_response(
        "host",
        "0.1.0",
        "windows",
        &Some(vec![(1920, 1080), (800, 600)]),
        vec![(640, 480)],
        all_codecs(),
    );
    assert_eq!(info.username, "host");
    assert_eq!(info.version, "0.1.0");
    assert_eq!(info.platform, "windows");
    assert_eq!(info.displays.len(), 2);
    assert_eq!((info.displays[1].width, info.displays[1].height), (800, 600));
    assert_eq!(info.displays[0].name, "Display 0");
    assert_eq!(info.displays[1].name, "Display 1");
    assert!(info.displays[0].online);
    assert_eq!(info.current_display, 0);
    assert_eq!(info.resolutions, Some(vec![(640, 480)]));
    assert!(!info.privacy_mode && !info.terminal);
    assert_eq!(
        info.encoding,
        SupportedEncoding {
            av1: false,
            i444: Some(CodecAbility { vp8: true, vp9: true, av1: false, h264: true, h265: true }),
            ..all_codecs()
        }
    );
}

#[test]
fn device_without_displays() {
    let encoding = SupportedEncoding { i444: None, ..all_codecs() };
    let info = send_login_response("", "1", "windows", &None, vec![(1, 1)], encoding);
    assert!(info.displays.is_empty());
    assert_eq!(info.resolutions, None);
    assert_eq!(info.encoding.i444, None);
    assert!(!info.encoding.av1);
    let info = send_login_response("", "1", "windows", &Some(vec![]), vec![(1, 1)], encoding);
    assert_eq!(info.resolutions, None);
}

#[test]
fn reasons_for_closing() {
    assert_eq!(send_close_reason("Send error"), "Send error");
    assert_eq!(send_close_reason(""), "Closed manually by the peer");
}
