use sos_client::keys::KeyPair;
use sos_client::sos_config::{get_nat_type, RegistryConfig, SosConfig};
use sos_client::sos_rendezvous::{
    handle_punch_hole, handle_relay_fallback, handle_rendezvous_message, handle_request_relay,
    message_type, nat_from_number, relay_for, run, send_local_addr_fla, send_register_peer,
    send_register_pk, test_nat_type, FetchLocalAddr, NatType, PunchAction, PunchHole, PunchPhase,
    RegAction, RegEvent, RegPhase, RegisterPeer, RegisterPkResult, Registration, RelayAction,
    RelayEvent, RelayPhase, RendezvousAction, RendezvousMessage, RequestRelay, REG_INTERVAL_NS,
};

fn config() -> SosConfig {
    SosConfig {
        id: "100".to_string(),
        rendezvous_server: "rs.example".to_string(),
        relay_server: String::new(),
        key_pair: KeyPair { sk: vec![], pk: vec![] },
        password: String::new(),
        server_pub_key: "server key".to_string(),
    }
}

fn peer(nat_type: NatType, v4: &[u8], v6: &[u8]) -> PunchHole {
    PunchHole {
        socket_addr: v4.to_vec(),
        socket_addr_v6: v6.to_vec(),
        relay_server: "relay.example".to_string(),
        nat_type,
    }
}

fn numbered(id: &str, serial: i32) -> RegisterPeer {
    RegisterPeer { id: id.to_string(), serial }
}

/// A device that is registered, at the time zero.
fn registered() -> Registration {
    let mut r = run();
    r.step(RegEvent::Start, 0, "100");
    r.step(RegEvent::FirstSent(true), 0, "100");
    r.step(RegEvent::KeySent(true), 0, "100");
    r
}

#[test]
fn first_registration() {
    let mut r = run();
    assert_eq!(r.phase, RegPhase::New);
    assert_eq!(r.step(RegEvent::Round, REG_INTERVAL_NS, "100"), RegAction::Nothing);
    assert_eq!(
        r.step(RegEvent::Start, 1, "100"),
        RegAction::SendFirst(numbered("100", 0))
    );
    assert_eq!(r.step(RegEvent::Start, 1, "100"), RegAction::Nothing);
    assert_eq!(r.step(RegEvent::FirstSent(true), 2, "100"), RegAction::RegisterKey);
    assert_eq!(r.step(RegEvent::KeySent(false), 3, "100"), RegAction::TestNat);
    assert_eq!(
        r,
        Registration { phase: RegPhase::Running, serial: 1, last_reg: 3 }
    );
}

#[test]
fn first_registration_has_to_go_well() {
    let mut r = run();
    r.step(RegEvent::Start, 1, "100");
    assert_eq!(r.step(RegEvent::FirstSent(false), 2, "100"), RegAction::Fail);
    assert_eq!(r.phase, RegPhase::Failed);
    assert_eq!(r.step(RegEvent::Start, 3, "100"), RegAction::Nothing);
    assert_eq!(r.step(RegEvent::Round, REG_INTERVAL_NS, "100"), RegAction::Nothing);
}

#[test]
fn registers_every_fifteen_seconds() {
    let mut r = registered();
    assert_eq!(
        r.step(RegEvent::Round, REG_INTERVAL_NS - 1, "100"),
        RegAction::Listen(5000)
    );
    assert_eq!(
        r.step(RegEvent::Round, REG_INTERVAL_NS, "100"),
        RegAction::SendHeartbeat(numbered("100", 1))
    );
    // a failure is made up for
    assert_eq!(
        r.step(RegEvent::HeartbeatSent(false), REG_INTERVAL_NS, "100"),
        RegAction::Listen(5000)
    );
    assert_eq!(
        r.step(RegEvent::Round, REG_INTERVAL_NS, "100"),
        RegAction::SendHeartbeat(numbered("100", 2))
    );
    r.step(RegEvent::HeartbeatSent(true), REG_INTERVAL_NS + 7, "100");
    assert_eq!(
        r,
        Registration { phase: RegPhase::Running, serial: 3, last_reg: REG_INTERVAL_NS + 7 }
    );
    assert_eq!(
        r.step(RegEvent::Round, 2 * REG_INTERVAL_NS, "100"),
        RegAction::Listen(5000)
    );
}

#[test]
fn registers_under_the_present_identifier() {
    let mut r = registered();
    assert_eq!(
        r.step(RegEvent::Round, REG_INTERVAL_NS, "200"),
        RegAction::SendHeartbeat(numbered("200", 1))
    );
    assert_eq!(
        r.step(RegEvent::Reconnected(true), REG_INTERVAL_NS, "300"),
        RegAction::SendReregister(numbered("300", 2))
    );
}

#[test]
fn reconnects() {
    let mut r = registered();
    assert_eq!(r.step(RegEvent::ConnectionClosed, 1, "100"), RegAction::Reconnect);
    assert_eq!(
        r.step(RegEvent::Reconnected(false), 1, "100"),
        RegAction::NextRound(5000)
    );
    assert_eq!(
        r.step(RegEvent::Reconnected(true), 2, "100"),
        RegAction::SendReregister(numbered("100", 1))
    );
    assert_eq!(
        r.step(RegEvent::ReregisterSent(false), 3, "100"),
        RegAction::NextRound(0)
    );
    assert_eq!(
        r,
        Registration { phase: RegPhase::Running, serial: 2, last_reg: 3 }
    );
}

#[test]
fn what_comes_from_the_server() {
    let mut r = registered();
    for (event, action) in [
        (RegEvent::Received(true), RegAction::HandleMessage),
        (RegEvent::Received(false), RegAction::NextRound(0)),
        (RegEvent::ReceiveError, RegAction::NextRound(0)),
        (RegEvent::ReceiveTimeout, RegAction::NextRound(0)),
        (RegEvent::KeyWanted, RegAction::RegisterKey),
        (RegEvent::KeySent(false), RegAction::NextRound(0)),
        (RegEvent::FirstSent(false), RegAction::Nothing),
    ] {
        assert_eq!(r.step(event, 1, "100"), action);
    }
    assert_eq!(r, registered());
}

#[test]
fn serial_numbers_wrap_around() {
    let mut r = Registration { phase: RegPhase::Running, serial: u32::MAX, last_reg: 0 };
    assert_eq!(
        r.step(RegEvent::Round, REG_INTERVAL_NS, "100"),
        RegAction::SendHeartbeat(numbered("100", -1))
    );
    assert_eq!(r.serial, 0);
    let m = send_register_peer("id", u32::MAX);
    assert_eq!((m.id.as_str(), m.serial), ("id", -1));
    assert_eq!(send_register_peer("id", 0x7FFF_FFFF).serial, i32::MAX);
    assert_eq!(send_register_peer("id", 0x8000_0000).serial, i32::MIN);
    assert_eq!(send_register_peer("id", 0).serial, 0);
}

#[test]
fn names_of_rendezvous_messages() {
    let m = RendezvousMessage::RegisterPeerResponse { request_pk: true };
    assert_eq!(message_type(&m), "RegisterPeerResponse");
    assert_eq!(message_type(&RendezvousMessage::Other), "Other");
}

#[test]
fn public_key_is_registered_on_request() {
    let mut c = config();
    let mut registry = RegistryConfig::new(true, true);
    let mut memory = None;
    let request = |wanted| RendezvousMessage::RegisterPeerResponse { request_pk: wanted };
    assert_eq!(
        handle_rendezvous_message(request(false), &mut c, &mut registry, &mut memory),
        RendezvousAction::Nothing
    );
    assert_eq!(memory, None);
    let action = handle_rendezvous_message(request(true), &mut c, &mut registry, &mut memory);
    let pk = memory.as_ref().unwrap().pk.clone();
    assert_eq!(pk.len(), 32);
    assert_eq!(action, RendezvousAction::RegisterPk { id: "100".to_string(), pk });
    assert_eq!(
        send_register_pk("100", &registry, &mut memory),
        action
    );
    let mut none = Some(KeyPair { sk: vec![], pk: vec![] });
    assert_eq!(
        send_register_pk("100", &registry, &mut none),
        RendezvousAction::Nothing
    );
}

#[test]
fn public_key_is_accepted() {
    let mut c = config();
    let mut registry = RegistryConfig::new(true, true);
    let mut memory = None;
    let m = RendezvousMessage::RegisterPkResponse(RegisterPkResult::Accepted);
    assert_eq!(
        handle_rendezvous_message(m, &mut c, &mut registry, &mut memory),
        RendezvousAction::Nothing
    );
    assert!(registry.get_key_confirmed());
    let m = RendezvousMessage::RegisterPkResponse(RegisterPkResult::Other);
    handle_rendezvous_message(m, &mut c, &mut registry, &mut memory);
    assert!(registry.get_key_confirmed());
    assert_eq!(c, config());
}

#[test]
fn taken_identifier_is_replaced() {
    let mut c = config();
    let mut registry = RegistryConfig::new(true, true);
    registry.set_key_confirmed(true);
    let mut memory = None;
    let m = RendezvousMessage::RegisterPkResponse(RegisterPkResult::UuidMismatch);
    let action = handle_rendezvous_message(m, &mut c, &mut registry, &mut memory);
    assert_ne!(c.id, "100");
    assert_eq!(c.id.len(), 10);
    assert_eq!(registry.get_id(), c.id);
    assert!(!registry.get_key_confirmed());
    assert_eq!(
        action,
        RendezvousAction::RegisterPk { id: c.id.clone(), pk: memory.unwrap().pk }
    );
}

#[test]
fn peers_are_passed_on() {
    let mut c = config();
    let mut registry = RegistryConfig::new(true, true);
    let mut memory = None;
    let mut act = |m| handle_rendezvous_message(m, &mut c, &mut registry, &mut memory);
    let ph = || peer(NatType::Unknown, b"a", b"b");
    assert_eq!(act(RendezvousMessage::PunchHole(ph())), RendezvousAction::Connect(ph()));
    let fla = || FetchLocalAddr { socket_addr: vec![1], relay_server: "r".to_string() };
    assert_eq!(
        act(RendezvousMessage::FetchLocalAddr(fla())),
        RendezvousAction::ConnectLocally(fla())
    );
    assert_eq!(act(RendezvousMessage::Other), RendezvousAction::Nothing);
}

#[test]
fn kinds_of_nat() {
    let mut slot = None;
    assert_eq!(test_nat_type(Some(5000), Some(5000), &mut slot), NatType::Asymmetric);
    assert_eq!(get_nat_type(&slot), 1);
    for (a, b) in [
        (Some(5000), Some(5001)),
        (Some(0), Some(0)),
        (Some(-1), Some(-1)),
        (None, Some(5000)),
        (None, None),
    ] {
        assert_eq!(test_nat_type(a, b, &mut slot), NatType::Symmetric);
        assert_eq!(get_nat_type(&slot), 2);
    }
    assert_eq!(nat_from_number(0), NatType::Unknown);
    assert_eq!(nat_from_number(1), NatType::Asymmetric);
    assert_eq!(nat_from_number(2), NatType::Symmetric);
    assert_eq!(nat_from_number(3), NatType::Unknown);
}

#[test]
fn symmetric_nat_goes_through_a_relay() {
    let (p, action) = handle_punch_hole(&peer(NatType::Symmetric, b"1.2.3.4:5", b""), 1);
    assert_eq!(action, PunchAction::Relay);
    assert_eq!(p.phase, PunchPhase::Ended);
    let (_, action) = handle_punch_hole(&peer(NatType::Asymmetric, b"1.2.3.4:5", b""), 2);
    assert_eq!(action, PunchAction::Relay);
    let (_, action) = handle_punch_hole(&peer(NatType::Unknown, b"", b"[::1]:5"), 0);
    assert_eq!(action, PunchAction::Relay);
}

#[test]
fn addresses_are_tried_in_turn() {
    let ph = peer(NatType::Asymmetric, b"1.2.3.4:5", b"[::1]:5");
    let (mut p, action) = handle_punch_hole(&ph, 1);
    assert_eq!(action, PunchAction::Connect("1.2.3.4:5".to_string()));
    assert_eq!(p.connected(false), PunchAction::Connect("[::1]:5".to_string()));
    assert_eq!(p.connected(false), PunchAction::Relay);
    let (mut p, _) = handle_punch_hole(&ph, 1);
    p.connected(false);
    assert_eq!(p.connected(true), PunchAction::Serve);
    let (mut p, _) = handle_punch_hole(&ph, 0);
    assert_eq!(p.connected(true), PunchAction::Serve);
    let (mut p, _) = handle_punch_hole(&peer(NatType::Unknown, b"1.2.3.4:5", b""), 0);
    assert_eq!(p.connected(false), PunchAction::Relay);
}

#[test]
fn addresses_that_are_not_text() {
    let (_, action) = handle_punch_hole(&peer(NatType::Unknown, &[b'a', 0xFF], b""), 0);
    assert_eq!(action, PunchAction::Connect("a\u{FFFD}".to_string()));
    let text = "h\u{e9}te:5";
    let (p, action) = handle_punch_hole(&peer(NatType::Unknown, text.as_bytes(), b"x"), 0);
    assert_eq!(action, PunchAction::Connect(text.to_string()));
    assert_eq!(p.v6_addr, "x");
}

#[test]
fn relay_keeps_the_name_that_the_peer_gave() {
    let rr = RequestRelay {
        id: "200".to_string(),
        uuid: "shared".to_string(),
        socket_addr: vec![1, 2],
        relay_server: "relay.example".to_string(),
    };
    let plan = handle_request_relay(&rr, &config(), "default key").unwrap();
    assert_eq!(plan.response.uuid, "shared");
    assert_eq!(plan.request.uuid, "shared");
    assert_eq!(plan.response.socket_addr, vec![1, 2]);
    assert_eq!(plan.response.relay_server, "relay.example");
    assert_eq!(plan.response.id, "100");
    assert_eq!(plan.response.version, "1.4.4");
    assert_eq!(plan.request.licence_key, "server key");
    assert_eq!(plan.request.id, "200");
    assert_eq!(plan.server, "rs.example");
    // the peer is at this relay already, whatever the settings say
    let mut c = config();
    c.relay_server = "my.relay".to_string();
    let plan = handle_request_relay(&rr, &c, "default key").unwrap();
    assert_eq!(plan.response.relay_server, "relay.example");
}

#[test]
fn relay_of_the_settings_comes_first() {
    let mut c = config();
    c.relay_server = "my.relay".to_string();
    let ph = peer(NatType::Symmetric, &[9], b"");
    assert_eq!(relay_for(&ph, &c, "k").response.relay_server, "my.relay");
    c.relay_server = String::new();
    assert_eq!(relay_for(&ph, &c, "k").response.relay_server, "relay.example");
}

#[test]
fn server_is_told_before_the_relay_is_asked() {
    let mut plan = handle_relay_fallback("relay.example", &config(), &[7], None, "", "k");
    assert_eq!(plan.phase, RelayPhase::New);
    assert_eq!(plan.step(RelayEvent::Told(true)), RelayAction::Nothing);
    assert_eq!(plan.step(RelayEvent::Start), RelayAction::Tell(21116));
    assert_eq!(plan.step(RelayEvent::Asked(true)), RelayAction::Nothing);
    assert_eq!(plan.step(RelayEvent::Told(true)), RelayAction::Ask(21117));
    assert_eq!(plan.step(RelayEvent::Asked(true)), RelayAction::Serve);
    assert_eq!(plan.phase, RelayPhase::Ended);
    assert_eq!(plan.server, "rs.example");
    assert_eq!(plan.response.relay_server, "relay.example");
    assert_eq!(plan.response.socket_addr, vec![7]);
}

#[test]
fn relay_is_not_asked_where_the_server_was_not_told() {
    let mut plan = handle_relay_fallback("relay.example", &config(), &[], None, "", "k");
    plan.step(RelayEvent::Start);
    assert_eq!(plan.step(RelayEvent::Told(false)), RelayAction::Fail);
    assert_eq!(plan.step(RelayEvent::Told(true)), RelayAction::Nothing);
    assert_eq!(plan.step(RelayEvent::Start), RelayAction::Nothing);
    let mut plan = handle_relay_fallback("relay.example", &config(), &[], None, "", "k");
    plan.step(RelayEvent::Start);
    plan.step(RelayEvent::Told(true));
    assert_eq!(plan.step(RelayEvent::Asked(false)), RelayAction::Fail);
}

#[test]
fn relay_without_a_name_gets_one() {
    let mut c = config();
    c.server_pub_key = String::new();
    let plan = relay_for(&peer(NatType::Symmetric, &[9], b""), &c, "default key");
    assert_eq!(plan.response.uuid.len(), 16);
    assert!(plan.response.uuid.chars().all(|x| x.is_ascii_alphanumeric()));
    assert_eq!(plan.response.uuid, plan.request.uuid);
    assert_eq!(plan.response.socket_addr, vec![9]);
    assert_eq!(plan.request.licence_key, "default key");
    assert_eq!(plan.request.id, "");
    let other = handle_relay_fallback("r", &c, &[], None, "", "k");
    assert_ne!(other.response.uuid, plan.response.uuid);
}

#[test]
fn relay_without_a_server_is_refused() {
    let rr = RequestRelay {
        id: String::new(),
        uuid: String::new(),
        socket_addr: vec![],
        relay_server: String::new(),
    };
    assert_eq!(handle_request_relay(&rr, &config(), "k"), None);
}

#[test]
fn peer_of_the_same_network() {
    let fla = FetchLocalAddr { socket_addr: vec![3], relay_server: "r".to_string() };
    let a = send_local_addr_fla(&fla, &config(), vec![4], vec![5]);
    assert_eq!(a.id, "100");
    assert_eq!((a.socket_addr, a.local_addr), (vec![4], vec![5]));
    assert_eq!((a.relay_server.as_str(), a.version.as_str()), ("r", "1.4.4"));
}
