use sos_client::keys::KeyPair;
use sos_client::sos_config::{
    generate_temp_password, get_current_password, get_nat_type, initial_password,
    refresh_password, set_current_password, set_nat_type, CliOptions, RegValue, RegistryConfig,
    RegistryError, SosConfig,
};

fn alphanumeric(s: &str) -> bool {
    s.chars().all(|c| c.is_ascii_alphanumeric())
}

fn cli(id: &str, rendezvous: &str, key: &str, password: &str) -> CliOptions {
    CliOptions {
        id: id.to_string(),
        rendezvous: rendezvous.to_string(),
        relay: "relay.example".to_string(),
        key: key.to_string(),
        password: password.to_string(),
    }
}

fn known() -> Vec<String> {
    vec!["first.example".to_string(), "second.example".to_string()]
}

#[test]
fn password_slot() {
    let mut slot = None;
    assert_eq!(get_current_password(&slot), "");
    set_current_password(&mut slot, "abc".to_string());
    assert_eq!(get_current_password(&slot), "abc");
}

#[test]
fn temporary_passwords_have_eight_letters_and_digits() {
    let a = generate_temp_password();
    assert_eq!(a.len(), 8);
    assert!(alphanumeric(&a));
    assert_ne!(a, generate_temp_password());
}

#[test]
fn fixed_password_is_never_replaced() {
    assert_eq!(initial_password("mine"), "mine");
    let mut slot = Some("mine".to_string());
    assert!(!refresh_password("mine", &mut slot));
    assert_eq!(slot, Some("mine".to_string()));
    assert_eq!(initial_password("").len(), 8);
    assert!(refresh_password("", &mut slot));
    assert_ne!(slot, Some("mine".to_string()));
    assert_eq!(slot.unwrap().len(), 8);
}

#[test]
fn nat_slot() {
    let mut slot = None;
    assert_eq!(get_nat_type(&slot), 0);
    set_nat_type(&mut slot, 2);
    assert_eq!(get_nat_type(&slot), 2);
}

#[test]
fn texts_and_numbers_are_read_back() {
    let mut r = RegistryConfig::new(true, true);
    assert_eq!(r.get_string("A", "none"), "none");
    assert_eq!(r.set_string("A", "x"), Ok(()));
    assert_eq!(r.get_string("A", "none"), "x");
    assert_eq!(r.get_dword("A", 9), 9);
    assert_eq!(r.set_dword("A", 4), Ok(()));
    assert_eq!(r.get_dword("A", 9), 4);
    assert_eq!(r.get_string("A", "none"), "none");
    r.put("A", RegValue::Other);
    assert_eq!(r.get_dword("A", 9), 9);
    assert_eq!(r.value("A"), Some(&RegValue::Other));
    assert_eq!(r.value("B"), None);
}

#[test]
fn options_are_apart() {
    let mut r = RegistryConfig::new(true, true);
    r.set_string("k", "value").unwrap();
    assert_eq!(r.get_option("k"), "");
    assert_eq!(r.set_option("k", "option"), Ok(()));
    assert_eq!(r.get_option("k"), "option");
    assert_eq!(r.get_string("k", ""), "value");
    let mut r = RegistryConfig::new(true, false);
    assert_eq!(r.set_option("k", "option"), Err(RegistryError::Unavailable));
    assert_eq!(r.get_option("k"), "");
}

#[test]
fn unavailable_registry() {
    let mut r = RegistryConfig::new(false, false);
    r.put("ID", RegValue::Text("1".to_string()));
    assert_eq!(r.get_id(), "");
    assert!(!r.is_initialized());
    assert_eq!(r.set_string("A", "x"), Err(RegistryError::Unavailable));
    assert_eq!(r.set_dword("A", 1), Err(RegistryError::Unavailable));
    assert_eq!(r.set_binary("A", &[1]), Err(RegistryError::Unavailable));
    assert_eq!(r.init_first_run("5", None), Err(RegistryError::Unavailable));
    let salt = r.get_password_salt();
    assert_eq!(salt.len(), 12);
    assert_ne!(salt, r.get_password_salt());
    assert_eq!(r.update_id().len(), 10);
    assert_eq!(r.value("Salt"), None);
}

#[test]
fn bytes_are_stored_as_hexadecimal_digits() {
    let mut r = RegistryConfig::new(true, true);
    assert_eq!(r.get_binary("B"), Ok(vec![]));
    let data: Vec<u8> = (0..=255u8).collect();
    r.set_binary("B", &data).unwrap();
    assert_eq!(r.get_binary("B"), Ok(data));
    r.set_binary("B", &[0x0a, 0xff]).unwrap();
    assert_eq!(r.get_string("B", ""), "0aff");
    r.set_string("B", "0AfF").unwrap();
    assert_eq!(r.get_binary("B"), Ok(vec![0x0a, 0xff]));
    for bad in ["0", "0g", "密", "0x12"] {
        r.set_string("B", bad).unwrap();
        assert_eq!(r.get_binary("B"), Err(RegistryError::BadHex));
    }
}

#[test]
fn key_pair_of_the_registry() {
    let mut r = RegistryConfig::new(true, true);
    let both: Vec<u8> = (0..64u8).collect();
    r.set_binary("KeyPair", &both).unwrap();
    let mut memory = None;
    let pair = r.get_key_pair(&mut memory);
    assert_eq!(pair.sk, both[..32].to_vec());
    assert_eq!(pair.pk, both[32..].to_vec());
    assert_eq!(memory, None);
}

#[test]
fn key_pair_in_memory() {
    let mut r = RegistryConfig::new(true, true);
    r.set_binary("KeyPair", &[1; 63]).unwrap();
    let mut memory = None;
    let first = r.get_key_pair(&mut memory);
    assert_eq!((first.sk.len(), first.pk.len()), (64, 32));
    // an Ed25519 secret key ends with its public key
    assert_eq!(first.sk[32..], first.pk[..]);
    // and begins with the seed that the public key is made of
    let seed = sodiumoxide::crypto::sign::Seed::from_slice(&first.sk[..32]).unwrap();
    let (pk, _) = sodiumoxide::crypto::sign::keypair_from_seed(&seed);
    assert_eq!(pk.as_ref(), &first.pk[..]);
    assert_eq!(r.get_key_pair(&mut memory), first);
    let mut other = None;
    assert_ne!(r.get_key_pair(&mut other), first);
}

#[test]
fn key_confirmation() {
    let mut r = RegistryConfig::new(true, true);
    assert!(!r.get_key_confirmed());
    r.set_key_confirmed(true);
    assert!(r.get_key_confirmed());
    assert_eq!(r.get_dword("KeyConfirmed", 7), 1);
    r.set_key_confirmed(false);
    assert!(!r.get_key_confirmed());
}

#[test]
fn named_values() {
    let mut r = RegistryConfig::new(true, true);
    r.set_string("EncID", "e").unwrap();
    r.set_string("Password", "p").unwrap();
    r.set_rendezvous_server("s").unwrap();
    assert_eq!(r.get_enc_id(), "e");
    assert_eq!(r.get_password(&Some("now".to_string())), "p");
    r.set_string("Password", "").unwrap();
    assert_eq!(r.get_password(&Some("now".to_string())), "now");
    assert_eq!(r.get_rendezvous_server(), "s");
}

#[test]
fn salt_is_made_once() {
    let mut r = RegistryConfig::new(true, true);
    let salt = r.get_password_salt();
    assert_eq!(salt.len(), 12);
    assert!(alphanumeric(&salt));
    assert_eq!(r.get_password_salt(), salt);
    assert_eq!(r.get_string("Salt", ""), salt);
}

#[test]
fn legacy_values_are_deleted() {
    let mut r = RegistryConfig::new(true, true);
    let legacy = [
        "KeyPair",
        "Password",
        "TemporaryPassword",
        "RendezvousServer",
        "KeyConfirmed",
        "EncID",
        "NatType",
    ];
    for name in legacy {
        r.set_string(name, "old").unwrap();
    }
    r.set_string("Salt", "stays").unwrap();
    r.set_string("ID", "stays too").unwrap();
    r.clean_legacy_keys();
    for name in legacy {
        assert_eq!(r.value(name), None);
    }
    assert_eq!(r.get_string("Salt", ""), "stays");
    assert_eq!(r.get_id(), "stays too");
}

#[test]
fn identifier_from_the_hardware_address() {
    let id = RegistryConfig::generate_auto_id(Some([0xAA, 0xBB, 0xFF, 0x01, 0x02, 0x03]));
    assert_eq!(id, (0xFF01_0203u32 & 0x1FFF_FFFF).to_string());
    let id = RegistryConfig::generate_auto_id(Some([1, 2, 0, 0, 0, 9]));
    assert_eq!(id, "9");
    for mac in [None, Some([1, 2, 0xE0, 0, 0, 0])] {
        let n: u64 = RegistryConfig::generate_auto_id(mac).parse().unwrap();
        assert!((1_000_000..2_000_000_000).contains(&n));
    }
}

#[test]
fn new_identifier_has_ten_digits() {
    let mut r = RegistryConfig::new(true, true);
    let id = r.update_id();
    assert_eq!(id.len(), 10);
    assert!(id.starts_with('1'));
    assert_eq!(r.get_id(), id);
}

#[test]
fn first_run_stores_an_identifier() {
    let mut r = RegistryConfig::new(true, true);
    r.set_string("Password", "old").unwrap();
    let mut memory = None;
    let mac = Some([0, 0, 0, 0, 1, 0]);
    let c = SosConfig::from_cli_and_registry(
        &cli("", "", "", ""),
        &mut r,
        &mut memory,
        mac,
        &known(),
        "default key",
    )
    .unwrap();
    assert_eq!(c.id, "256");
    assert_eq!(r.get_id(), "256");
    assert_eq!(r.get_password(&None), "");
    assert_eq!(c.rendezvous_server, "first.example");
    assert_eq!(c.relay_server, "relay.example");
    assert_eq!(c.server_pub_key, "default key");
    assert_eq!(c.password, "");
    assert_eq!(Some(c.key_pair), memory);
    // a later run has the same identifier, whatever the address is then
    let again = SosConfig::from_cli_and_registry(
        &cli("", "", "", ""),
        &mut r,
        &mut memory,
        None,
        &known(),
        "default key",
    )
    .unwrap();
    assert_eq!(again.id, "256");
}

#[test]
fn command_line_comes_first() {
    let mut r = RegistryConfig::new(true, true);
    r.set_string("ID", "stored").unwrap();
    let mut memory = None;
    let c = SosConfig::from_cli_and_registry(
        &cli("123456789", "mine.example", "my key", "pw"),
        &mut r,
        &mut memory,
        None,
        &known(),
        "default key",
    )
    .unwrap();
    assert_eq!(c.id, "123456789");
    assert_eq!(r.get_id(), "stored");
    assert_eq!(c.rendezvous_server, "mine.example");
    assert_eq!(c.server_pub_key, "my key");
    assert_eq!(c.password, "pw");
}

#[test]
fn identifier_of_the_command_line_is_stored_on_a_first_run() {
    let mut r = RegistryConfig::new(true, true);
    let mut memory = None;
    let c = SosConfig::from_cli_and_registry(
        &cli("42", "", "", ""),
        &mut r,
        &mut memory,
        None,
        &vec![],
        "",
    )
    .unwrap();
    assert_eq!((c.id.as_str(), r.get_id().as_str()), ("42", "42"));
    assert_eq!(c.rendezvous_server, "rs-ny.rustdesk.com");
}

#[test]
fn empty_identifier_is_replaced() {
    let mut r = RegistryConfig::new(true, true);
    r.set_string("ID", "").unwrap();
    let mut memory = None;
    let c = SosConfig::from_cli_and_registry(
        &cli("", "", "", ""),
        &mut r,
        &mut memory,
        Some([0, 0, 0, 0, 0, 5]),
        &vec![],
        "",
    )
    .unwrap();
    assert_eq!((c.id.as_str(), r.get_id().as_str()), ("5", "5"));
}

#[test]
fn no_settings_without_a_registry() {
    let mut r = RegistryConfig::new(false, false);
    let mut memory: Option<KeyPair> = None;
    let c = SosConfig::from_cli_and_registry(
        &cli("42", "", "", ""),
        &mut r,
        &mut memory,
        None,
        &vec![],
        "",
    );
    assert_eq!(c, Err(RegistryError::Unavailable));
    assert_eq!(memory, None);
}
