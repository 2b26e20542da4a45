//! Settings: the registry, the command line, and what is kept in memory.

use vstd::hash_map::StringHashMap;
use vstd::prelude::*;
use vstd::utf8::encode_utf8;

use crate::hex_text;
use crate::hex_text::{hex_of, is_hex, lemma_hex_round_trip, unhex};
use crate::keys::is_sign_pair;
use crate::keys::{gen_sign_keypair, KeyPair};
use crate::random::{random_in_range, random_text};
use crate::sos_constants::{default_rendezvous_server, FALLBACK_RENDEZVOUS_SERVER};
use crate::text::{copy_bytes, decimal, is_alphanumeric, to_decimal};

verus! {

// ---------------------------------------------------------------- in memory
/// The text in a slot, or nothing.
pub open spec fn slot_text(slot: Option<String>) -> Seq<char> {
    match slot {
        Some(s) => s@,
        None => Seq::empty(),
    }
}

/// The current temporary password; empty before one was set.
pub fn get_current_password(slot: &Option<String>) -> (r: String)
    ensures
        r@ == slot_text(*slot),
{
    match slot {
        Some(s) => s.clone(),
        None => String::new(),
    }
}

/// Sets the current temporary password.
pub fn set_current_password(slot: &mut Option<String>, pwd: String)
    ensures
        *final(slot) == Some(pwd),
{
    *slot = Some(pwd);
}

/// A random temporary password: eight letters and digits.
pub fn generate_temp_password() -> (r: String)
    ensures
        r@.len() == 8,
        forall|i: int| 0 <= i < 8 ==> is_alphanumeric(#[trigger] r@[i]),
{
    random_text(8)
}

/// The kind of NAT that was found: 0 unknown, 1 asymmetric, 2 symmetric.
pub fn get_nat_type(slot: &Option<i32>) -> (r: i32)
    ensures
        r == (match *slot {
            Some(t) => t,
            None => 0,
        }),
{
    match slot {
        Some(t) => *t,
        None => 0,
    }
}

/// Notes the kind of NAT that was found.
pub fn set_nat_type(slot: &mut Option<i32>, t: i32)
    ensures
        *final(slot) == Some(t),
{
    *slot = Some(t);
}

// ---------------------------------------------------------------- registry
/// A value of the registry.
#[derive(Debug, PartialEq, Eq)]
pub enum RegValue {
    Text(String),
    Dword(u32),
    /// A value of a type that is never read.
    Other,
}

/// A value of the registry, in the model.
pub ghost enum Stored {
    Text(Seq<char>),
    Dword(u32),
    Other,
}

impl View for RegValue {
    type V = Stored;

    open spec fn view(&self) -> Stored {
        match *self {
            RegValue::Text(s) => Stored::Text(s@),
            RegValue::Dword(d) => Stored::Dword(d),
            RegValue::Other => Stored::Other,
        }
    }
}

/// Why the registry could not be used.
#[derive(Debug, Clone, Copy, PartialEq, Eq, Structural)]
pub enum RegistryError {
    /// The key can neither be opened nor created.
    Unavailable,
    /// A value that should be hexadecimal digits is not.
    BadHex,
}

/// The content of the settings key, in the model.
#[verifier::ext_equal]
pub ghost struct Registry {
    /// Whether the key can be opened.
    pub available: bool,
    /// Whether the subkey of options can be opened, or created where there
    /// is none.
    pub options_available: bool,
    pub values: Map<Seq<char>, Stored>,
    pub options: Map<Seq<char>, Seq<char>>,
}

impl Registry {
    /// The text under a name, if the key can be opened and holds one.
    pub open spec fn text(self, name: Seq<char>) -> Option<Seq<char>> {
        if self.available && self.values.contains_key(name) {
            match self.values[name] {
                Stored::Text(t) => Some(t),
                _ => None,
            }
        } else {
            None
        }
    }

    /// The text under a name, or a default.
    pub open spec fn text_or(self, name: Seq<char>, default: Seq<char>) -> Seq<char> {
        match self.text(name) {
            Some(t) => t,
            None => default,
        }
    }

    /// The number under a name, if the key can be opened and holds one.
    pub open spec fn dword(self, name: Seq<char>) -> Option<u32> {
        if self.available && self.values.contains_key(name) {
            match self.values[name] {
                Stored::Dword(d) => Some(d),
                _ => None,
            }
        } else {
            None
        }
    }

    /// The bytes under a name, which are stored as hexadecimal digits; none
    /// where nothing is stored.
    pub open spec fn binary(self, name: Seq<char>) -> Result<Seq<u8>, RegistryError> {
        let t = self.text_or(name, Seq::empty());
        if t.len() == 0 {
            Ok(Seq::empty())
        } else if is_hex(encode_utf8(t)) {
            Ok(unhex(encode_utf8(t)))
        } else {
            Err(RegistryError::BadHex)
        }
    }

    /// The key with one value set.
    pub open spec fn with(self, name: Seq<char>, value: Stored) -> Registry {
        Registry { values: self.values.insert(name, value), ..self }
    }

    /// The key without the values that earlier versions left.
    pub open spec fn without_legacy(self) -> Registry {
        Registry {
            values: self.values.remove("KeyPair"@).remove("Password"@).remove(
                "TemporaryPassword"@,
            ).remove("RendezvousServer"@).remove("KeyConfirmed"@).remove("EncID"@).remove(
                "NatType"@,
            ),
            ..self
        }
    }

    /// An option; empty if it is not set.
    pub open spec fn option(self, key: Seq<char>) -> Seq<char> {
        if self.options_available && self.options.contains_key(key) {
            self.options[key]
        } else {
            Seq::empty()
        }
    }

    /// The key with one option set.
    pub open spec fn with_option(self, key: Seq<char>, value: Seq<char>) -> Registry {
        Registry { options: self.options.insert(key, value), ..self }
    }

    /// The key pair that the key holds: 32 bytes for each half.
    pub open spec fn key_pair(self) -> Option<(Seq<u8>, Seq<u8>)> {
        match self.binary("KeyPair"@) {
            Ok(v) => if v.len() == 64 {
                Some((v.take(32), v.skip(32)))
            } else {
                None
            },
            Err(_) => None,
        }
    }
}

/// What becomes of the key pair in memory when one is asked for: the one of
/// the registry leaves it alone, and else one is made if there is none.
pub open spec fn memory_after(
    stored: Option<(Seq<u8>, Seq<u8>)>,
    before: Option<KeyPair>,
    after: Option<KeyPair>,
) -> bool {
    if stored is Some || before is Some {
        after == before
    } else {
        &&& after matches Some(made)
        &&& is_sign_pair(made.sk@, made.pk@)
    }
}

/// Whether what is in memory, if anything, is an Ed25519 pair.
pub open spec fn holds_pair(memory: Option<KeyPair>) -> bool {
    memory matches Some(pair) ==> is_sign_pair(pair.sk@, pair.pk@)
}

/// The secret and the public key in use: those of the registry, or else those
/// in memory.
pub open spec fn keys_in_use(
    stored: Option<(Seq<u8>, Seq<u8>)>,
    memory: Option<KeyPair>,
) -> (Seq<u8>, Seq<u8>) {
    match stored {
        Some(pair) => pair,
        None => match memory {
            Some(pair) => (pair.sk@, pair.pk@),
            None => (Seq::empty(), Seq::empty()),
        },
    }
}

/// The content of the settings key.
pub struct RegistryConfig {
    available: bool,
    options_available: bool,
    values: StringHashMap<RegValue>,
    options: StringHashMap<String>,
}

impl View for RegistryConfig {
    type V = Registry;

    closed spec fn view(&self) -> Registry {
        Registry {
            available: self.available,
            options_available: self.options_available,
            values: self.values@.map_values(|v: RegValue| v@),
            options: self.options@.map_values(|v: String| v@),
        }
    }
}

/// The identifier that a hardware address stands for: the low 29 bits of its
/// last four bytes.
pub open spec fn mac_id(mac: Option<[u8; 6]>) -> nat {
    match mac {
        Some(m) => ((m@[2] * 0x1_000000 + m@[3] * 0x1_0000 + m@[4] * 0x100 + m@[5])
            % 0x2000_0000) as nat,
        None => 0,
    }
}

/// Whether `id` is an identifier that is made when none is stored: the one of
/// the hardware address, or a random one if that gives nothing.
pub open spec fn is_auto_id(mac: Option<[u8; 6]>, id: Seq<char>) -> bool {
    if mac_id(mac) != 0 {
        id == decimal(mac_id(mac))
    } else {
        exists|n: nat| 1_000_000 <= n < 2_000_000_000 && id == #[trigger] decimal(n)
    }
}

impl RegistryConfig {
    /// A key without values.
    pub fn new(available: bool, options_available: bool) -> (r: Self)
        ensures
            r@ == (Registry {
                available,
                options_available,
                values: Map::empty(),
                options: Map::empty(),
            }),
    {
        let r: RegistryConfig = RegistryConfig {
            available,
            options_available,
            values: StringHashMap::new(),
            options: StringHashMap::new(),
        };
        proof {
            assert(r@.values =~= Map::<Seq<char>, Stored>::empty());
            assert(r@.options =~= Map::<Seq<char>, Seq<char>>::empty());
        }
        r
    }

    /// Puts a value into the content, as when it is loaded.
    pub fn put(&mut self, name: &str, value: RegValue)
        ensures
            final(self)@ == old(self)@.with(name@, value@),
    {
        self.values.insert(String::from_str(name), value);
        proof {
            assert(self@.values =~= old(self)@.values.insert(name@, value@));
        }
    }

    /// The value under a name, whether or not the key can be opened.
    pub fn value(&self, name: &str) -> (r: Option<&RegValue>)
        ensures
            r is Some <==> self@.values.contains_key(name@),
            r matches Some(v) ==> v@ == self@.values[name@],
    {
        self.values.get(name)
    }

    /// The text under a name; `default` if there is none.
    pub fn get_string(&self, name: &str, default: &str) -> (r: String)
        ensures
            r@ == self@.text_or(name@, default@),
    {
        if self.available {
            match self.values.get(name) {
                Some(RegValue::Text(s)) => return s.clone(),
                _ => {},
            }
        }
        String::from_str(default)
    }

    /// Stores a text.
    pub fn set_string(&mut self, name: &str, value: &str) -> (r: Result<(), RegistryError>)
        ensures
            r == (if old(self)@.available {
                Ok(())
            } else {
                Err(RegistryError::Unavailable)
            }),
            final(self)@ == (if old(self)@.available {
                old(self)@.with(name@, Stored::Text(value@))
            } else {
                old(self)@
            }),
    {
        if !self.available {
            return Err(RegistryError::Unavailable);
        }
        self.put(name, RegValue::Text(String::from_str(value)));
        Ok(())
    }

    /// The bytes under a name; none if nothing is stored.
    pub fn get_binary(&self, name: &str) -> (r: Result<Vec<u8>, RegistryError>)
        ensures
            match r {
                Ok(v) => self@.binary(name@) == Ok::<Seq<u8>, RegistryError>(v@),
                Err(e) => self@.binary(name@) == Err::<Seq<u8>, RegistryError>(e),
            },
    {
        let s: String = self.get_string(name, "");
        proof {
            reveal_strlit("");
            assert(""@ =~= Seq::<char>::empty());
        }
        if s.as_str().is_empty() {
            return Ok(Vec::new());
        }
        match hex_text::decode(s.as_str()) {
            Ok(v) => Ok(v),
            Err(_) => Err(RegistryError::BadHex),
        }
    }

    /// Stores bytes, as hexadecimal digits.
    pub fn set_binary(&mut self, name: &str, value: &[u8]) -> (r: Result<(), RegistryError>)
        requires
            2 * value@.len() <= isize::MAX,
        ensures
            r == (if old(self)@.available {
                Ok(())
            } else {
                Err(RegistryError::Unavailable)
            }),
            final(self)@ == (if old(self)@.available {
                old(self)@.with(name@, Stored::Text(hex_of(value@)))
            } else {
                old(self)@
            }),
    {
        let digits: String = hex_text::encode(value);
        self.set_string(name, digits.as_str())
    }

    /// The number under a name; `default` if there is none.
    pub fn get_dword(&self, name: &str, default: u32) -> (r: u32)
        ensures
            r == (match self@.dword(name@) {
                Some(d) => d,
                None => default,
            }),
    {
        if self.available {
            match self.values.get(name) {
                Some(RegValue::Dword(d)) => return *d,
                _ => {},
            }
        }
        default
    }

    /// Stores a number.
    pub fn set_dword(&mut self, name: &str, value: u32) -> (r: Result<(), RegistryError>)
        ensures
            r == (if old(self)@.available {
                Ok(())
            } else {
                Err(RegistryError::Unavailable)
            }),
            final(self)@ == (if old(self)@.available {
                old(self)@.with(name@, Stored::Dword(value))
            } else {
                old(self)@
            }),
    {
        if !self.available {
            return Err(RegistryError::Unavailable);
        }
        self.put(name, RegValue::Dword(value));
        Ok(())
    }

    /// Whether the client has run before: an identifier is stored.
    pub fn is_initialized(&self) -> (r: bool)
        ensures
            r == (self@.text("ID"@) is Some),
    {
        if self.available {
            match self.values.get("ID") {
                Some(RegValue::Text(_)) => true,
                _ => false,
            }
        } else {
            false
        }
    }

    /// The identifier of the device; empty if there is none.
    pub fn get_id(&self) -> (r: String)
        ensures
            r@ == self@.text_or("ID"@, ""@),
    {
        self.get_string("ID", "")
    }

    /// The encrypted identifier of an earlier version.
    pub fn get_enc_id(&self) -> (r: String)
        ensures
            r@ == self@.text_or("EncID"@, ""@),
    {
        self.get_string("EncID", "")
    }

    /// The stored password of an earlier version, or else the current
    /// temporary one.
    pub fn get_password(&self, current: &Option<String>) -> (r: String)
        ensures
            ({
                let stored = self@.text_or("Password"@, Seq::empty());
                r@ == (if stored.len() > 0 {
                    stored
                } else {
                    slot_text(*current)
                })
            }),
    {
        let stored: String = self.get_string("Password", "");
        proof {
            reveal_strlit("");
            assert(""@ =~= Seq::<char>::empty());
        }
        if !stored.as_str().is_empty() {
            stored
        } else {
            get_current_password(current)
        }
    }

    /// The signing key pair: the stored one, or else one that is made once
    /// and lasts as long as `memory` does.
    pub fn get_key_pair(&self, memory: &mut Option<KeyPair>) -> (r: KeyPair)
        ensures
            memory_after(self@.key_pair(), *old(memory), *final(memory)),
            (r.sk@, r.pk@) == keys_in_use(self@.key_pair(), *final(memory)),
    {
        match self.get_binary("KeyPair") {
            Ok(v) => {
                if v.len() == 64 {
                    let sk: Vec<u8> = copy_bytes(vstd::slice::slice_subrange(v.as_slice(), 0, 32));
                    let pk: Vec<u8> = copy_bytes(vstd::slice::slice_subrange(v.as_slice(), 32, 64));
                    proof {
                        assert(sk@ =~= v@.take(32));
                        assert(pk@ =~= v@.skip(32));
                    }
                    return KeyPair { sk, pk };
                }
            },
            Err(_) => {},
        }
        if memory.is_none() {
            *memory = Some(gen_sign_keypair());
        }
        match memory {
            Some(kept) => KeyPair {
                sk: copy_bytes(kept.sk.as_slice()),
                pk: copy_bytes(kept.pk.as_slice()),
            },
            None => KeyPair { sk: Vec::new(), pk: Vec::new() },
        }
    }

    /// Whether the server has confirmed the public key.
    pub fn get_key_confirmed(&self) -> (r: bool)
        ensures
            r == (self@.dword("KeyConfirmed"@) matches Some(d) && d != 0),
    {
        self.get_dword("KeyConfirmed", 0) != 0
    }

    /// Notes whether the server has confirmed the public key, if it can.
    pub fn set_key_confirmed(&mut self, v: bool)
        ensures
            final(self)@ == (if old(self)@.available {
                old(self)@.with(
                    "KeyConfirmed"@,
                    Stored::Dword(
                        if v {
                            1
                        } else {
                            0
                        },
                    ),
                )
            } else {
                old(self)@
            }),
    {
        let d: u32 = if v {
            1
        } else {
            0
        };
        let _ = self.set_dword("KeyConfirmed", d);
    }

    /// The stored rendezvous server; empty if there is none.
    pub fn get_rendezvous_server(&self) -> (r: String)
        ensures
            r@ == self@.text_or("RendezvousServer"@, ""@),
    {
        self.get_string("RendezvousServer", "")
    }

    /// Stores a rendezvous server.
    pub fn set_rendezvous_server(&mut self, server: &str) -> (r: Result<(), RegistryError>)
        ensures
            r == (if old(self)@.available {
                Ok(())
            } else {
                Err(RegistryError::Unavailable)
            }),
            final(self)@ == (if old(self)@.available {
                old(self)@.with("RendezvousServer"@, Stored::Text(server@))
            } else {
                old(self)@
            }),
    {
        self.set_string("RendezvousServer", server)
    }

    /// The salt of password hashes: the stored one, or else twelve random
    /// letters and digits, which are stored if they can be.
    pub fn get_password_salt(&mut self) -> (r: String)
        ensures
            ({
                let stored = old(self)@.text_or("Salt"@, Seq::empty());
                if stored.len() > 0 {
                    &&& r@ == stored
                    &&& final(self)@ == old(self)@
                } else {
                    &&& r@.len() == 12
                    &&& forall|i: int| 0 <= i < 12 ==> is_alphanumeric(#[trigger] r@[i])
                    &&& final(self)@ == (if old(self)@.available {
                        old(self)@.with("Salt"@, Stored::Text(r@))
                    } else {
                        old(self)@
                    })
                }
            }),
    {
        let salt: String = self.get_string("Salt", "");
        proof {
            reveal_strlit("");
            assert(""@ =~= Seq::<char>::empty());
        }
        if !salt.as_str().is_empty() {
            return salt;
        }
        let fresh: String = random_text(12);
        let _ = self.set_string("Salt", fresh.as_str());
        fresh
    }

    /// An option; empty if it is not set.
    pub fn get_option(&self, key: &str) -> (r: String)
        ensures
            r@ == self@.option(key@),
    {
        if self.options_available {
            match self.options.get(key) {
                Some(s) => return s.clone(),
                None => {},
            }
        }
        String::new()
    }

    /// Sets an option.
    pub fn set_option(&mut self, key: &str, value: &str) -> (r: Result<(), RegistryError>)
        ensures
            r == (if old(self)@.options_available {
                Ok(())
            } else {
                Err(RegistryError::Unavailable)
            }),
            final(self)@ == (if old(self)@.options_available {
                old(self)@.with_option(key@, value@)
            } else {
                old(self)@
            }),
    {
        if !self.options_available {
            return Err(RegistryError::Unavailable);
        }
        self.options.insert(String::from_str(key), String::from_str(value));
        proof {
            assert(self@.options =~= old(self)@.options.insert(key@, value@));
        }
        Ok(())
    }

    /// Deletes a value.
    fn delete(&mut self, name: &str)
        ensures
            final(self)@ == (Registry { values: old(self)@.values.remove(name@), ..old(self)@ }),
    {
        self.values.remove(name);
        proof {
            assert(self@.values =~= old(self)@.values.remove(name@));
        }
    }

    /// Deletes the values that earlier versions left, if it can.
    pub fn clean_legacy_keys(&mut self)
        ensures
            final(self)@ == (if old(self)@.available {
                old(self)@.without_legacy()
            } else {
                old(self)@
            }),
    {
        if self.available {
            self.delete("KeyPair");
            self.delete("Password");
            self.delete("TemporaryPassword");
            self.delete("RendezvousServer");
            self.delete("KeyConfirmed");
            self.delete("EncID");
            self.delete("NatType");
        }
    }

    /// The first run: deletes what earlier versions left and stores an
    /// identifier, the given one or one that is made.
    pub fn init_first_run(&mut self, cli_id: &str, mac: Option<[u8; 6]>) -> (r: Result<
        (),
        RegistryError,
    >)
        ensures
            r == (if old(self)@.available {
                Ok(())
            } else {
                Err(RegistryError::Unavailable)
            }),
            !old(self)@.available ==> final(self)@ == old(self)@,
            old(self)@.available ==> {
                let id = final(self)@.text_or("ID"@, Seq::empty());
                &&& final(self)@ == old(self)@.without_legacy().with("ID"@, Stored::Text(id))
                &&& cli_id@.len() > 0 ==> id == cli_id@
                &&& cli_id@.len() == 0 ==> is_auto_id(mac, id)
            },
    {
        self.clean_legacy_keys();
        if !self.available {
            return Err(RegistryError::Unavailable);
        }
        let id: String = if !cli_id.is_empty() {
            String::from_str(cli_id)
        } else {
            Self::generate_auto_id(mac)
        };
        self.set_string("ID", id.as_str())
    }

    /// Replaces the identifier, which the server has refused, by a random one
    /// of ten digits; stores it if it can.
    pub fn update_id(&mut self) -> (r: String)
        ensures
            exists|n: nat| 1_000_000_000 <= n < 2_000_000_000 && r@ == #[trigger] decimal(n),
            final(self)@ == (if old(self)@.available {
                old(self)@.with("ID"@, Stored::Text(r@))
            } else {
                old(self)@
            }),
    {
        let n: u64 = random_in_range(1_000_000_000, 2_000_000_000);
        let new_id: String = to_decimal(n);
        proof {
            let m: nat = n as nat;
            assert(1_000_000_000 <= m < 2_000_000_000 && new_id@ == decimal(m));
        }
        let _ = self.set_string("ID", new_id.as_str());
        new_id
    }

    /// An identifier from the hardware address, or a random one if the
    /// address is unknown or gives zero.
    pub fn generate_auto_id(mac: Option<[u8; 6]>) -> (r: String)
        ensures
            is_auto_id(mac, r@),
    {
        let id: u64 = match mac {
            Some(m) => {
                let v: u64 = m[2] as u64 * 0x1_000000 + m[3] as u64 * 0x1_0000 + m[4] as u64
                    * 0x100 + m[5] as u64;
                v % 0x2000_0000
            },
            None => 0,
        };
        if id != 0 {
            to_decimal(id)
        } else {
            let n: u64 = random_in_range(1_000_000, 2_000_000_000);
            proof {
                let m: nat = n as nat;
                assert(1_000_000 <= m < 2_000_000_000 && decimal(m) == decimal(n as nat));
            }
            to_decimal(n)
        }
    }
}

/// What is stored as bytes is read back as it was.
pub proof fn binary_round_trip(reg: Registry, name: Seq<char>, data: Seq<u8>)
    requires
        reg.available,
    ensures
        reg.with(name, Stored::Text(hex_of(data))).binary(name) == Ok::<Seq<u8>, RegistryError>(
            data,
        ),
{
    lemma_hex_round_trip(data);
    let after = reg.with(name, Stored::Text(hex_of(data)));
    assert(after.text(name) == Some(hex_of(data)));
    if data.len() == 0 {
        assert(data =~= Seq::<u8>::empty());
    }
}

/// What is stored is read back: texts, numbers and options.
pub proof fn stored_is_read(
    reg: Registry,
    name: Seq<char>,
    text: Seq<char>,
    number: u32,
    default: Seq<char>,
)
    ensures
        reg.available ==> reg.with(name, Stored::Text(text)).text_or(name, default) == text,
        reg.available ==> reg.with(name, Stored::Dword(number)).dword(name) == Some(number),
        reg.options_available ==> reg.with_option(name, text).option(name) == text,
{
}

/// Setting a value leaves every other value as it was.
pub proof fn other_values_stay(reg: Registry, name: Seq<char>, value: Stored, other: Seq<char>)
    requires
        name != other,
    ensures
        reg.with(name, value).text(other) == reg.text(other),
        reg.with(name, value).dword(other) == reg.dword(other),
{
}

/// Once a salt could be stored, every later connection gets the same one.
pub proof fn salt_lasts(reg: Registry, salt: Seq<char>)
    requires
        reg.available,
        salt.len() > 0,
    ensures
        reg.with("Salt"@, Stored::Text(salt)).text_or("Salt"@, Seq::empty()) == salt,
{
}

/// A device keeps its identifier: what a first run has stored, every later
/// run reads.
pub proof fn identifier_lasts(reg: Registry, id: Seq<char>)
    requires
        reg.available,
    ensures
        reg.without_legacy().with("ID"@, Stored::Text(id)).text("ID"@) == Some(id),
{
}

/// The key pair stays the same as long as the process runs and the registry
/// holds what it did: a second call gives what the first one gave.
pub proof fn key_pair_lasts(
    stored: Option<(Seq<u8>, Seq<u8>)>,
    first: Option<KeyPair>,
    second: Option<KeyPair>,
    third: Option<KeyPair>,
)
    requires
        memory_after(stored, first, second),
        memory_after(stored, second, third),
    ensures
        keys_in_use(stored, third) == keys_in_use(stored, second),
{
}

/// The keys of a process that has none stored belong together, from the first
/// call on.
pub proof fn key_pair_is_a_pair(before: Option<KeyPair>, after: Option<KeyPair>)
    requires
        holds_pair(before),
        memory_after(None, before, after),
    ensures
        holds_pair(after),
        is_sign_pair(keys_in_use(None, after).0, keys_in_use(None, after).1),
{
}

/// After the first run no stored key pair, password, server or confirmation
/// is left, and the salt stays.
pub proof fn first_run_forgets(reg: Registry, id: Seq<char>)
    ensures
        ({
            let after = reg.without_legacy().with("ID"@, Stored::Text(id));
            &&& after.key_pair() is None
            &&& after.text("Password"@) is None
            &&& after.text("TemporaryPassword"@) is None
            &&& after.text("RendezvousServer"@) is None
            &&& after.text("EncID"@) is None
            &&& after.dword("KeyConfirmed"@) is None
            &&& after.dword("NatType"@) is None
            &&& after.text("Salt"@) == reg.text("Salt"@)
        }),
{
    reveal_strlit("ID");
    reveal_strlit("KeyPair");
    reveal_strlit("Password");
    reveal_strlit("TemporaryPassword");
    reveal_strlit("RendezvousServer");
    reveal_strlit("KeyConfirmed");
    reveal_strlit("EncID");
    reveal_strlit("NatType");
    reveal_strlit("Salt");
    assert("ID"@.len() == 2);
    assert("KeyPair"@.len() == 7 && "KeyPair"@[0] == 'K');
    assert("Password"@.len() == 8);
    assert("TemporaryPassword"@.len() == 17);
    assert("RendezvousServer"@.len() == 16);
    assert("KeyConfirmed"@.len() == 12);
    assert("EncID"@.len() == 5);
    assert("NatType"@.len() == 7 && "NatType"@[0] == 'N');
    assert("Salt"@.len() == 4);
}

// ---------------------------------------------------------------- settings
/// What the command line asks for; empty where it says nothing.
#[derive(Debug, PartialEq, Eq)]
pub struct CliOptions {
    pub id: String,
    pub rendezvous: String,
    pub relay: String,
    pub key: String,
    pub password: String,
}

/// The settings of a run.
#[derive(Debug, PartialEq, Eq)]
pub struct SosConfig {
    pub id: String,
    pub rendezvous_server: String,
    pub relay_server: String,
    pub key_pair: KeyPair,
    /// The password of the command line; empty if there is none.
    pub password: String,
    /// The public key of the rendezvous server, in Base64.
    pub server_pub_key: String,
}

impl SosConfig {
    /// Puts the settings together. The identifier is the one of the command
    /// line, else the stored one, else one that is made and stored. Server,
    /// key and relay are those of the command line or the defaults.
    pub fn from_cli_and_registry(
        cli: &CliOptions,
        registry: &mut RegistryConfig,
        memory: &mut Option<KeyPair>,
        mac: Option<[u8; 6]>,
        known_servers: &Vec<String>,
        default_pub_key: &str,
    ) -> (r: Result<SosConfig, RegistryError>)
        ensures
            // the registry is needed, if only to remember the identifier
            r is Ok <==> old(registry)@.available,
            r matches Err(e) ==> {
                &&& e == RegistryError::Unavailable
                &&& final(registry)@ == old(registry)@
                &&& *final(memory) == *old(memory)
            },
            r matches Ok(c) ==> {
                let stored = old(registry)@.text("ID"@);
                let id = c.id@;
                // identifier
                &&& cli.id@.len() > 0 ==> id == cli.id@
                &&& (cli.id@.len() == 0 && stored is Some && stored->0.len() > 0) ==> id
                    == stored->0
                &&& (cli.id@.len() == 0 && !(stored is Some && stored->0.len() > 0))
                    ==> is_auto_id(mac, id)
                // registry
                &&& final(registry)@ == (if stored is Some && (stored->0.len() > 0
                    || cli.id@.len() > 0) {
                    old(registry)@
                } else {
                    old(registry)@.without_legacy().with("ID"@, Stored::Text(id))
                })
                // servers
                &&& c.rendezvous_server@ == (if cli.rendezvous@.len() > 0 {
                    cli.rendezvous@
                } else if known_servers@.len() > 0 {
                    known_servers@[0]@
                } else {
                    FALLBACK_RENDEZVOUS_SERVER@
                })
                &&& c.relay_server@ == cli.relay@
                // keys
                &&& c.server_pub_key@ == (if cli.key@.len() > 0 {
                    cli.key@
                } else {
                    default_pub_key@
                })
                &&& memory_after(final(registry)@.key_pair(), *old(memory), *final(memory))
                &&& (c.key_pair.sk@, c.key_pair.pk@) == keys_in_use(
                    final(registry)@.key_pair(),
                    *final(memory),
                )
                // password
                &&& c.password@ == cli.password@
            },
    {
        proof {
            reveal_strlit("");
            assert(""@ =~= Seq::<char>::empty());
            reveal_strlit("ID");
        }
        if !registry.is_initialized() {
            match registry.init_first_run(cli.id.as_str(), mac) {
                Ok(()) => {},
                Err(e) => return Err(e),
            }
        }
        let ghost mid = registry@;
        let id: String = if !cli.id.as_str().is_empty() {
            cli.id.clone()
        } else {
            let rid: String = registry.get_id();
            if rid.as_str().is_empty() {
                match registry.init_first_run("", mac) {
                    Ok(()) => {},
                    Err(e) => return Err(e),
                }
                registry.get_id()
            } else {
                rid
            }
        };
        proof {
            lemma_auto_id_not_empty(mac, mid.text_or("ID"@, Seq::empty()));
        }
        let rendezvous_server: String = if !cli.rendezvous.as_str().is_empty() {
            cli.rendezvous.clone()
        } else {
            default_rendezvous_server(known_servers)
        };
        let key_pair: KeyPair = registry.get_key_pair(memory);
        let server_pub_key: String = if !cli.key.as_str().is_empty() {
            cli.key.clone()
        } else {
            String::from_str(default_pub_key)
        };
        Ok(
            SosConfig {
                id,
                rendezvous_server,
                relay_server: cli.relay.clone(),
                key_pair,
                password: cli.password.clone(),
                server_pub_key,
            },
        )
    }
}

/// An identifier that was made is never empty.
pub proof fn lemma_auto_id_not_empty(mac: Option<[u8; 6]>, id: Seq<char>)
    ensures
        is_auto_id(mac, id) ==> id.len() > 0,
{
    if is_auto_id(mac, id) {
        if mac_id(mac) != 0 {
            assert(decimal(mac_id(mac)).len() > 0);
        } else {
            let n = choose|n: nat| 1_000_000 <= n < 2_000_000_000 && id == #[trigger] decimal(n);
            assert(decimal(n).len() > 0);
        }
    }
}

// ---------------------------------------------------------------- password
/// The password to start with: the fixed one of the command line, or a fresh
/// temporary one.
pub fn initial_password(fixed: &str) -> (r: String)
    ensures
        fixed@.len() > 0 ==> r@ == fixed@,
        fixed@.len() == 0 ==> r@.len() == 8 && forall|i: int|
            0 <= i < 8 ==> is_alphanumeric(#[trigger] r@[i]),
{
    if !fixed.is_empty() {
        String::from_str(fixed)
    } else {
        generate_temp_password()
    }
}

/// After a connection has ended: a fixed password stays, a temporary one is
/// replaced. Says whether it was.
pub fn refresh_password(fixed: &str, slot: &mut Option<String>) -> (r: bool)
    ensures
        r == (fixed@.len() == 0),
        !r ==> *final(slot) == *old(slot),
        r ==> {
            &&& *final(slot) is Some
            &&& slot_text(*final(slot)).len() == 8
            &&& forall|i: int| 0 <= i < 8 ==> is_alphanumeric(#[trigger] slot_text(*final(slot))[i])
        },
{
    if fixed.is_empty() {
        set_current_password(slot, generate_temp_password());
        true
    } else {
        false
    }
}

} // verus!
