//! The settings: what the command line says, what the registry keeps, and
//! what is made where neither does.

use vstd::prelude::*;
use vstd::utf8::encode_utf8;

use crate::keys::KeyPair;
use crate::keys::ed25519_public;
use crate::hex_text::{hex_of, is_hex, unhex};
use crate::laws::login::{holds_text, lemma_holds_text, letter_or_digit};
use crate::laws::registering::keys_are_remembered;
use crate::sos_config::{
    generate_temp_password, get_current_password, get_nat_type, initial_password,
    refresh_password, set_current_password, set_nat_type, CliOptions, RegValue, RegistryConfig,
    RegistryError, SosConfig, Stored,
};
use crate::sos_constants::default_rendezvous_server;
use crate::random::random_text;
use crate::text::{copy_bytes, join, to_decimal, to_wide};
use crate::text::{decimal, utf16, utf16_units};

verus! {

// ---------------------------------------------------------------- numerals
/// The number that decimal digits stand for.
pub open spec fn numeral_value(s: Seq<char>) -> int
    decreases s.len(),
{
    if s.len() == 0 {
        0
    } else {
        10 * numeral_value(s.drop_last()) + (s.last() as u32 - '0' as u32)
    }
}

/// Whether a text is digits, without a zero in front of others.
pub open spec fn is_numeral(s: Seq<char>) -> bool {
    &&& s.len() > 0
    &&& forall|i: int| 0 <= i < s.len() ==> '0' <= #[trigger] s[i] && s[i] <= '9'
    &&& s.len() > 1 ==> s[0] != '0'
}

/// A number in decimal digits stands for that number.
pub proof fn numeral_stands_for_its_number(n: u64, r: String)
    requires
        call_ensures(to_decimal, (n,), r),
    ensures
        is_numeral(r@),
        numeral_value(r@) == n,
{
    lemma_numeral(n as nat);
}

/// What `decimal` gives stands for its number.
pub proof fn lemma_numeral(n: nat)
    ensures
        is_numeral(decimal(n)),
        numeral_value(decimal(n)) == n,
        n > 0 ==> decimal(n)[0] != '0',
    decreases n,
{
    let s = decimal(n);
    if n < 10 {
        assert(s.drop_last() =~= Seq::<char>::empty());
        assert(numeral_value(s.drop_last()) == 0);
    } else {
        lemma_numeral(n / 10);
        assert(s.drop_last() =~= decimal(n / 10));
    }
}

/// A text as Windows takes it ends with a zero; a character below U+10000 is
/// one unit, the others are two.
pub proof fn wide_text_is_the_text(s: &str, r: Vec<u16>, i: int)
    requires
        call_ensures(to_wide, (s,), r),
        forall|j: int| 0 <= j < s@.len() ==> (#[trigger] s@[j] as u32) < 0x10000,
        0 <= i < s@.len(),
    ensures
        r@.len() == s@.len() + 1,
        r@[i] == s@[i] as u32,
        r@.last() == 0,
{
    lemma_narrow(s@);
}

proof fn lemma_narrow(s: Seq<char>)
    requires
        forall|j: int| 0 <= j < s.len() ==> (#[trigger] s[j] as u32) < 0x10000,
    ensures
        utf16(s).len() == s.len(),
        forall|i: int| 0 <= i < s.len() ==> #[trigger] utf16(s)[i] == s[i] as u32,
    decreases s.len(),
{
    if s.len() > 0 {
        let init = s.drop_last();
        assert forall|j: int| 0 <= j < init.len() implies (#[trigger] init[j] as u32) < 0x10000 by {
            assert(init[j] == s[j]);
        }
        lemma_narrow(init);
        assert((s.last() as u32) < 0x10000);
    }
}

/// A character from U+10000 on is a pair of surrogates, which give it back.
pub proof fn wide_character_is_a_pair(s: &str, r: Vec<u16>)
    requires
        call_ensures(to_wide, (s,), r),
        s@.len() == 1,
        s@[0] as u32 >= 0x10000,
    ensures
        r@.len() == 3,
        0xD800 <= r@[0] <= 0xDBFF,
        0xDC00 <= r@[1] <= 0xDFFF,
        (r@[0] - 0xD800) * 0x400 + (r@[1] - 0xDC00) + 0x10000 == s@[0] as u32,
        r@[2] == 0,
{
    assert(s@.drop_last() =~= Seq::<char>::empty());
    assert(utf16(s@.drop_last()) =~= Seq::<u16>::empty());
    lemma_pair(s@[0]);
}

proof fn lemma_pair(c: char)
    requires
        c as u32 >= 0x10000,
    ensures
        c as u32 <= 0x10FFFF,
        utf16_units(c).len() == 2,
        0xD800 <= utf16_units(c)[0] <= 0xDBFF,
        0xDC00 <= utf16_units(c)[1] <= 0xDFFF,
        (utf16_units(c)[0] - 0xD800) * 0x400 + (utf16_units(c)[1] - 0xDC00) + 0x10000 == c as u32,
{
}

/// The units of two texts in a row are those of the one and then those of the
/// other.
pub proof fn wide_texts_follow_each_other(
    a: &str,
    b: &str,
    both: &str,
    ra: Vec<u16>,
    rb: Vec<u16>,
    r: Vec<u16>,
)
    requires
        both@ == a@ + b@,
        call_ensures(to_wide, (a,), ra),
        call_ensures(to_wide, (b,), rb),
        call_ensures(to_wide, (both,), r),
    ensures
        r@ == ra@.drop_last() + rb@,
        ra@.last() == 0,
{
    lemma_utf16_add(a@, b@);
    assert(ra@.drop_last() =~= utf16(a@));
    assert(r@ =~= ra@.drop_last() + rb@);
}

proof fn lemma_utf16_add(a: Seq<char>, b: Seq<char>)
    ensures
        utf16(a + b) == utf16(a) + utf16(b),
    decreases b.len(),
{
    if b.len() == 0 {
        assert(a + b =~= a);
        assert(utf16(a) + utf16(b) =~= utf16(a));
    } else {
        lemma_utf16_add(a, b.drop_last());
        assert((a + b).drop_last() =~= a + b.drop_last());
        assert(utf16(a + b) =~= utf16(a) + utf16(b));
    }
}

/// Random text is made of letters and digits, as many as are asked for; and a
/// copy of bytes is those bytes.
pub proof fn random_text_is_letters_and_digits(n: usize, r: String, i: int, b: &[u8], c: Vec<u8>)
    requires
        call_ensures(random_text, (n,), r),
        call_ensures(copy_bytes, (b,), c),
    ensures
        r@.len() == n,
        0 <= i < n ==> letter_or_digit(r@[i]),
        c@ == b@,
{
}

/// A text that is joined is the one and then the other.
pub proof fn joined_text_is_both(a: &str, b: &str, r: String)
    requires
        call_ensures(join, (a, b), r),
    ensures
        r@ == a@ + b@,
{
}

// ---------------------------------------------------------------- registry
/// What is read of the registry is what it holds under the name, if the key
/// can be opened and the value is of the kind that is asked for; and the
/// default otherwise.
pub proof fn value_is_read_as_it_is(
    reg: &RegistryConfig,
    name: &str,
    default: &str,
    text: String,
    number_default: u32,
    number: u32,
)
    requires
        call_ensures(RegistryConfig::get_string, (reg, name, default), text),
        call_ensures(RegistryConfig::get_dword, (reg, name, number_default), number),
    ensures
        ({
            let there = reg@.available && reg@.values.contains_key(name@);
            &&& there && reg@.values[name@] is Text ==> reg@.values[name@] == Stored::Text(text@)
            &&& !(there && reg@.values[name@] is Text) ==> text@ == default@
            &&& there && reg@.values[name@] is Dword ==> reg@.values[name@] == Stored::Dword(
                number,
            )
            &&& !(there && reg@.values[name@] is Dword) ==> number == number_default
        }),
{
}

/// What is stored stands under its name, and nothing else changes; where the
/// key cannot be opened nothing is stored, and that is an error.
pub proof fn text_is_stored(
    reg: &mut RegistryConfig,
    name: &str,
    value: &str,
    r: Result<(), RegistryError>,
    other: Seq<char>,
)
    requires
        call_ensures(RegistryConfig::set_string, (reg, name, value), r),
    ensures
        r is Ok <==> old(reg)@.available,
        r is Err ==> r == Err::<(), RegistryError>(RegistryError::Unavailable) && final(reg)@
            == old(reg)@,
        r is Ok ==> {
            &&& final(reg)@.values.contains_key(name@)
            &&& final(reg)@.values[name@] == Stored::Text(value@)
        },
        other != name@ ==> {
            &&& final(reg)@.values.contains_key(other) == old(reg)@.values.contains_key(other)
            &&& final(reg)@.values[other] == old(reg)@.values[other]
        },
        final(reg)@.options == old(reg)@.options,
        final(reg)@.available == old(reg)@.available,
{
}

/// A number is stored in the same way.
pub proof fn number_is_stored(
    reg: &mut RegistryConfig,
    name: &str,
    value: u32,
    r: Result<(), RegistryError>,
    other: Seq<char>,
)
    requires
        call_ensures(RegistryConfig::set_dword, (reg, name, value), r),
    ensures
        r is Ok <==> old(reg)@.available,
        r is Err ==> r == Err::<(), RegistryError>(RegistryError::Unavailable) && final(reg)@
            == old(reg)@,
        r is Ok ==> {
            &&& final(reg)@.values.contains_key(name@)
            &&& final(reg)@.values[name@] == Stored::Dword(value)
        },
        other != name@ ==> {
            &&& final(reg)@.values.contains_key(other) == old(reg)@.values.contains_key(other)
            &&& final(reg)@.values[other] == old(reg)@.values[other]
        },
        final(reg)@.options == old(reg)@.options,
        final(reg)@.available == old(reg)@.available,
{
}

/// Bytes that were stored are read back as they were, and nothing else has
/// changed.
pub proof fn stored_bytes_are_read_back(
    reg: &mut RegistryConfig,
    name: &str,
    value: &[u8],
    stored: Result<(), RegistryError>,
    later: &RegistryConfig,
    r: Result<Vec<u8>, RegistryError>,
    other: Seq<char>,
)
    requires
        call_ensures(RegistryConfig::set_binary, (reg, name, value), stored),
        later@ == final(reg)@,
        call_ensures(RegistryConfig::get_binary, (later, name), r),
    ensures
        stored is Ok <==> old(reg)@.available,
        stored is Ok ==> (r matches Ok(data) && data@ == value@),
        stored is Ok ==> final(reg)@.values.contains_key(name@) && final(reg)@.values[name@]
            == Stored::Text(hex_of(value@)),
        stored is Err ==> final(reg)@ == old(reg)@,
        stored is Err ==> stored == Err::<(), RegistryError>(RegistryError::Unavailable),
        final(reg)@.options == old(reg)@.options,
        final(reg)@.available == old(reg)@.available,
        other != name@ ==> {
            &&& final(reg)@.values.contains_key(other) == old(reg)@.values.contains_key(other)
            &&& final(reg)@.values[other] == old(reg)@.values[other]
        },
{
    if old(reg)@.available {
        crate::sos_config::binary_round_trip(old(reg)@, name@, value@);
    }
}

/// Where no bytes are stored there are none, and what is no pairs of
/// hexadecimal digits is refused.
pub proof fn bytes_are_pairs_of_digits(
    reg: &RegistryConfig,
    name: &str,
    text: Seq<char>,
    r: Result<Vec<u8>, RegistryError>,
)
    requires
        call_ensures(RegistryConfig::get_binary, (reg, name), r),
    ensures
        (forall|t: Seq<char>| !#[trigger] holds_text(reg@, name@, t)) ==> (r matches Ok(data)
            && data@.len() == 0),
        holds_text(reg@, name@, text) && encode_utf8(text).len() % 2 == 1 ==> r is Err,
        holds_text(reg@, name@, text) ==> {
            &&& r is Ok <==> is_hex(encode_utf8(text))
            &&& r matches Ok(data) ==> data@ == unhex(encode_utf8(text))
            &&& r is Err ==> r == Err::<Vec<u8>, RegistryError>(RegistryError::BadHex)
        },
{
    lemma_holds_text(reg@, name@);
}

/// Options are kept beside the values, under their own names.
pub proof fn option_is_read_back(
    reg: &mut RegistryConfig,
    key: &str,
    value: &str,
    stored: Result<(), RegistryError>,
    later: &RegistryConfig,
    r: String,
    held: &RegistryConfig,
    found: String,
    other: Seq<char>,
)
    requires
        call_ensures(RegistryConfig::set_option, (reg, key, value), stored),
        later@ == final(reg)@,
        call_ensures(RegistryConfig::get_option, (later, key), r),
        call_ensures(RegistryConfig::get_option, (held, key), found),
    ensures
        stored is Ok <==> old(reg)@.options_available,
        stored is Ok ==> r@ == value@,
        stored is Err ==> final(reg)@ == old(reg)@,
        stored is Err ==> stored == Err::<(), RegistryError>(RegistryError::Unavailable),
        final(reg)@.values == old(reg)@.values,
        final(reg)@.available == old(reg)@.available,
        final(reg)@.options_available == old(reg)@.options_available,
        other != key@ ==> {
            &&& final(reg)@.options.contains_key(other) == old(reg)@.options.contains_key(other)
            &&& final(reg)@.options[other] == old(reg)@.options[other]
        },
        held@.options_available && held@.options.contains_key(key@) ==> found@
            == held@.options[key@],
        !held@.options_available || !held@.options.contains_key(key@) ==> found@.len() == 0,
{
}

/// A key that is loaded has the values that were put in.
pub proof fn loaded_values_are_there(
    reg: &mut RegistryConfig,
    name: &str,
    value: RegValue,
    fresh: RegistryConfig,
    available: bool,
    options_available: bool,
    other: Seq<char>,
    held: &RegistryConfig,
    r: Option<&RegValue>,
)
    requires
        call_ensures(RegistryConfig::put, (reg, name, value), ()),
        call_ensures(RegistryConfig::new, (available, options_available), fresh),
        call_ensures(RegistryConfig::value, (held, name), r),
    ensures
        final(reg)@.values.contains_key(name@),
        final(reg)@.values[name@] == value@,
        other != name@ ==> final(reg)@.values.contains_key(other) == old(
            reg,
        )@.values.contains_key(other) && final(reg)@.values[other] == old(reg)@.values[other],
        final(reg)@.available == old(reg)@.available,
        final(reg)@.options_available == old(reg)@.options_available,
        final(reg)@.options == old(reg)@.options,
        fresh@.available == available,
        fresh@.options_available == options_available,
        !fresh@.values.contains_key(other),
        !fresh@.options.contains_key(other),
        r is Some <==> held@.values.contains_key(name@),
        r matches Some(v) ==> v@ == held@.values[name@],
        value matches RegValue::Text(t) ==> value@ == Stored::Text(t@),
        value matches RegValue::Dword(d) ==> value@ == Stored::Dword(d),
        value is Other ==> value@ == Stored::Other,
{
}

// ---------------------------------------------------------------- values
/// The identifier, the old identifier and the server are the texts under
/// their names.
pub proof fn texts_have_their_names(
    reg: &RegistryConfig,
    id: String,
    enc_id: String,
    server: String,
    asked_id: String,
    asked_enc_id: String,
    asked_server: String,
    initialized: bool,
)
    requires
        call_ensures(RegistryConfig::get_id, (reg,), id),
        call_ensures(RegistryConfig::get_enc_id, (reg,), enc_id),
        call_ensures(RegistryConfig::get_rendezvous_server, (reg,), server),
        call_ensures(RegistryConfig::get_string, (reg, "ID", ""), asked_id),
        call_ensures(RegistryConfig::get_string, (reg, "EncID", ""), asked_enc_id),
        call_ensures(RegistryConfig::get_string, (reg, "RendezvousServer", ""), asked_server),
        call_ensures(RegistryConfig::is_initialized, (reg,), initialized),
    ensures
        id@ == asked_id@,
        enc_id@ == asked_enc_id@,
        server@ == asked_server@,
        initialized <==> reg@.available && reg@.values.contains_key("ID"@)
            && reg@.values["ID"@] is Text,
{
}

/// A server is stored as the text under its name.
pub proof fn server_is_stored(
    reg: &mut RegistryConfig,
    server: &str,
    r: Result<(), RegistryError>,
    same: &mut RegistryConfig,
    r_same: Result<(), RegistryError>,
)
    requires
        call_ensures(RegistryConfig::set_rendezvous_server, (reg, server), r),
        call_ensures(RegistryConfig::set_string, (same, "RendezvousServer", server), r_same),
        old(same)@ == old(reg)@,
    ensures
        r == r_same,
        final(reg)@ == final(same)@,
{
}

/// A password that is stored counts, and otherwise the temporary one does.
pub proof fn stored_password_goes_first(
    reg: &RegistryConfig,
    current: &Option<String>,
    r: String,
    stored: Seq<char>,
)
    requires
        call_ensures(RegistryConfig::get_password, (reg, current), r),
    ensures
        holds_text(reg@, "Password"@, stored) ==> r@ == stored,
        (forall|t: Seq<char>| !#[trigger] holds_text(reg@, "Password"@, t)) ==> {
            &&& *current matches Some(p) ==> r@ == p@
            &&& *current is None ==> r@.len() == 0
        },
{
    lemma_holds_text(reg@, "Password"@);
}

/// That the server has confirmed the key is noted as one, and otherwise as
/// zero; and what is not zero is read as a confirmation.
pub proof fn confirmation_is_read_back(
    reg: &mut RegistryConfig,
    v: bool,
    later: &RegistryConfig,
    r: bool,
    held: &RegistryConfig,
    found: bool,
    number: u32,
    same: &mut RegistryConfig,
    r_same: Result<(), RegistryError>,
)
    requires
        call_ensures(RegistryConfig::set_key_confirmed, (reg, v), ()),
        later@ == final(reg)@,
        call_ensures(RegistryConfig::get_key_confirmed, (later,), r),
        call_ensures(RegistryConfig::get_key_confirmed, (held,), found),
        call_ensures(RegistryConfig::get_dword, (held, "KeyConfirmed", 0), number),
        call_ensures(
            RegistryConfig::set_dword,
            (
                same,
                "KeyConfirmed",
                if v {
                    1
                } else {
                    0
                },
            ),
            r_same,
        ),
        old(same)@ == old(reg)@,
    ensures
        final(reg)@ == final(same)@,
        old(reg)@.available ==> r == v,
        !old(reg)@.available ==> final(reg)@ == old(reg)@,
        found <==> number != 0,
{
}

/// Signing keys that are stored are used, the secret half before the public
/// one. Otherwise a pair is made once, which belongs together, and is used
/// from then on. Stored ones leave the memory alone.
pub proof fn signing_keys_are_kept(
    reg: &RegistryConfig,
    memory: &mut Option<KeyPair>,
    r: KeyPair,
    binary: Result<Vec<u8>, RegistryError>,
)
    requires
        call_ensures(RegistryConfig::get_key_pair, (reg, memory), r),
        call_ensures(RegistryConfig::get_binary, (reg, "KeyPair"), binary),
    ensures
        binary is Ok && binary->Ok_0@.len() == 64 ==> {
            &&& r.sk@ + r.pk@ == binary->Ok_0@
            &&& r.sk@.len() == 32
            &&& *final(memory) == *old(memory)
        },
        !(binary is Ok && binary->Ok_0@.len() == 64) ==> {
            &&& *final(memory) matches Some(kept)
            &&& r.sk@ == kept.sk@
            &&& r.pk@ == kept.pk@
            &&& *old(memory) is Some ==> *final(memory) == *old(memory)
            &&& *old(memory) is None ==> {
                &&& r.sk@.len() == 64
                &&& r.pk@.len() == 32
                &&& r.sk@.skip(32) == r.pk@
                &&& r.pk@ == ed25519_public(r.sk@.take(32))
            }
        },
{
    if binary is Ok {
        let v = binary->Ok_0;
        if v@.len() == 64 {
            assert(v@.take(32) + v@.skip(32) =~= v@);
        }
    }
}

/// Whether a value is one that only earlier versions stored.
pub open spec fn is_old_value(name: Seq<char>) -> bool {
    name == "KeyPair"@ || name == "Password"@ || name == "TemporaryPassword"@ || name
        == "RendezvousServer"@ || name == "KeyConfirmed"@ || name == "EncID"@ || name
        == "NatType"@
}

/// What an earlier version stored is deleted, and nothing else.
pub proof fn only_old_values_are_deleted(reg: &mut RegistryConfig, name: Seq<char>)
    requires
        call_ensures(RegistryConfig::clean_legacy_keys, (reg,), ()),
    ensures
        ({
            let old_one = is_old_value(name);
            &&& old(reg)@.available && old_one ==> !final(reg)@.values.contains_key(name)
            &&& !old_one || !old(reg)@.available ==> final(reg)@.values.contains_key(name) == old(
                reg,
            )@.values.contains_key(name) && final(reg)@.values[name] == old(reg)@.values[name]
        }),
        final(reg)@.options == old(reg)@.options,
        final(reg)@.available == old(reg)@.available,
{
}

/// The number that a hardware address gives: its last four bytes, the first
/// of them the most significant, in 29 bits.
pub open spec fn address_number(m: [u8; 6]) -> int {
    (m@[2] * 16777216 + m@[3] * 65536 + m@[4] * 256 + m@[5]) % 536870912
}

/// Whether an identifier is one that is made for a device: the number of its
/// hardware address, and where that is zero or there is none, some number
/// from a million up to two thousand million.
pub open spec fn is_made_id(mac: Option<[u8; 6]>, id: Seq<char>) -> bool {
    &&& is_numeral(id)
    &&& mac is Some && address_number(mac->0) != 0 ==> numeral_value(id) == address_number(
        mac->0,
    )
    &&& mac is None || address_number(mac->0) == 0 ==> 1_000_000 <= numeral_value(id)
        < 2_000_000_000
}

/// An identifier that is made is the number of the hardware address, or a
/// random one.
pub proof fn identifier_is_made(mac: Option<[u8; 6]>, r: String)
    requires
        call_ensures(RegistryConfig::generate_auto_id, (mac,), r),
    ensures
        is_made_id(mac, r@),
{
    lemma_made_id(mac, r@);
}

proof fn lemma_made_id(mac: Option<[u8; 6]>, id: Seq<char>)
    requires
        crate::sos_config::is_auto_id(mac, id),
    ensures
        is_made_id(mac, id),
{
    let n = crate::sos_config::mac_id(mac);
    if n != 0 {
        lemma_numeral(n);
    } else {
        let k = choose|k: nat| 1_000_000 <= k < 2_000_000_000 && id == #[trigger] decimal(k);
        lemma_numeral(k);
    }
}

/// A new identifier has ten digits, and is stored where that can be done.
pub proof fn new_identifier_has_ten_digits(
    reg: &mut RegistryConfig,
    r: String,
    other: Seq<char>,
)
    requires
        call_ensures(RegistryConfig::update_id, (reg,), r),
    ensures
        is_numeral(r@),
        1_000_000_000 <= numeral_value(r@) < 2_000_000_000,
        old(reg)@.available ==> final(reg)@.values.contains_key("ID"@)
            && final(reg)@.values["ID"@] == Stored::Text(r@),
        !old(reg)@.available ==> final(reg)@ == old(reg)@,
        other != "ID"@ ==> {
            &&& final(reg)@.values.contains_key(other) == old(reg)@.values.contains_key(other)
            &&& final(reg)@.values[other] == old(reg)@.values[other]
        },
        final(reg)@.options == old(reg)@.options,
{
    let k = choose|k: nat| 1_000_000_000 <= k < 2_000_000_000 && r@ == #[trigger] decimal(k);
    lemma_numeral(k);
}

/// A first run stores the identifier that it is given, or one that is made,
/// and deletes what earlier versions stored.
pub proof fn first_run_stores_an_identifier(
    reg: &mut RegistryConfig,
    cli_id: &str,
    mac: Option<[u8; 6]>,
    r: Result<(), RegistryError>,
    other: Seq<char>,
)
    requires
        call_ensures(RegistryConfig::init_first_run, (reg, cli_id, mac), r),
    ensures
        r is Ok <==> old(reg)@.available,
        r is Err ==> final(reg)@ == old(reg)@,
        r is Ok ==> {
            &&& final(reg)@.values.contains_key("ID"@)
            &&& final(reg)@.values["ID"@] matches Stored::Text(id)
            &&& cli_id@.len() > 0 ==> id == cli_id@
            &&& cli_id@.len() == 0 ==> is_made_id(mac, id)
            &&& is_old_value(other) ==> !final(reg)@.values.contains_key(other)
            &&& !is_old_value(other) && other != "ID"@ ==> final(reg)@.values.contains_key(other)
                == old(reg)@.values.contains_key(other) && final(reg)@.values[other] == old(
                reg,
            )@.values[other]
        },
        final(reg)@.options == old(reg)@.options,
{
    lemma_names();
    if old(reg)@.available {
        let id = final(reg)@.text_or("ID"@, Seq::empty());
        if cli_id@.len() == 0 {
            lemma_made_id(mac, id);
        }
    }
}

proof fn lemma_names()
    ensures
        !is_old_value("ID"@),
{
    reveal_strlit("ID");
    reveal_strlit("KeyPair");
    reveal_strlit("Password");
    reveal_strlit("TemporaryPassword");
    reveal_strlit("RendezvousServer");
    reveal_strlit("KeyConfirmed");
    reveal_strlit("EncID");
    reveal_strlit("NatType");
    assert("ID"@.len() == 2);
    assert("KeyPair"@.len() == 7);
    assert("Password"@.len() == 8);
    assert("TemporaryPassword"@.len() == 17);
    assert("RendezvousServer"@.len() == 16);
    assert("KeyConfirmed"@.len() == 12);
    assert("EncID"@.len() == 5);
    assert("NatType"@.len() == 7);
}

// ---------------------------------------------------------------- a run
/// A run needs the registry.
pub proof fn run_needs_the_registry(
    cli: &CliOptions,
    reg: &mut RegistryConfig,
    memory: &mut Option<KeyPair>,
    mac: Option<[u8; 6]>,
    known: &Vec<String>,
    default_pub_key: &str,
    r: Result<SosConfig, RegistryError>,
)
    requires
        call_ensures(
            SosConfig::from_cli_and_registry,
            (cli, reg, memory, mac, known, default_pub_key),
            r,
        ),
    ensures
        r is Ok <==> old(reg)@.available,
        r is Err ==> {
            &&& r == Err::<SosConfig, RegistryError>(RegistryError::Unavailable)
            &&& final(reg)@ == old(reg)@
            &&& *final(memory) == *old(memory)
        },
{
}

/// The identifier of a run is the one of the command line, or else the stored
/// one, or else one that is made. A stored one stays as it is, whatever the
/// command line says. Where there is none this is a first run: the identifier
/// is stored, what earlier versions stored is deleted, and all else stays.
pub proof fn identifier_of_a_run(
    cli: &CliOptions,
    reg: &mut RegistryConfig,
    memory: &mut Option<KeyPair>,
    mac: Option<[u8; 6]>,
    known: &Vec<String>,
    default_pub_key: &str,
    c: SosConfig,
    stored: Seq<char>,
    other: Seq<char>,
)
    requires
        call_ensures(
            SosConfig::from_cli_and_registry,
            (cli, reg, memory, mac, known, default_pub_key),
            Ok(c),
        ),
    ensures
        cli.id@.len() > 0 ==> c.id@ == cli.id@,
        holds_text(old(reg)@, "ID"@, stored) ==> {
            &&& cli.id@.len() == 0 ==> c.id@ == stored
            &&& final(reg)@ == old(reg)@
        },
        cli.id@.len() == 0 && (forall|t: Seq<char>| !#[trigger] holds_text(old(reg)@, "ID"@, t))
            ==> is_made_id(mac, c.id@),
        old(reg)@.values.contains_key("ID"@) && old(reg)@.values["ID"@] is Text && cli.id@.len()
            > 0 ==> final(reg)@ == old(reg)@,
        final(reg)@.available == old(reg)@.available,
        final(reg)@.options == old(reg)@.options,
        !old(reg)@.values.contains_key("ID"@) || !(old(reg)@.values["ID"@] is Text) || (old(
            reg,
        )@.values["ID"@] == Stored::Text(Seq::empty()) && cli.id@.len() == 0) ==> {
            &&& final(reg)@.values.contains_key("ID"@)
            &&& final(reg)@.values["ID"@] == Stored::Text(c.id@)
            &&& is_old_value(other) ==> !final(reg)@.values.contains_key(other)
            &&& !is_old_value(other) && other != "ID"@ ==> final(reg)@.values.contains_key(other)
                == old(reg)@.values.contains_key(other) && final(reg)@.values[other] == old(
                reg,
            )@.values[other]
        },
{
    lemma_names();
    lemma_holds_text(old(reg)@, "ID"@);
    if crate::sos_config::is_auto_id(mac, c.id@) {
        lemma_made_id(mac, c.id@);
    }
}

/// The server, the relay, the key of the server and the password of a run are
/// those of the command line. Where it names no server it is the first known
/// one, and where it names no key it is the usual one.
pub proof fn command_line_decides(
    cli: &CliOptions,
    reg: &mut RegistryConfig,
    memory: &mut Option<KeyPair>,
    mac: Option<[u8; 6]>,
    known: &Vec<String>,
    default_pub_key: &str,
    c: SosConfig,
)
    requires
        call_ensures(
            SosConfig::from_cli_and_registry,
            (cli, reg, memory, mac, known, default_pub_key),
            Ok(c),
        ),
    ensures
        cli.rendezvous@.len() > 0 ==> c.rendezvous_server@ == cli.rendezvous@,
        cli.rendezvous@.len() == 0 && known@.len() > 0 ==> c.rendezvous_server@ == known@[0]@,
        cli.rendezvous@.len() == 0 && known@.len() == 0 ==> c.rendezvous_server@
            == "rs-ny.rustdesk.com"@,
        c.relay_server@ == cli.relay@,
        cli.key@.len() > 0 ==> c.server_pub_key@ == cli.key@,
        cli.key@.len() == 0 ==> c.server_pub_key@ == default_pub_key@,
        c.password@ == cli.password@,
{
}

/// The keys of a run are those that the registry and the memory give after
/// it.
pub proof fn keys_of_a_run(
    cli: &CliOptions,
    reg: &mut RegistryConfig,
    memory: &mut Option<KeyPair>,
    mac: Option<[u8; 6]>,
    known: &Vec<String>,
    default_pub_key: &str,
    c: SosConfig,
    same: &mut Option<KeyPair>,
    pair: KeyPair,
    stored: Result<Vec<u8>, RegistryError>,
)
    requires
        call_ensures(
            SosConfig::from_cli_and_registry,
            (cli, reg, memory, mac, known, default_pub_key),
            Ok(c),
        ),
        call_ensures(RegistryConfig::get_key_pair, (&*final(reg), same), pair),
        *old(same) == *final(memory),
        call_ensures(RegistryConfig::get_binary, (&*final(reg), "KeyPair"), stored),
    ensures
        c.key_pair.sk@ == pair.sk@,
        c.key_pair.pk@ == pair.pk@,
        keys_are_remembered(stored, *old(memory), *final(memory)),
{
}

/// The server that is used where none was asked for.
pub proof fn first_known_server_is_used(known: &Vec<String>, r: String)
    requires
        call_ensures(default_rendezvous_server, (known,), r),
    ensures
        known@.len() > 0 ==> r@ == known@[0]@,
        known@.len() == 0 ==> r@ == "rs-ny.rustdesk.com"@,
{
}

// ---------------------------------------------------------------- passwords
/// A temporary password is eight letters and digits.
pub proof fn temporary_password_is_eight_characters(r: String, i: int)
    requires
        call_ensures(generate_temp_password, (), r),
        0 <= i < 8,
    ensures
        r@.len() == 8,
        letter_or_digit(r@[i]),
{
}

/// A run starts with the password of the command line, or with a temporary
/// one.
pub proof fn run_starts_with_a_password(fixed: &str, r: String, i: int)
    requires
        call_ensures(initial_password, (fixed,), r),
        0 <= i < 8,
    ensures
        fixed@.len() > 0 ==> r@ == fixed@,
        fixed@.len() == 0 ==> r@.len() == 8 && letter_or_digit(r@[i]),
{
}

/// After a connection a temporary password is replaced, by eight letters and
/// digits, and a fixed one never.
pub proof fn temporary_password_is_replaced(
    fixed: &str,
    slot: &mut Option<String>,
    r: bool,
    i: int,
)
    requires
        call_ensures(refresh_password, (fixed, slot), r),
        0 <= i < 8,
    ensures
        r <==> fixed@.len() == 0,
        fixed@.len() > 0 ==> *final(slot) == *old(slot),
        fixed@.len() == 0 ==> {
            &&& *final(slot) matches Some(p)
            &&& p@.len() == 8
            &&& letter_or_digit(p@[i])
        },
{
}

/// The current password is the one that was set last; the kind of NAT too.
/// Before there is one, the password is empty and the kind is unknown.
pub proof fn what_was_set_is_current(
    slot: &mut Option<String>,
    pwd: String,
    held: &Option<String>,
    r: String,
    nat_slot: &mut Option<i32>,
    t: i32,
    nat_held: &Option<i32>,
    n: i32,
)
    requires
        call_ensures(set_current_password, (slot, pwd), ()),
        call_ensures(get_current_password, (held,), r),
        call_ensures(set_nat_type, (nat_slot, t), ()),
        call_ensures(get_nat_type, (nat_held,), n),
    ensures
        *held == *final(slot) ==> r@ == pwd@,
        *held matches Some(p) ==> r@ == p@,
        *held is None ==> r@.len() == 0,
        *final(slot) == Some(pwd),
        *nat_held matches Some(k) ==> n == k,
        *final(nat_slot) == Some(t),
        *nat_held == *final(nat_slot) ==> n == t,
        *nat_held is None ==> n == 0,
{
}

} // verus!
