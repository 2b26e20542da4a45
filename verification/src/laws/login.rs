//! A peer logs in with the password, and failing to has a price.

use vstd::arithmetic::power2::{lemma2_to64, lemma_pow2_strictly_increases, pow2};
use vstd::prelude::*;
use vstd::utf8::encode_utf8;

use crate::digest::sha256;
use crate::sos_config::{Registry, RegistryConfig, Stored};
use crate::sos_login::{
    expected_proof, judge, new_challenge, same_bytes, verify_login, Challenge, LoginFailures,
    Verdict,
};

verus! {

// ---------------------------------------------------------------- password
/// The proof of a password is the digest of two things in a row: the digest
/// of the password and the salt in a row, and the challenge. Every letter
/// counts as it is.
pub proof fn proof_is_a_digest_of_digests(
    password: &str,
    salt: &str,
    challenge: &str,
    r: Vec<u8>,
)
    requires
        call_ensures(expected_proof, (password, salt, challenge), r),
    ensures
        r@ == sha256(
            sha256(encode_utf8(password@) + encode_utf8(salt@)) + encode_utf8(challenge@),
        ),
        r@.len() == 32,
{
}

/// A peer gets in if and only if it has the proof of the password: the fixed
/// one, where there is one, and otherwise the temporary one. Any other proof
/// is wrong, unless it is none at all: then the user has not typed a password
/// yet.
pub proof fn password_decides(
    fixed: &str,
    current: &str,
    salt: &str,
    challenge: &str,
    received: &[u8],
    password: Seq<char>,
    r: Verdict,
)
    requires
        call_ensures(verify_login, (fixed, current, salt, challenge, received), r),
        fixed@.len() > 0 ==> password == fixed@,
        fixed@.len() == 0 ==> password == current@,
        password.len() > 0,
    ensures
        r == Verdict::Authorized <==> received@ == sha256(
            sha256(encode_utf8(password) + encode_utf8(salt@)) + encode_utf8(challenge@),
        ),
        r != Verdict::Authorized && received@.len() > 0 ==> r == Verdict::Wrong,
        r != Verdict::Authorized && received@.len() == 0 ==> r == Verdict::Empty,
{
}

/// Without a password nobody gets in, whatever the proof.
pub proof fn no_password_lets_nobody_in(
    fixed: &str,
    current: &str,
    salt: &str,
    challenge: &str,
    received: &[u8],
    r: Verdict,
)
    requires
        call_ensures(verify_login, (fixed, current, salt, challenge, received), r),
        fixed@.len() == 0,
        current@.len() == 0,
    ensures
        received@.len() > 0 ==> r == Verdict::Wrong,
        received@.len() == 0 ==> r == Verdict::Empty,
{
}

/// A proof is judged by whether it is the expected one, byte by byte.
pub proof fn judgement_is_by_equality(
    expected: &Option<Vec<u8>>,
    received: &[u8],
    r: Verdict,
)
    requires
        call_ensures(judge, (expected, received), r),
    ensures
        *expected matches Some(e) ==> (r == Verdict::Authorized <==> e@ == received@),
        *expected is None ==> r != Verdict::Authorized,
        r == Verdict::Wrong ==> received@.len() > 0,
        r == Verdict::Empty ==> received@.len() == 0,
{
}

/// Byte strings are the same if and only if they have the same length and the
/// same bytes.
pub proof fn sameness_is_byte_by_byte(a: &[u8], b: &[u8], r: bool)
    requires
        call_ensures(same_bytes, (a, b), r),
    ensures
        r <==> a@.len() == b@.len() && forall|i: int|
            0 <= i < a@.len() ==> #[trigger] a@[i] == b@[i],
{
    if a@.len() == b@.len() && forall|i: int|
        0 <= i < a@.len() ==> #[trigger] a@[i] == b@[i] {
        assert(a@ =~= b@);
    }
}

/// Whether a character is a letter or a digit of ASCII.
pub open spec fn letter_or_digit(c: char) -> bool {
    ('a' <= c && c <= 'z') || ('A' <= c && c <= 'Z') || ('0' <= c && c <= '9')
}

/// Whether a key that can be opened holds a text of some length under a name.
pub open spec fn holds_text(reg: Registry, name: Seq<char>, text: Seq<char>) -> bool {
    reg.available && reg.values.contains_key(name) && reg.values[name] == Stored::Text(text)
        && text.len() > 0
}

/// The salt of a device is the stored one where there is one; otherwise it is
/// twelve letters and digits, which are stored where they can be, and nothing
/// else is.
pub proof fn salt_is_kept(
    registry: &mut RegistryConfig,
    r: String,
    salt: Seq<char>,
    other: Seq<char>,
)
    requires
        call_ensures(RegistryConfig::get_password_salt, (registry,), r),
    ensures
        holds_text(old(registry)@, "Salt"@, salt) ==> r@ == salt && final(registry)@ == old(
            registry,
        )@,
        (forall|t: Seq<char>| !#[trigger] holds_text(old(registry)@, "Salt"@, t)) ==> {
            &&& r@.len() == 12
            &&& forall|i: int| 0 <= i < 12 ==> letter_or_digit(#[trigger] r@[i])
        },
        old(registry)@.available ==> {
            &&& final(registry)@.values.contains_key("Salt"@)
            &&& final(registry)@.values["Salt"@] == Stored::Text(r@)
        },
        other != "Salt"@ ==> {
            &&& final(registry)@.values.contains_key(other) == old(registry)@.values.contains_key(
                other,
            )
            &&& final(registry)@.values[other] == old(registry)@.values[other]
        },
        final(registry)@.options == old(registry)@.options,
        !old(registry)@.available ==> final(registry)@ == old(registry)@,
{
    lemma_holds_text(old(registry)@, "Salt"@);
}

/// The challenge of a connection is six letters and digits, with the salt of
/// the device.
pub proof fn challenge_has_a_lasting_salt(
    registry: &mut RegistryConfig,
    r: Challenge,
    salt: Seq<char>,
    other: Seq<char>,
)
    requires
        call_ensures(new_challenge, (registry,), r),
    ensures
        r.challenge@.len() == 6,
        forall|i: int| 0 <= i < 6 ==> letter_or_digit(#[trigger] r.challenge@[i]),
        holds_text(old(registry)@, "Salt"@, salt) ==> r.salt@ == salt && final(registry)@ == old(
            registry,
        )@,
        (forall|t: Seq<char>| !#[trigger] holds_text(old(registry)@, "Salt"@, t)) ==> {
            &&& r.salt@.len() == 12
            &&& forall|i: int| 0 <= i < 12 ==> letter_or_digit(#[trigger] r.salt@[i])
        },
        old(registry)@.available ==> {
            &&& final(registry)@.values.contains_key("Salt"@)
            &&& final(registry)@.values["Salt"@] == Stored::Text(r.salt@)
        },
        other != "Salt"@ ==> {
            &&& final(registry)@.values.contains_key(other) == old(registry)@.values.contains_key(
                other,
            )
            &&& final(registry)@.values[other] == old(registry)@.values[other]
        },
        final(registry)@.options == old(registry)@.options,
        !old(registry)@.available ==> final(registry)@ == old(registry)@,
{
    lemma_holds_text(old(registry)@, "Salt"@);
}

/// Where no text of some length is held, the text under a name is empty.
pub proof fn lemma_holds_text(reg: Registry, name: Seq<char>)
    ensures
        (forall|t: Seq<char>| !#[trigger] holds_text(reg, name, t)) <==> reg.text_or(
            name,
            Seq::empty(),
        ).len() == 0,
{
    let t = reg.text_or(name, Seq::empty());
    if t.len() > 0 {
        assert(holds_text(reg, name, t));
    }
}

// ---------------------------------------------------------------- delays
/// A failure is counted, at its time: as one more, up to twenty, if the last
/// one of the address was no more than two hours ago, and otherwise as the
/// first one. No other address is touched.
pub proof fn failure_is_counted(f: &mut LoginFailures, addr: &str, now: u64, other: Seq<char>)
    requires
        call_ensures(LoginFailures::record_login_failure, (f, addr, now), ()),
    ensures
        final(f)@.contains_key(addr@),
        final(f)@[addr@].last_fail == now,
        !old(f)@.contains_key(addr@) ==> final(f)@[addr@].count == 1,
        old(f)@.contains_key(addr@) ==> {
            let (count, then) = (old(f)@[addr@].count, old(f)@[addr@].last_fail);
            &&& now - then >= 7201 * 1_000_000_000 ==> final(f)@[addr@].count == 1
            &&& now - then < 7201 * 1_000_000_000 && count < 20 ==> final(f)@[addr@].count
                == count + 1
            &&& now - then < 7201 * 1_000_000_000 && count >= 20 ==> final(f)@[addr@].count == 20
        },
        other != addr@ ==> {
            &&& final(f)@.contains_key(other) == old(f)@.contains_key(other)
            &&& final(f)@[other] == old(f)@[other]
        },
{
}

/// An address waits for two seconds after a first failure, and twice as long
/// for each further one, but for half an hour at most; what has gone by since
/// counts, in whole seconds.
pub proof fn wait_is_two_to_the_count(f: &LoginFailures, addr: &str, now: u64, r: u64)
    requires
        call_ensures(LoginFailures::check_login_rate_limit, (f, addr, now), r),
    ensures
        !f@.contains_key(addr@) ==> r == 0,
        f@.contains_key(addr@) ==> {
            let gone: int = if f@[addr@].last_fail <= now {
                (now - f@[addr@].last_fail) / 1_000_000_000
            } else {
                0
            };
            let earned: int = if pow2(f@[addr@].count as nat) < 1800 {
                pow2(f@[addr@].count as nat) as int
            } else {
                1800
            };
            &&& gone < earned ==> r == earned - gone
            &&& gone >= earned ==> r == 0
        },
{
}

/// The delays in seconds are these: 2, 4, 8, 16, 32, 64, 128, 256, 512 and
/// 1024, and half an hour from the eleventh failure on.
pub proof fn delays_are_these(f: &LoginFailures, addr: &str, r: u64, count: u32, now: u64)
    requires
        call_ensures(LoginFailures::check_login_rate_limit, (f, addr, now), r),
        f@.contains_key(addr@),
        f@[addr@].count == count,
        f@[addr@].last_fail == now,
    ensures
        count == 1 ==> r == 2,
        count == 2 ==> r == 4,
        count == 3 ==> r == 8,
        count == 4 ==> r == 16,
        count == 5 ==> r == 32,
        count == 6 ==> r == 64,
        count == 7 ==> r == 128,
        count == 8 ==> r == 256,
        count == 9 ==> r == 512,
        count == 10 ==> r == 1024,
        count >= 11 ==> r == 1800,
{
    lemma2_to64();
    if count > 11 {
        lemma_pow2_strictly_increases(11, count as nat);
    }
}

/// A login forgets the failures of its address, and of no other.
pub proof fn login_forgets_failures(f: &mut LoginFailures, addr: &str, other: Seq<char>)
    requires
        call_ensures(LoginFailures::clear_login_failures, (f, addr), ()),
    ensures
        !final(f)@.contains_key(addr@),
        other != addr@ ==> {
            &&& final(f)@.contains_key(other) == old(f)@.contains_key(other)
            &&& final(f)@[other] == old(f)@[other]
        },
{
}

/// At first nobody has failed.
pub proof fn nobody_has_failed_at_first(r: LoginFailures, addr: Seq<char>)
    requires
        call_ensures(LoginFailures::new, (), r),
    ensures
        !r@.contains_key(addr),
{
}

} // verus!
