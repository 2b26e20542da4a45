//! Logging in: the password check, and the delays that failed attempts earn.

use vstd::arithmetic::power2::{lemma_pow2, lemma_pow2_strictly_increases, pow2};
use vstd::bits::lemma_u64_shl_is_mul;
use vstd::hash_map::StringHashMap;
use vstd::prelude::*;
use vstd::utf8::encode_utf8;

use crate::digest::{sha256, sha256_of};
use crate::random::random_text;
use crate::sos_config::{RegistryConfig, Stored};
use crate::sos_input::{elapsed, SECOND};
use crate::text::is_alphanumeric;

verus! {

// ---------------------------------------------------------------- delays
/// The delay after the first failure, in seconds; each further one doubles
/// it.
pub const BACKOFF_BASE_SECS: u64 = 2;

/// The longest delay: half an hour.
pub const BACKOFF_MAX_SECS: u64 = 1800;

/// An address that has not failed for two hours starts over: it has no delay,
/// and its next failure counts as the first one.
pub const IDLE_RESET_SECS: u64 = 7200;

/// Failures are counted up to here.
pub const MAX_COUNT: u32 = 20;

/// The failures of one address.
#[derive(Debug, Clone, Copy, PartialEq, Eq, Structural)]
pub struct LoginFailure {
    pub count: u32,
    /// When the last one was, in nanoseconds.
    pub last_fail: u64,
}

/// The delay that `count` failures earn, in seconds.
pub open spec fn backoff(count: nat) -> nat {
    if pow2(count) < BACKOFF_MAX_SECS {
        pow2(count)
    } else {
        BACKOFF_MAX_SECS as nat
    }
}

/// The seconds that an address still has to wait at `now`.
pub open spec fn wait_of(failures: Map<Seq<char>, LoginFailure>, addr: Seq<char>, now: u64) -> nat {
    if failures.contains_key(addr) {
        let f = failures[addr];
        let gone = elapsed(f.last_fail, now) / SECOND as nat;
        if gone > IDLE_RESET_SECS || gone >= backoff(f.count as nat) {
            0
        } else {
            (backoff(f.count as nat) - gone) as nat
        }
    } else {
        0
    }
}

/// The failures of an address that count at `now`: none once it has been idle
/// for too long.
pub open spec fn count_at(
    failures: Map<Seq<char>, LoginFailure>,
    addr: Seq<char>,
    now: u64,
) -> u32 {
    if failures.contains_key(addr) && elapsed(failures[addr].last_fail, now) / SECOND as nat
        <= IDLE_RESET_SECS {
        failures[addr].count
    } else {
        0
    }
}

/// The failures with one more at `now`.
pub open spec fn with_failure(
    failures: Map<Seq<char>, LoginFailure>,
    addr: Seq<char>,
    now: u64,
) -> Map<Seq<char>, LoginFailure> {
    let count = count_at(failures, addr, now);
    failures.insert(
        addr,
        LoginFailure {
            count: if count < MAX_COUNT {
                (count + 1) as u32
            } else {
                MAX_COUNT
            },
            last_fail: now,
        },
    )
}

/// Whether every count is one that `record_login_failure` makes.
pub open spec fn counts_ok(failures: Map<Seq<char>, LoginFailure>) -> bool {
    forall|a: Seq<char>| #[trigger]
        failures.contains_key(a) ==> 1 <= failures[a].count <= MAX_COUNT
}

/// The failed attempts of every address.
pub struct LoginFailures {
    map: StringHashMap<LoginFailure>,
}

impl View for LoginFailures {
    type V = Map<Seq<char>, LoginFailure>;

    closed spec fn view(&self) -> Map<Seq<char>, LoginFailure> {
        self.map@
    }
}

impl LoginFailures {
    /// Every count is in its range.
    #[verifier::type_invariant]
    spec fn counted(self) -> bool {
        counts_ok(self.map@)
    }

    /// No failures.
    pub fn new() -> (r: Self)
        ensures
            r@ == Map::<Seq<char>, LoginFailure>::empty(),
    {
        LoginFailures { map: StringHashMap::new() }
    }

    /// The seconds that an address has to wait; zero if it may log in.
    pub fn check_login_rate_limit(&self, peer_addr: &str, now: u64) -> (r: u64)
        ensures
            r == wait_of(self@, peer_addr@, now),
    {
        proof {
            use_type_invariant(self);
        }
        match self.map.get(peer_addr) {
            Some(state) => {
                let gone: u64 = now.saturating_sub(state.last_fail) / SECOND;
                if gone > IDLE_RESET_SECS {
                    return 0;
                }
                assert(self@.contains_key(peer_addr@));
                proof {
                    let shift = (state.count - 1) as nat;
                    lemma_pow2(state.count as nat);
                    vstd::arithmetic::power2::lemma2_to64();
                    if shift < 19 {
                        lemma_pow2_strictly_increases(shift, 19);
                    }
                    vstd::arithmetic::power2::lemma_pow2_unfold(state.count as nat);
                    lemma_u64_shl_is_mul(BACKOFF_BASE_SECS, shift as u64);
                }
                let doubled: u64 = BACKOFF_BASE_SECS << ((state.count - 1) as u64);
                let wait: u64 = if doubled < BACKOFF_MAX_SECS {
                    doubled
                } else {
                    BACKOFF_MAX_SECS
                };
                if gone < wait {
                    wait - gone
                } else {
                    0
                }
            },
            None => 0,
        }
    }

    /// Counts a failure.
    pub fn record_login_failure(&mut self, peer_addr: &str, now: u64)
        ensures
            final(self)@ == with_failure(old(self)@, peer_addr@, now),
    {
        proof {
            use_type_invariant(&*self);
        }
        let mut map: StringHashMap<LoginFailure> = StringHashMap::new();
        std::mem::swap(&mut map, &mut self.map);
        let count: u32 = match map.get(peer_addr) {
            Some(state) => {
                if now.saturating_sub(state.last_fail) / SECOND > IDLE_RESET_SECS {
                    0
                } else {
                    state.count
                }
            },
            None => 0,
        };
        assert(map@.contains_key(peer_addr@) ==> count <= MAX_COUNT);
        let next: u32 = if count < MAX_COUNT {
            count + 1
        } else {
            MAX_COUNT
        };
        map.insert(
            String::from_str(peer_addr),
            LoginFailure { count: next, last_fail: now },
        );
        self.map = map;
    }

    /// Forgets the failures of an address.
    pub fn clear_login_failures(&mut self, peer_addr: &str)
        ensures
            final(self)@ == old(self)@.remove(peer_addr@),
    {
        proof {
            use_type_invariant(&*self);
        }
        let mut map: StringHashMap<LoginFailure> = StringHashMap::new();
        std::mem::swap(&mut map, &mut self.map);
        map.remove(peer_addr);
        self.map = map;
    }
}

/// Something that matters for delays.
pub ghost enum LoginHappening {
    /// An address fails, at a time.
    Failed(Seq<char>, u64),
    /// The failures of an address are forgotten.
    Cleared(Seq<char>),
}

/// The failures after a course of such things.
pub open spec fn after_course(
    failures: Map<Seq<char>, LoginFailure>,
    course: Seq<LoginHappening>,
) -> Map<Seq<char>, LoginFailure>
    decreases course.len(),
{
    if course.len() == 0 {
        failures
    } else {
        let before = after_course(failures, course.drop_last());
        match course.last() {
            LoginHappening::Failed(addr, now) => with_failure(before, addr, now),
            LoginHappening::Cleared(addr) => before.remove(addr),
        }
    }
}

/// The times at which an address fails in a course.
pub open spec fn times_of(course: Seq<LoginHappening>, addr: Seq<char>) -> Seq<u64>
    decreases course.len(),
{
    if course.len() == 0 {
        Seq::empty()
    } else {
        let before = times_of(course.drop_last(), addr);
        match course.last() {
            LoginHappening::Failed(a, now) => if a == addr {
                before.push(now)
            } else {
                before
            },
            LoginHappening::Cleared(_) => before,
        }
    }
}

/// Whether times follow each other without two idle hours between.
pub open spec fn in_a_row(times: Seq<u64>) -> bool
    decreases times.len(),
{
    times.len() > 1 ==> {
        &&& elapsed(times.drop_last().last(), times.last()) / SECOND as nat <= IDLE_RESET_SECS
        &&& in_a_row(times.drop_last())
    }
}

/// The delay grows with every failure in a row: two seconds after the first,
/// doubled by each further one, up to half an hour. It does so whenever the
/// failures come, as long as no two idle hours lie between, and whatever
/// happens to other addresses meanwhile. From the last failure on the delay
/// runs off.
pub proof fn delay_doubles(
    failures: Map<Seq<char>, LoginFailure>,
    addr: Seq<char>,
    course: Seq<LoginHappening>,
    now: u64,
)
    requires
        !failures.contains_key(addr),
        !course.contains(LoginHappening::Cleared(addr)),
        in_a_row(times_of(course, addr)),
        times_of(course, addr).len() > 0,
    ensures
        ({
            let times = times_of(course, addr);
            let earned = if pow2(times.len()) < 1800 {
                pow2(times.len())
            } else {
                1800
            };
            let gone = elapsed(times.last(), now) / 1_000_000_000;
            wait_of(after_course(failures, course), addr, now) == (if gone < earned {
                (earned - gone) as nat
            } else {
                0
            })
        }),
{
    let n = times_of(course, addr).len();
    lemma_count_after(failures, addr, course);
    lemma_pow2(n);
    vstd::arithmetic::power2::lemma2_to64();
    if n > MAX_COUNT {
        lemma_pow2_strictly_increases(11, n);
    }
}

/// The count after failures in a row.
proof fn lemma_count_after(
    failures: Map<Seq<char>, LoginFailure>,
    addr: Seq<char>,
    course: Seq<LoginHappening>,
)
    requires
        !failures.contains_key(addr),
        !course.contains(LoginHappening::Cleared(addr)),
        in_a_row(times_of(course, addr)),
    ensures
        ({
            let after = after_course(failures, course);
            let times = times_of(course, addr);
            &&& after.contains_key(addr) <==> times.len() > 0
            &&& times.len() > 0 ==> after[addr] == (LoginFailure {
                count: if times.len() < MAX_COUNT {
                    times.len() as u32
                } else {
                    MAX_COUNT
                },
                last_fail: times.last(),
            })
        }),
    decreases course.len(),
{
    if course.len() > 0 {
        let init = course.drop_last();
        let n = course.len() - 1;
        let before = times_of(init, addr);
        let times = times_of(course, addr);
        assert(course[n] != LoginHappening::Cleared(addr));
        assert forall|x: LoginHappening| init.contains(x) implies course.contains(x) by {
            let i = choose|i: int| 0 <= i < init.len() && init[i] == x;
            assert(course[i] == x);
        }
        assert(times == before || times.drop_last() =~= before);
        assert(in_a_row(before));
        lemma_count_after(failures, addr, init);
    }
}

/// No address waits for longer than half an hour, and whoever has waited for
/// that long since the last failure may log in.
pub proof fn delay_is_bounded(failures: Map<Seq<char>, LoginFailure>, addr: Seq<char>, now: u64)
    ensures
        wait_of(failures, addr, now) <= BACKOFF_MAX_SECS,
        failures.contains_key(addr) && elapsed(failures[addr].last_fail, now) >= BACKOFF_MAX_SECS
            * SECOND ==> wait_of(failures, addr, now) == 0,
{
    if failures.contains_key(addr) {
        let e = elapsed(failures[addr].last_fail, now);
        assert(e >= BACKOFF_MAX_SECS * SECOND ==> e / SECOND as nat >= BACKOFF_MAX_SECS)
            by (nonlinear_arith);
    }
}

/// Whoever has failed has to wait, two seconds at least.
pub proof fn failure_delays(
    failures: Map<Seq<char>, LoginFailure>,
    addr: Seq<char>,
    then: u64,
    now: u64,
)
    requires
        elapsed(then, now) < BACKOFF_BASE_SECS * SECOND,
    ensures
        wait_of(with_failure(failures, addr, then), addr, now) > 0,
{
    let count = with_failure(failures, addr, then)[addr].count as nat;
    lemma_pow2(count);
    vstd::arithmetic::power2::lemma2_to64();
    if count > 1 {
        lemma_pow2_strictly_increases(1, count);
    }
}

/// Two hours without a failure wipe the slate: the next failure earns the
/// delay of a first one, however many there were before.
pub proof fn idle_starts_over(
    failures: Map<Seq<char>, LoginFailure>,
    addr: Seq<char>,
    now: u64,
)
    requires
        failures.contains_key(addr),
        elapsed(failures[addr].last_fail, now) >= (IDLE_RESET_SECS + 1) * SECOND,
    ensures
        wait_of(failures, addr, now) == 0,
        wait_of(with_failure(failures, addr, now), addr, now) == BACKOFF_BASE_SECS,
{
    let e = elapsed(failures[addr].last_fail, now);
    assert(e / SECOND as nat > IDLE_RESET_SECS) by (nonlinear_arith)
        requires
            e >= (IDLE_RESET_SECS + 1) * SECOND,
    ;
    lemma_pow2(1);
    vstd::arithmetic::power2::lemma2_to64();
}

/// After a login the address has no delay.
pub proof fn login_clears_delay(failures: Map<Seq<char>, LoginFailure>, addr: Seq<char>, now: u64)
    ensures
        wait_of(failures.remove(addr), addr, now) == 0,
{
}

/// The failures of one address delay no other one.
pub proof fn delays_are_separate(
    failures: Map<Seq<char>, LoginFailure>,
    addr: Seq<char>,
    other: Seq<char>,
    then: u64,
    now: u64,
)
    requires
        addr != other,
    ensures
        wait_of(with_failure(failures, addr, then), other, now) == wait_of(failures, other, now),
        wait_of(failures.remove(addr), other, now) == wait_of(failures, other, now),
{
}

// ---------------------------------------------------------------- password
/// The proof that a peer gives of a password, without sending it.
pub open spec fn password_proof(
    password: Seq<char>,
    salt: Seq<char>,
    challenge: Seq<char>,
) -> Seq<u8> {
    sha256(sha256(encode_utf8(password) + encode_utf8(salt)) + encode_utf8(challenge))
}

/// The proof that a peer gives of a password.
pub fn expected_proof(password: &str, salt: &str, challenge: &str) -> (r: Vec<u8>)
    ensures
        r@ == password_proof(password@, salt@, challenge@),
        r@.len() == 32,
{
    let inner: Vec<u8> = sha256_of(password.as_bytes(), salt.as_bytes());
    sha256_of(inner.as_slice(), challenge.as_bytes())
}

/// What to make of the proof in a login request.
#[derive(Debug, Clone, Copy, PartialEq, Eq, Structural)]
pub enum Verdict {
    Authorized,
    /// The user has not typed a password yet.
    Empty,
    Wrong,
}

/// The verdict on a received proof. `expected` is the right one, or `None`
/// where no password is set, and then no proof is right.
pub open spec fn verdict_of(expected: Option<Seq<u8>>, received: Seq<u8>) -> Verdict {
    if expected == Some(received) {
        Verdict::Authorized
    } else if received.len() == 0 {
        Verdict::Empty
    } else {
        Verdict::Wrong
    }
}

/// Whether two byte strings are the same.
pub fn same_bytes(a: &[u8], b: &[u8]) -> (r: bool)
    ensures
        r == (a@ == b@),
{
    if a.len() != b.len() {
        return false;
    }
    let mut i: usize = 0;
    while i < a.len()
        invariant
            a@.len() == b@.len(),
            i <= a@.len(),
            forall|j: int| 0 <= j < i ==> a@[j] == b@[j],
        decreases a@.len() - i,
    {
        if a[i] != b[i] {
            return false;
        }
        i = i + 1;
    }
    assert(a@ =~= b@);
    true
}

/// Judges a received proof by the expected one.
pub fn judge(expected: &Option<Vec<u8>>, received: &[u8]) -> (r: Verdict)
    ensures
        r == verdict_of(
            match *expected {
                Some(e) => Some(e@),
                None => None,
            },
            received@,
        ),
{
    match expected {
        Some(e) => {
            if same_bytes(e.as_slice(), received) {
                return Verdict::Authorized;
            }
        },
        None => {},
    }
    if received.len() == 0 {
        Verdict::Empty
    } else {
        Verdict::Wrong
    }
}

/// The password that counts: the fixed one, or else the temporary one.
pub open spec fn password_in_force(fixed: Seq<char>, current: Seq<char>) -> Seq<char> {
    if fixed.len() > 0 {
        fixed
    } else {
        current
    }
}

/// The right proof, if there is a password.
pub open spec fn proof_in_force(
    fixed: Seq<char>,
    current: Seq<char>,
    salt: Seq<char>,
    challenge: Seq<char>,
) -> Option<Seq<u8>> {
    let password = password_in_force(fixed, current);
    if password.len() > 0 {
        Some(password_proof(password, salt, challenge))
    } else {
        None
    }
}

/// Judges a received proof against the password in force.
pub fn verify_login(fixed: &str, current: &str, salt: &str, challenge: &str, received: &[u8]) -> (r:
    Verdict)
    ensures
        r == verdict_of(proof_in_force(fixed@, current@, salt@, challenge@), received@),
{
    let password: &str = if !fixed.is_empty() {
        fixed
    } else {
        current
    };
    let expected: Option<Vec<u8>> = if !password.is_empty() {
        Some(expected_proof(password, salt, challenge))
    } else {
        None
    };
    judge(&expected, received)
}

/// Without a password nobody gets in.
pub proof fn no_password_no_login(salt: Seq<char>, challenge: Seq<char>, received: Seq<u8>)
    ensures
        verdict_of(
            proof_in_force(Seq::empty(), Seq::empty(), salt, challenge),
            received,
        ) != Verdict::Authorized,
{
}

/// Whoever knows the password in force, and has the salt and the challenge,
/// gets in.
pub proof fn right_password_logs_in(
    fixed: Seq<char>,
    current: Seq<char>,
    salt: Seq<char>,
    challenge: Seq<char>,
)
    requires
        password_in_force(fixed, current).len() > 0,
    ensures
        verdict_of(
            proof_in_force(fixed, current, salt, challenge),
            password_proof(password_in_force(fixed, current), salt, challenge),
        ) == Verdict::Authorized,
{
}

// ---------------------------------------------------------------- challenge
/// What a peer is to hash its password with.
#[derive(Debug, PartialEq, Eq)]
pub struct Challenge {
    /// Lasts, so that what the peer remembers of a login stays good.
    pub salt: String,
    /// New with every connection.
    pub challenge: String,
}

/// Makes the challenge of a connection: the lasting salt, and six random
/// letters and digits.
pub fn new_challenge(registry: &mut RegistryConfig) -> (r: Challenge)
    ensures
        ({
            let stored = old(registry)@.text_or("Salt"@, Seq::empty());
            if stored.len() > 0 {
                &&& r.salt@ == stored
                &&& final(registry)@ == old(registry)@
            } else {
                &&& r.salt@.len() == 12
                &&& forall|i: int| 0 <= i < 12 ==> is_alphanumeric(#[trigger] r.salt@[i])
                &&& final(registry)@ == (if old(registry)@.available {
                    old(registry)@.with("Salt"@, Stored::Text(r.salt@))
                } else {
                    old(registry)@
                })
            }
        }),
        r.challenge@.len() == 6,
        forall|i: int| 0 <= i < 6 ==> is_alphanumeric(#[trigger] r.challenge@[i]),
{
    let salt: String = registry.get_password_salt();
    Challenge { salt, challenge: random_text(6) }
}

} // verus!
