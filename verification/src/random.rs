//! Random choices.

use rand::Rng;
use vstd::prelude::*;

use crate::text::is_alphanumeric;

verus! {

/// `rand::Rng::sample` on the thread's generator, with the `Alphanumeric`
/// distribution: some ASCII letter or digit, whichever comes.
#[verifier::external_body]
fn random_alphanumeric() -> (c: u8)
    ensures
        is_alphanumeric(c as char),
{
    rand::thread_rng().sample(rand::distributions::Alphanumeric)
}

/// `rand::Rng::gen_range` on the thread's generator: some number of the half
/// open range, whichever comes. An empty range would panic.
#[verifier::external_body]
pub(crate) fn random_in_range(low: u64, high: u64) -> (r: u64)
    requires
        low < high,
    ensures
        low <= r < high,
{
    rand::thread_rng().gen_range(low..high)
}

/// `n` random ASCII letters and digits.
pub fn random_text(n: usize) -> (r: String)
    ensures
        r@.len() == n,
        forall|i: int| 0 <= i < n ==> is_alphanumeric(#[trigger] r@[i]),
{
    let mut s: String = String::new();
    let mut i: usize = 0;
    while i < n
        invariant
            i <= n,
            s@.len() == i,
            forall|j: int| 0 <= j < i ==> is_alphanumeric(#[trigger] s@[j]),
        decreases n - i,
    {
        let c: u8 = random_alphanumeric();
        s.push(c as char);
        i = i + 1;
    }
    s
}

} // verus!
