use sos_client::sos_config::RegistryConfig;
use sos_client::sos_input::SECOND;
use sos_client::sos_login::{
    expected_proof, judge, new_challenge, same_bytes, verify_login, LoginFailures, Verdict,
};

fn unhex(s: &str) -> Vec<u8> {
    (0..s.len() / 2)
        .map(|i| u8::from_str_radix(&s[2 * i..2 * i + 2], 16).unwrap())
        .collect()
}

#[test]
fn proof_of_a_password() {
    let proof = expected_proof("mypassword", "saltsaltsalt", "abc123");
    assert_eq!(
        proof,
        unhex("397721d0568a993a840cdd6c2706572a20088b7c71e78e4fb410b44481511336")
    );
    assert_ne!(proof, expected_proof("mypassword", "saltsaltsalt", "abc124"));
    assert_ne!(proof, expected_proof("mypassword", "saltsaltsalu", "abc123"));
    assert_ne!(proof, expected_proof("mypassworc", "saltsaltsalt", "abc123"));
}

#[test]
fn verdicts_on_given_proofs() {
    assert_eq!(judge(&Some(vec![1, 2]), &[1, 2]), Verdict::Authorized);
    assert_eq!(judge(&Some(vec![1, 2]), &[1]), Verdict::Wrong);
    assert_eq!(judge(&Some(vec![1, 2]), &[]), Verdict::Empty);
    assert_eq!(judge(&None, &[1, 2]), Verdict::Wrong);
    assert_eq!(judge(&None, &[]), Verdict::Empty);
    assert!(same_bytes(&[], &[]));
    assert!(!same_bytes(&[1], &[2]));
}

#[test]
fn fixed_password_counts_before_the_temporary_one() {
    let fixed = expected_proof("fixed", "s", "c");
    let temporary = expected_proof("temporary", "s", "c");
    let verdict = |f: &str, t: &str, p: &[u8]| verify_login(f, t, "s", "c", p);
    assert_eq!(verdict("fixed", "temporary", &fixed), Verdict::Authorized);
    assert_eq!(verdict("fixed", "temporary", &temporary), Verdict::Wrong);
    assert_eq!(verdict("", "temporary", &temporary), Verdict::Authorized);
    assert_eq!(verdict("", "temporary", &[]), Verdict::Empty);
}

#[test]
fn nobody_gets_in_without_a_password() {
    let empty = expected_proof("", "s", "c");
    assert_eq!(verify_login("", "", "s", "c", &empty), Verdict::Wrong);
    assert_eq!(verify_login("", "", "s", "c", &[]), Verdict::Empty);
}

#[test]
fn challenge_is_new_and_salt_lasts() {
    let mut registry = RegistryConfig::new(true, true);
    let first = new_challenge(&mut registry);
    let second = new_challenge(&mut registry);
    assert_eq!(first.salt.len(), 12);
    assert_eq!(first.salt, second.salt);
    assert_eq!(first.challenge.len(), 6);
    assert!(first.challenge.chars().all(|c| c.is_ascii_alphanumeric()));
    assert_ne!(first.challenge, second.challenge);
}

#[test]
fn delays_double() {
    let mut f = LoginFailures::new();
    assert_eq!(f.check_login_rate_limit("a", 0), 0);
    for expected in [2, 4, 8, 16, 32, 64, 128, 256, 512, 1024, 1800, 1800] {
        f.record_login_failure("a", 0);
        assert_eq!(f.check_login_rate_limit("a", 0), expected);
    }
    for _ in 0..30 {
        f.record_login_failure("a", 0);
    }
    assert_eq!(f.check_login_rate_limit("a", 0), 1800);
}

#[test]
fn delays_double_over_time() {
    let mut f = LoginFailures::new();
    let mut now = 0;
    for expected in [2, 4, 8, 16, 32] {
        now += 7200 * SECOND;
        f.record_login_failure("a", now);
        f.record_login_failure("b", now);
        f.clear_login_failures("b");
        assert_eq!(f.check_login_rate_limit("a", now), expected);
        assert_eq!(f.check_login_rate_limit("a", now + SECOND), expected - 1);
        assert_eq!(f.check_login_rate_limit("b", now), 0);
    }
}

#[test]
fn delays_run_out() {
    let mut f = LoginFailures::new();
    f.record_login_failure("a", 5 * SECOND);
    f.record_login_failure("a", 5 * SECOND);
    assert_eq!(f.check_login_rate_limit("a", 5 * SECOND), 4);
    assert_eq!(f.check_login_rate_limit("a", 6 * SECOND - 1), 4);
    assert_eq!(f.check_login_rate_limit("a", 8 * SECOND), 1);
    assert_eq!(f.check_login_rate_limit("a", 9 * SECOND), 0);
    assert_eq!(f.check_login_rate_limit("a", 5 * SECOND + 7201 * SECOND), 0);
}

#[test]
fn two_idle_hours_reset_the_count() {
    let mut f = LoginFailures::new();
    for _ in 0..5 {
        f.record_login_failure("a", 0);
    }
    // just within two hours the count goes on
    f.record_login_failure("a", 7201 * SECOND - 1);
    assert_eq!(f.check_login_rate_limit("a", 7201 * SECOND - 1), 64);
    let mut f = LoginFailures::new();
    for _ in 0..5 {
        f.record_login_failure("a", 0);
    }
    f.record_login_failure("a", 7201 * SECOND);
    assert_eq!(f.check_login_rate_limit("a", 7201 * SECOND), 2);
}

#[test]
fn delays_are_for_one_address_and_until_a_login() {
    let mut f = LoginFailures::new();
    f.record_login_failure("a", 0);
    assert_eq!(f.check_login_rate_limit("b", 0), 0);
    f.clear_login_failures("b");
    assert_eq!(f.check_login_rate_limit("a", 0), 2);
    f.clear_login_failures("a");
    assert_eq!(f.check_login_rate_limit("a", 0), 0);
    f.record_login_failure("a", 0);
    assert_eq!(f.check_login_rate_limit("a", 0), 2);
}
