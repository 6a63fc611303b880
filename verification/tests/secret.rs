use sheesh::secret::{token_from_halves, u128_to_decimal, DefaultSecretFns, SecretFns, StatelessSecretFns};
use sheesh::{default_hash_fn, default_rng_salt_fn, default_rng_token_fn, default_verify_token_fn, AuthTokenErrorKind};

#[test]
fn hash_with_invalid_salt_fails_with_create() {
    let err = default_hash_fn("secret", "ab").unwrap_err();
    assert_eq!(err.kind, AuthTokenErrorKind::Create);
    let err = default_hash_fn("secret", "not a salt!").unwrap_err();
    assert_eq!(err.kind, AuthTokenErrorKind::Create);
}

#[test]
fn verify_against_garbage_fails_with_invalid_format() {
    let err = default_verify_token_fn("secret", "this is not a phc string").unwrap_err();
    assert_eq!(err.kind, AuthTokenErrorKind::InvalidFormat);
}

#[test]
fn salts_are_22_characters_and_differ() {
    let a = default_rng_salt_fn();
    let b = default_rng_salt_fn();
    assert_eq!(a.len(), 22);
    assert_eq!(b.len(), 22);
    assert_ne!(a, b);
}

#[test]
fn tokens_are_decimal_and_differ() {
    let a = default_rng_token_fn();
    let b = default_rng_token_fn();
    assert!(!a.is_empty());
    assert!(a.chars().all(|c| c.is_ascii_digit()));
    assert!(a == "0" || !a.starts_with('0'));
    assert_ne!(a, b);
    assert!(a.parse::<u128>().is_ok());
}

#[test]
fn token_from_halves_exact_values() {
    assert_eq!(token_from_halves(0, 0), "0");
    assert_eq!(token_from_halves(0, 7), "7");
    assert_eq!(token_from_halves(1, 0), "18446744073709551616");
    assert_eq!(token_from_halves(1, 5), "18446744073709551621");
    assert_eq!(token_from_halves(u64::MAX, u64::MAX), u128::MAX.to_string());
}

#[test]
fn u128_to_decimal_exact_values() {
    assert_eq!(u128_to_decimal(0), "0");
    assert_eq!(u128_to_decimal(9), "9");
    assert_eq!(u128_to_decimal(10), "10");
    assert_eq!(u128_to_decimal(1234567890), "1234567890");
    assert_eq!(u128_to_decimal(u128::MAX), "340282366920938463463374607431768211455");
}

#[test]
fn stateless_secret_fns_are_empty_and_accept_everything() {
    let f = StatelessSecretFns {};
    assert_eq!(f.salt(), "");
    assert_eq!(f.token(), "");
    assert_eq!(f.hash("pwd", "salt").unwrap(), "");
    assert!(f.verify("anything", "whatever").is_ok());
}


/// scrypt with ln=4, r=8, p=1 of "secret" under the salt "c2FsdHNhbHRzYWx0", as a PHC string.
const CHEAP_PHC: &str = "$scrypt$ln=4,r=8,p=1$c2FsdHNhbHRzYWx0$09/untC+3Bg44eiJQ8bqhTXgE2ali+ykLaojkJZlF9U";

#[test]
fn verify_accepts_the_hashed_secret() {
    assert!(default_verify_token_fn("secret", CHEAP_PHC).is_ok());
}

#[test]
fn verify_refuses_another_secret() {
    let err = default_verify_token_fn("not the secret", CHEAP_PHC).unwrap_err();
    assert_eq!(err.kind, AuthTokenErrorKind::NotAuthorized);
}

#[test]
fn default_secret_fns_verify_uses_scrypt() {
    let f = DefaultSecretFns {};
    assert!(f.verify("secret", CHEAP_PHC).is_ok());
    assert_eq!(f.verify("wrong", CHEAP_PHC).unwrap_err().kind, AuthTokenErrorKind::NotAuthorized);
    assert_eq!(f.verify("secret", "garbage").unwrap_err().kind, AuthTokenErrorKind::InvalidFormat);
    assert_eq!(f.salt().len(), 22);
    assert!(f.token().chars().all(|c| c.is_ascii_digit()));
}

#[test]
fn hash_with_undecodable_salt_fails_with_create() {
    // Passes the salt's character and length checks, but is not valid B64.
    let err = default_hash_fn("secret", "abcde").unwrap_err();
    assert_eq!(err.kind, AuthTokenErrorKind::Create);
}
