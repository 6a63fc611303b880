use vstd::prelude::*;

use scrypt::password_hash::rand_core::{OsRng, RngCore};
use scrypt::password_hash::{Encoding, PasswordHash, PasswordHasher, PasswordVerifier, SaltString};
use scrypt::{Params, Scrypt};

use crate::errors::{AuthTokenError, AuthTokenErrorKind};

verus! {

/// The PHC string (`$scrypt$ln=..,r=..,p=..$salt$hash`) that scrypt, with its
/// recommended parameters, makes of the password `pwd` and the B64 salt `salt`;
/// `None` where the salt is refused or hashing fails.
pub uninterp spec fn scrypt_phc_hash(pwd: Seq<char>, salt: Seq<char>) -> Option<Seq<char>>;

/// `hash` parses as a PHC string.
pub uninterp spec fn phc_parses(hash: Seq<char>) -> bool;

/// scrypt, run with the parameters and salt that the PHC string `hash` holds, gives
/// for `token` the output that `hash` holds.
pub uninterp spec fn scrypt_phc_accepts(token: Seq<char>, hash: Seq<char>) -> bool;

/// What checking a secret against a stored PHC string gives: `Ok` when it matches,
/// `InvalidFormat` when the stored string does not parse, `NotAuthorized` otherwise.
pub open spec fn phc_verify_outcome(token: Seq<char>, hash: Seq<char>) -> Result<(), AuthTokenError> {
    if !phc_parses(hash) {
        Err(AuthTokenError { kind: AuthTokenErrorKind::InvalidFormat })
    } else if scrypt_phc_accepts(token, hash) {
        Ok(())
    } else {
        Err(AuthTokenError { kind: AuthTokenErrorKind::NotAuthorized })
    }
}

/// Why a stored PHC string refused a secret.
#[derive(Clone, Copy, Debug, PartialEq, Eq, Structural)]
enum PhcRejection {
    Unparsable,
    Mismatch,
}

/// The next 64 random bits of the operating system's generator (`rand_core::OsRng::next_u64`).
/// Nothing is claimed of the value.
#[verifier::external_body]
pub(crate) fn os_random_u64() -> u64 {
    OsRng.next_u64()
}

/// `scrypt::password_hash::SaltString::from_b64` on `salt`, then
/// `Scrypt::hash_password_customized` with `Params::recommended()` and no algorithm or
/// version, and the PHC string of the hash.
/// Claimed: the result is the named `scrypt_phc_hash`; and a PHC string that comes out
/// parses again and verifies `pwd`, since `verify_password` recomputes the hash with the
/// parameters, salt and output length that the string holds.
#[verifier::external_body]
fn scrypt_hash_phc(pwd: &str, salt: &str) -> (r: Option<String>)
    ensures
        r matches Some(h) ==> scrypt_phc_hash(pwd@, salt@) == Some(h@),
        r is None ==> scrypt_phc_hash(pwd@, salt@) is None,
        r matches Some(h) ==> phc_parses(h@) && scrypt_phc_accepts(pwd@, h@),
{
    let salt = SaltString::from_b64(salt).ok()?;
    let secret = Scrypt.hash_password_customized(
        pwd.as_bytes(), None, None, Params::recommended(), salt.as_salt(),
    ).ok()?;
    Some(secret.to_string())
}

/// `scrypt::password_hash::PasswordHash::parse` of `hash` in B64, then
/// `Scrypt::verify_password` of `token` against it.
/// Claimed: the outcome is that of the named `phc_parses` and `scrypt_phc_accepts`.
#[verifier::external_body]
fn scrypt_verify_phc(token: &str, hash: &str) -> (r: Result<(), PhcRejection>)
    ensures
        r matches Err(e) ==> (e == PhcRejection::Unparsable <==> !phc_parses(hash@)),
        r is Ok <==> (phc_parses(hash@) && scrypt_phc_accepts(token@, hash@)),
{
    let parsed = match PasswordHash::parse(hash, Encoding::B64) {
        Ok(p) => p,
        Err(_) => return Err(PhcRejection::Unparsable),
    };
    match Scrypt.verify_password(token.as_bytes(), &parsed) {
        Ok(()) => Ok(()),
        Err(_) => Err(PhcRejection::Mismatch),
    }
}

/// A fresh random salt: `SaltString::generate(OsRng)`, 16 random bytes in B64.
/// Claimed: 16 bytes take 22 characters in unpadded B64, as the crate's documentation of
/// `Salt::RECOMMENDED_LENGTH` says; and scrypt with its recommended parameters hashes every
/// password with such a salt, since the salt is valid B64 of an accepted length and
/// `hash_password_customized` fails only on the algorithm, the version, the salt or the
/// output length. The characters themselves are random.
#[verifier::external_body]
pub fn default_rng_salt_fn() -> (r: String)
    ensures
        r@.len() == 22,
        forall|p: Seq<char>| #[trigger] scrypt_phc_hash(p, r@) is Some,
{
    SaltString::generate(OsRng).to_string()
}

/// Hashes the secret `pwd` with the salt `salt` into the PHC string that is stored in
/// place of the secret. Fails with `Create` where scrypt refuses the salt or fails.
/// A hash that comes out verifies `pwd` under `default_verify_token_fn`.
pub fn default_hash_fn(pwd: &str, salt: &str) -> (r: Result<String, AuthTokenError>)
    ensures
        r matches Ok(h) ==> scrypt_phc_hash(pwd@, salt@) == Some(h@),
        r matches Err(e) ==> scrypt_phc_hash(pwd@, salt@) is None && e.kind == AuthTokenErrorKind::Create,
        r matches Ok(h) ==> phc_verify_outcome(pwd@, h@) == Ok::<(), AuthTokenError>(()),
{
    match scrypt_hash_phc(pwd, salt) {
        Some(secret) => Ok(secret),
        None => Err(AuthTokenError::new(AuthTokenErrorKind::Create)),
    }
}

/// Checks the secret `token` against the stored PHC string `hash`.
pub fn default_verify_token_fn(token: &str, hash: &str) -> (r: Result<(), AuthTokenError>)
    ensures
        r == phc_verify_outcome(token@, hash@),
{
    match scrypt_verify_phc(token, hash) {
        Ok(()) => Ok(()),
        Err(PhcRejection::Unparsable) => Err(AuthTokenError::new(AuthTokenErrorKind::InvalidFormat)),
        Err(PhcRejection::Mismatch) => Err(AuthTokenError::new(AuthTokenErrorKind::NotAuthorized)),
    }
}

/// The ASCII digit for `d`.
pub open spec fn digit_char(d: int) -> char {
    (48 + d) as char
}

/// The decimal digits of `n`, most significant first, with no leading zero.
pub open spec fn decimal(n: nat) -> Seq<char>
    decreases n,
{
    if n < 10 {
        seq![digit_char(n as int)]
    } else {
        decimal(n / 10).push(digit_char((n % 10) as int))
    }
}

/// A decimal representation has at least one digit, and two when the number is ten or more.
pub proof fn lemma_decimal_len(n: nat)
    ensures
        decimal(n).len() >= 1,
        n >= 10 ==> decimal(n).len() >= 2,
    decreases n,
{
    if n >= 10 {
        lemma_decimal_len(n / 10);
    }
}

/// Every character of a decimal representation is a digit, and it starts with `0` only
/// when it is the number zero.
pub proof fn lemma_decimal_digits(n: nat)
    ensures
        forall|i: int| 0 <= i < decimal(n).len() ==> '0' <= #[trigger] decimal(n)[i] <= '9',
        decimal(n)[0] == '0' ==> n == 0,
    decreases n,
{
    lemma_decimal_len(n);
    if n >= 10 {
        lemma_decimal_digits(n / 10);
        lemma_decimal_len(n / 10);
        assert(decimal(n)[0] == decimal(n / 10)[0]);
    }
}

/// Distinct numbers have distinct decimal representations, so distinct random halves make
/// distinct tokens.
pub proof fn lemma_decimal_injective(a: nat, b: nat)
    requires
        decimal(a) == decimal(b),
    ensures
        a == b,
    decreases a,
{
    lemma_decimal_len(a);
    lemma_decimal_len(b);
    if a < 10 && b < 10 {
        assert(decimal(a)[0] == digit_char(a as int));
        assert(decimal(b)[0] == digit_char(b as int));
    } else if a >= 10 && b >= 10 {
        let da = decimal(a);
        assert(da.last() == digit_char((a % 10) as int));
        assert(decimal(b).last() == digit_char((b % 10) as int));
        assert(da.drop_last() == decimal(a / 10));
        assert(decimal(b).drop_last() == decimal(b / 10));
        lemma_decimal_injective(a / 10, b / 10);
    }
}

/// Tokens made of distinct pairs of halves are distinct.
pub proof fn lemma_halves_token_injective(l1: u64, r1: u64, l2: u64, r2: u64)
    requires
        halves_token(l1, r1) == halves_token(l2, r2),
    ensures
        l1 == l2 && r1 == r2,
{
    lemma_decimal_injective(
        (l1 as nat) * 0x1_0000_0000_0000_0000 + r1 as nat,
        (l2 as nat) * 0x1_0000_0000_0000_0000 + r2 as nat,
    );
}

fn digit_str(d: u8) -> (r: &'static str)
    requires
        d < 10,
    ensures
        r@ == seq![digit_char(d as int)],
{
    proof {
        reveal_strlit("0");
        reveal_strlit("1");
        reveal_strlit("2");
        reveal_strlit("3");
        reveal_strlit("4");
        reveal_strlit("5");
        reveal_strlit("6");
        reveal_strlit("7");
        reveal_strlit("8");
        reveal_strlit("9");
    }
    match d {
        0 => "0",
        1 => "1",
        2 => "2",
        3 => "3",
        4 => "4",
        5 => "5",
        6 => "6",
        7 => "7",
        8 => "8",
        _ => "9",
    }
}

/// The decimal representation of `n`.
pub fn u128_to_decimal(n: u128) -> (r: String)
    ensures
        r@ == decimal(n as nat),
    decreases n,
{
    if n < 10 {
        digit_str(n as u8).to_owned()
    } else {
        let mut s = u128_to_decimal(n / 10);
        let d = digit_str((n % 10) as u8);
        s.append(d);
        s
    }
}

/// The digits of the token made of the 64-bit halves `left` (high) and `right` (low).
pub open spec fn halves_token(left: u64, right: u64) -> Seq<char> {
    decimal((left as nat) * 0x1_0000_0000_0000_0000 + right as nat)
}

/// The token made of two random 64-bit halves: the decimal digits of the 128-bit number
/// whose high half is `left` and whose low half is `right`.
pub fn token_from_halves(left: u64, right: u64) -> (r: String)
    ensures
        r@ == halves_token(left, right),
{
    let high: u128 = (left as u128) << 64u128;
    assert(high == (left as u128) * 0x1_0000_0000_0000_0000) by (bit_vector)
        requires
            high == (left as u128) << 64u128,
    ;
    u128_to_decimal(high + right as u128)
}

/// A fresh random token: the decimal digits of 128 random bits.
pub fn default_rng_token_fn() -> (r: String)
    ensures
        exists|left: u64, right: u64| r@ == #[trigger] halves_token(left, right),
{
    let left = os_random_u64();
    let right = os_random_u64();
    token_from_halves(left, right)
}

/// The outcome of a hash as plain values.
pub open spec fn string_result(r: Result<String, AuthTokenError>) -> Result<Seq<char>, AuthTokenError> {
    match r {
        Ok(h) => Ok(h@),
        Err(e) => Err(e),
    }
}

/// What scrypt hashing of `secret` with `salt` gives: the PHC string, or `Create`.
pub open spec fn scrypt_hash_outcome(secret: Seq<char>, salt: Seq<char>) -> Result<Seq<char>, AuthTokenError> {
    match scrypt_phc_hash(secret, salt) {
        Some(h) => Ok(h),
        None => Err(AuthTokenError { kind: AuthTokenErrorKind::Create }),
    }
}

/// The four operations on secrets that the managers are configured with: making a salt,
/// making a token, hashing a secret with a salt, and checking a secret against a hash.
/// Each comes with a predicate on its outcome, which an implementation may define to say
/// what it promises; by default nothing is promised.
pub trait SecretFns {
    /// `salt` may give the salt `s`.
    open spec fn makes_salt(&self, s: Seq<char>) -> bool {
        true
    }

    /// `token` may give the token `t`.
    open spec fn makes_token(&self, t: Seq<char>) -> bool {
        true
    }

    /// Hashing `secret` with `salt` may give `r`.
    open spec fn hashes(&self, secret: Seq<char>, salt: Seq<char>, r: Result<Seq<char>, AuthTokenError>) -> bool {
        true
    }

    /// Checking `secret` against `hash` may give `r`.
    open spec fn verifies(&self, secret: Seq<char>, hash: Seq<char>, r: Result<(), AuthTokenError>) -> bool {
        true
    }

    fn salt(&self) -> (r: String)
        ensures
            self.makes_salt(r@),
    ;

    fn token(&self) -> (r: String)
        ensures
            self.makes_token(r@),
    ;

    fn hash(&self, secret: &str, salt: &str) -> (r: Result<String, AuthTokenError>)
        ensures
            self.hashes(secret@, salt@, string_result(r)),
    ;

    fn verify(&self, secret: &str, hash: &str) -> (r: Result<(), AuthTokenError>)
        ensures
            self.verifies(secret@, hash@, r),
    ;
}

/// A secret that the default operations hashed passes their check against that hash.
pub proof fn lemma_default_hash_then_verify(secret: Seq<char>, salt: Seq<char>, h: Seq<char>)
    requires
        (DefaultSecretFns {}).hashes(secret, salt, Ok(h)),
    ensures
        (DefaultSecretFns {}).verifies(secret, h, Ok(())),
{
}

/// Hashing with a salt that the default operations made succeeds, and the secret passes
/// their check against the hash that comes out.
pub proof fn lemma_fresh_salt_hash_then_verify(secret: Seq<char>, salt: Seq<char>, r: Result<Seq<char>, AuthTokenError>)
    requires
        (DefaultSecretFns {}).makes_salt(salt),
        (DefaultSecretFns {}).hashes(secret, salt, r),
    ensures
        r matches Ok(h) && (DefaultSecretFns {}).verifies(secret, h, Ok(())),
{
    assert(scrypt_phc_hash(secret, salt) is Some);
}

/// Random salts and tokens, and scrypt hashes stored as PHC strings.
#[derive(Clone, Copy, Debug)]
pub struct DefaultSecretFns {}

impl SecretFns for DefaultSecretFns {
    open spec fn makes_salt(&self, s: Seq<char>) -> bool {
        &&& s.len() == 22
        &&& forall|p: Seq<char>| #[trigger] scrypt_phc_hash(p, s) is Some
    }

    open spec fn makes_token(&self, t: Seq<char>) -> bool {
        exists|left: u64, right: u64| t == #[trigger] halves_token(left, right)
    }

    open spec fn hashes(&self, secret: Seq<char>, salt: Seq<char>, r: Result<Seq<char>, AuthTokenError>) -> bool {
        &&& r == scrypt_hash_outcome(secret, salt)
        &&& r matches Ok(h) ==> phc_verify_outcome(secret, h) == Ok::<(), AuthTokenError>(())
    }

    open spec fn verifies(&self, secret: Seq<char>, hash: Seq<char>, r: Result<(), AuthTokenError>) -> bool {
        r == phc_verify_outcome(secret, hash)
    }

    fn salt(&self) -> (r: String)
        ensures
            r@.len() == 22,
            forall|p: Seq<char>| #[trigger] scrypt_phc_hash(p, r@) is Some,
    {
        default_rng_salt_fn()
    }

    fn token(&self) -> (r: String)
        ensures
            exists|left: u64, right: u64| r@ == #[trigger] halves_token(left, right),
    {
        default_rng_token_fn()
    }

    fn hash(&self, secret: &str, salt: &str) -> (r: Result<String, AuthTokenError>)
        ensures
            r matches Ok(h) ==> scrypt_phc_hash(secret@, salt@) == Some(h@),
            r matches Err(e) ==> scrypt_phc_hash(secret@, salt@) is None && e.kind == AuthTokenErrorKind::Create,
            r matches Ok(h) ==> phc_verify_outcome(secret@, h@) == Ok::<(), AuthTokenError>(()),
    {
        default_hash_fn(secret, salt)
    }

    fn verify(&self, secret: &str, hash: &str) -> (r: Result<(), AuthTokenError>)
        ensures
            r == phc_verify_outcome(secret@, hash@),
    {
        default_verify_token_fn(secret, hash)
    }
}

/// Empty salts, tokens and hashes, and every secret accepted: for setups that
/// authenticate each connection and store no token.
#[derive(Clone, Copy, Debug)]
pub struct StatelessSecretFns {}

impl SecretFns for StatelessSecretFns {
    open spec fn makes_salt(&self, s: Seq<char>) -> bool {
        s == Seq::<char>::empty()
    }

    open spec fn makes_token(&self, t: Seq<char>) -> bool {
        t == Seq::<char>::empty()
    }

    open spec fn hashes(&self, secret: Seq<char>, salt: Seq<char>, r: Result<Seq<char>, AuthTokenError>) -> bool {
        r == Ok::<Seq<char>, AuthTokenError>(Seq::<char>::empty())
    }

    open spec fn verifies(&self, secret: Seq<char>, hash: Seq<char>, r: Result<(), AuthTokenError>) -> bool {
        r is Ok
    }

    fn salt(&self) -> (r: String)
        ensures
            r@ == Seq::<char>::empty(),
    {
        String::new()
    }

    fn token(&self) -> (r: String)
        ensures
            r@ == Seq::<char>::empty(),
    {
        String::new()
    }

    fn hash(&self, secret: &str, salt: &str) -> (r: Result<String, AuthTokenError>)
        ensures
            r matches Ok(h) && h@ == Seq::<char>::empty(),
    {
        Ok(String::new())
    }

    fn verify(&self, secret: &str, hash: &str) -> (r: Result<(), AuthTokenError>)
        ensures
            r is Ok,
    {
        Ok(())
    }
}

} // verus!
