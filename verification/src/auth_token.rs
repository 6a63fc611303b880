use vstd::prelude::*;

use crate::errors::{AuthError, AuthTokenError, AuthTokenErrorKind};
use crate::harness::{DbHarnessToken, HarnessError};
use crate::id::{id_bits, signed_id, DefaultIdGenerator, IdGenerator, ZerodIdGenerator};
use crate::secret::{string_result, DefaultSecretFns, SecretFns, StatelessSecretFns};
use crate::time::{
    clock_reading, expiration_spec, expiration_from, instant_after, ttl_in_range, utc_now, valid_instant, Instant, UtcDateTime,
};

verus! {

/// Minutes an access token lives unless configured otherwise.
pub const DEFAULT_ACCESS_TTL: i64 = 30;

/// Minutes a refresh token lives unless configured otherwise.
pub const DEFAULT_REFRESH_TTL: i64 = 60;

#[derive(Clone, Copy, Debug, PartialEq, Eq, Structural)]
pub enum TokenType {
    Refresh,
    Access,
}

/// A freshly made token secret, before it is handed out as an access or a refresh token.
pub struct TokenSecret(String);

impl View for TokenSecret {
    type V = Seq<char>;

    closed spec fn view(&self) -> Seq<char> {
        self.0@
    }
}

/// The secret of an access token.
#[derive(Debug)]
pub struct AccessTokenSecret(String);

impl View for AccessTokenSecret {
    type V = Seq<char>;

    closed spec fn view(&self) -> Seq<char> {
        self.0@
    }
}

impl AccessTokenSecret {
    pub fn secret(&self) -> (r: &str)
        ensures
            r@ == self@,
    {
        self.0.as_str()
    }
}

impl From<TokenSecret> for AccessTokenSecret {
    fn from(value: TokenSecret) -> (r: Self)
        ensures
            r@ == value@,
    {
        Self(value.0)
    }
}

impl vstd::std_specs::convert::FromSpecImpl<TokenSecret> for AccessTokenSecret {
    open spec fn obeys_from_spec() -> bool {
        true
    }

    closed spec fn from_spec(v: TokenSecret) -> Self {
        AccessTokenSecret(v.0)
    }
}

/// The secret of a refresh token.
#[derive(Debug)]
pub struct RefreshTokenSecret(String);

impl View for RefreshTokenSecret {
    type V = Seq<char>;

    closed spec fn view(&self) -> Seq<char> {
        self.0@
    }
}

impl RefreshTokenSecret {
    pub fn secret(&self) -> (r: &str)
        ensures
            r@ == self@,
    {
        self.0.as_str()
    }
}

impl From<TokenSecret> for RefreshTokenSecret {
    fn from(value: TokenSecret) -> (r: Self)
        ensures
            r@ == value@,
    {
        Self(value.0)
    }
}

impl vstd::std_specs::convert::FromSpecImpl<TokenSecret> for RefreshTokenSecret {
    open spec fn obeys_from_spec() -> bool {
        true
    }

    closed spec fn from_spec(v: TokenSecret) -> Self {
        RefreshTokenSecret(v.0)
    }
}

/// An access token as handed to a client.
#[derive(Debug)]
pub struct AccessToken(pub AccessTokenSecret);

impl View for AccessToken {
    type V = Seq<char>;

    open spec fn view(&self) -> Seq<char> {
        self.0@
    }
}

impl AccessToken {
    pub fn as_str(&self) -> (r: &str)
        ensures
            r@ == self@,
    {
        self.0.secret()
    }
}

impl PartialEq for AccessToken {
    fn eq(&self, other: &Self) -> (r: bool) {
        self.0.0 == other.0.0
    }
}

impl vstd::std_specs::cmp::PartialEqSpecImpl for AccessToken {
    open spec fn obeys_eq_spec() -> bool {
        true
    }

    open spec fn eq_spec(&self, other: &Self) -> bool {
        self@ == other@
    }
}

/// A refresh token as handed to a client.
#[derive(Debug)]
pub struct RefreshToken(pub RefreshTokenSecret);

impl View for RefreshToken {
    type V = Seq<char>;

    open spec fn view(&self) -> Seq<char> {
        self.0@
    }
}

impl RefreshToken {
    pub fn as_str(&self) -> (r: &str)
        ensures
            r@ == self@,
    {
        self.0.secret()
    }
}

impl PartialEq for RefreshToken {
    fn eq(&self, other: &Self) -> (r: bool) {
        self.0.0 == other.0.0
    }
}

impl vstd::std_specs::cmp::PartialEqSpecImpl for RefreshToken {
    open spec fn obeys_eq_spec() -> bool {
        true
    }

    open spec fn eq_spec(&self, other: &Self) -> bool {
        self@ == other@
    }
}

/// Hands a fresh secret out as an access token.
pub fn access_token_of(secret: TokenSecret) -> (r: AccessToken)
    ensures
        r@ == secret@,
{
    AccessToken(AccessTokenSecret(secret.0))
}

/// Hands a fresh secret out as a refresh token.
pub fn refresh_token_of(secret: TokenSecret) -> (r: RefreshToken)
    ensures
        r@ == secret@,
{
    RefreshToken(RefreshTokenSecret(secret.0))
}

/// What a stored token holds, as plain values.
pub struct AuthTokenView {
    pub id: i64,
    pub session_id: i64,
    pub token_type: TokenType,
    pub salted_hash: Seq<char>,
    pub expires: Instant,
}

/// A stored token: its identifier, its session, its kind, the salted hash of its secret
/// and when it expires.
#[derive(Clone, Debug)]
pub struct AuthToken {
    id: i64,
    session_id: i64,
    token_type: TokenType,
    salted_hash: String,
    expires: UtcDateTime,
}

impl View for AuthToken {
    type V = AuthTokenView;

    closed spec fn view(&self) -> AuthTokenView {
        AuthTokenView {
            id: self.id,
            session_id: self.session_id,
            token_type: self.token_type,
            salted_hash: self.salted_hash@,
            expires: self.expires@,
        }
    }
}

/// A made token as plain values.
pub open spec fn made_view(r: Result<AuthToken, AuthTokenError>) -> Result<AuthTokenView, AuthTokenError> {
    match r {
        Ok(t) => Ok(t@),
        Err(e) => Err(e),
    }
}

/// What making a token of kind `token_type` with a time to live of `ttl` minutes gives when
/// counted from `now`: the token, or `DateTime` where its expiration is not representable.
pub open spec fn token_made_at(
    id: i64,
    session_id: i64,
    salted_hash: Seq<char>,
    token_type: TokenType,
    ttl: int,
    now: Instant,
    made: Result<AuthTokenView, AuthTokenError>,
) -> bool {
    match expiration_spec(now, ttl) {
        Some(expires) => made == Ok::<AuthTokenView, AuthTokenError>(
            AuthTokenView { id, session_id, token_type, salted_hash, expires },
        ),
        None => made == Err::<AuthTokenView, AuthTokenError>(AuthTokenError { kind: AuthTokenErrorKind::DateTime }),
    }
}

impl AuthToken {
    /// A token of kind `token_type` that expires `ttl` minutes after `now`, as
    /// `expiration_from` counts them; fails with `DateTime` where that is not representable.
    pub fn expiring(
        id: i64,
        session_id: i64,
        salted_hash: String,
        token_type: TokenType,
        ttl: i64,
        now: &UtcDateTime,
    ) -> (r: Result<Self, AuthTokenError>)
        requires
            ttl_in_range(ttl as int),
        ensures
            r is Ok <==> expiration_spec(now@, ttl as int) is Some,
            r matches Ok(t) ==> t@.id == id && t@.session_id == session_id && t@.token_type == token_type
                && t@.salted_hash == salted_hash@ && Some(t@.expires) == expiration_spec(now@, ttl as int),
            r matches Err(e) ==> e.kind == AuthTokenErrorKind::DateTime,
            token_made_at(id, session_id, salted_hash@, token_type, ttl as int, now@, made_view(r)),
    {
        match expiration_from(now, ttl) {
            Ok(expires) => Ok(AuthToken { id, session_id, token_type, salted_hash, expires }),
            Err(e) => Err(e),
        }
    }

    /// An access token that expires `ttl` minutes after the current time.
    pub fn new_access(id: i64, session_id: i64, salted_hash: String, ttl: i64) -> (r: Result<Self, AuthTokenError>)
        requires
            ttl_in_range(ttl as int),
        ensures
            r matches Ok(t) ==> t@.id == id && t@.session_id == session_id && t@.token_type == TokenType::Access
                && t@.salted_hash == salted_hash@ && exists|now: Instant| expiration_spec(now, ttl as int) == Some(t@.expires),
            r matches Err(e) ==> e.kind == AuthTokenErrorKind::DateTime,
            exists|now: Instant| valid_instant(now) && clock_reading(now)
                && #[trigger] token_made_at(id, session_id, salted_hash@, TokenType::Access, ttl as int, now, made_view(r)),
    {
        let now = utc_now();
        Self::expiring(id, session_id, salted_hash, TokenType::Access, ttl, &now)
    }

    /// A refresh token that expires `ttl` minutes after the current time.
    pub fn new_refresh(id: i64, session_id: i64, salted_hash: String, ttl: i64) -> (r: Result<Self, AuthTokenError>)
        requires
            ttl_in_range(ttl as int),
        ensures
            r matches Ok(t) ==> t@.id == id && t@.session_id == session_id && t@.token_type == TokenType::Refresh
                && t@.salted_hash == salted_hash@ && exists|now: Instant| expiration_spec(now, ttl as int) == Some(t@.expires),
            r matches Err(e) ==> e.kind == AuthTokenErrorKind::DateTime,
            exists|now: Instant| valid_instant(now) && clock_reading(now)
                && #[trigger] token_made_at(id, session_id, salted_hash@, TokenType::Refresh, ttl as int, now, made_view(r)),
    {
        let now = utc_now();
        Self::expiring(id, session_id, salted_hash, TokenType::Refresh, ttl, &now)
    }

    pub fn from_values(
        id: i64,
        session_id: i64,
        salted_hash: String,
        token_type: TokenType,
        expires: UtcDateTime,
    ) -> (r: Self)
        ensures
            r@.id == id,
            r@.session_id == session_id,
            r@.salted_hash == salted_hash@,
            r@.token_type == token_type,
            r@.expires == expires@,
    {
        Self { id, session_id, salted_hash, token_type, expires }
    }

    pub fn id(&self) -> (r: i64)
        ensures
            r == self@.id,
    {
        self.id
    }

    pub fn session_id(&self) -> (r: i64)
        ensures
            r == self@.session_id,
    {
        self.session_id
    }

    /// Whether the token has expired at `now`: `now` is strictly after its expiration.
    pub fn is_expired_at(&self, now: &UtcDateTime) -> (r: bool)
        ensures
            r == instant_after(now@, self@.expires),
    {
        now.is_after(&self.expires)
    }

    /// Whether the token has expired at the current time, read from the system clock; the
    /// comparison itself is `is_expired_at`.
    pub fn is_expired(&self) -> (r: bool)
        ensures
            exists|now: Instant| valid_instant(now) && now.nanos < 1_000_000_000 && clock_reading(now)
                && r == #[trigger] instant_after(now, self@.expires),
    {
        let now = utc_now();
        self.is_expired_at(&now)
    }

    pub fn expires(&self) -> (r: UtcDateTime)
        ensures
            r@ == self@.expires,
    {
        self.expires
    }

    pub fn salted_hash(&self) -> (r: &str)
        ensures
            r@ == self@.salted_hash,
    {
        self.salted_hash.as_str()
    }

    pub fn token_type(&self) -> (r: TokenType)
        ensures
            r == self@.token_type,
    {
        self.token_type
    }
}

/// The settings a token manager is made from: the time to live of each kind of token,
/// the identifier generator and the operations on secrets.
pub struct AuthTokenManagerConfig<T, S> where T: IdGenerator, S: SecretFns {
    access_ttl: i64,
    refresh_ttl: i64,
    id_generator: T,
    secret_fns: S,
}

impl<T, S> AuthTokenManagerConfig<T, S> where T: IdGenerator, S: SecretFns {
    pub closed spec fn spec_access_ttl(&self) -> i64 {
        self.access_ttl
    }

    pub closed spec fn spec_refresh_ttl(&self) -> i64 {
        self.refresh_ttl
    }

    pub closed spec fn spec_id_generator(&self) -> T {
        self.id_generator
    }

    pub closed spec fn spec_secret_fns(&self) -> S {
        self.secret_fns
    }

    /// Both times to live can be turned into durations.
    pub open spec fn ttls_in_range(&self) -> bool {
        ttl_in_range(self.spec_access_ttl() as int) && ttl_in_range(self.spec_refresh_ttl() as int)
    }

    /// Settings with the default times to live.
    pub fn new(id_generator: T, secret_fns: S) -> (r: Self)
        ensures
            r.spec_access_ttl() == DEFAULT_ACCESS_TTL,
            r.spec_refresh_ttl() == DEFAULT_REFRESH_TTL,
            r.spec_id_generator() == id_generator,
            r.spec_secret_fns() == secret_fns,
    {
        Self { access_ttl: DEFAULT_ACCESS_TTL, refresh_ttl: DEFAULT_REFRESH_TTL, id_generator, secret_fns }
    }

    pub fn set_access_ttl(&mut self, new_ttl: i64)
        ensures
            final(self).spec_access_ttl() == new_ttl,
            final(self).spec_refresh_ttl() == old(self).spec_refresh_ttl(),
            final(self).spec_id_generator() == old(self).spec_id_generator(),
            final(self).spec_secret_fns() == old(self).spec_secret_fns(),
    {
        self.access_ttl = new_ttl;
    }

    pub fn set_refresh_ttl(&mut self, new_ttl: i64)
        ensures
            final(self).spec_refresh_ttl() == new_ttl,
            final(self).spec_access_ttl() == old(self).spec_access_ttl(),
            final(self).spec_id_generator() == old(self).spec_id_generator(),
            final(self).spec_secret_fns() == old(self).spec_secret_fns(),
    {
        self.refresh_ttl = new_ttl;
    }
}

impl AuthTokenManagerConfig<DefaultIdGenerator, DefaultSecretFns> {
    /// Random identifiers, random secrets hashed with scrypt, and the default times to live.
    pub fn default() -> (r: Self)
        ensures
            r.spec_access_ttl() == DEFAULT_ACCESS_TTL,
            r.spec_refresh_ttl() == DEFAULT_REFRESH_TTL,
            r.spec_id_generator() == (DefaultIdGenerator {}),
            r.spec_secret_fns() == (DefaultSecretFns {}),
    {
        Self::new(DefaultIdGenerator {}, DefaultSecretFns {})
    }
}

impl AuthTokenManagerConfig<ZerodIdGenerator, StatelessSecretFns> {
    /// Zero identifiers, empty secrets that every check accepts, and the default times to live.
    pub fn new_stateless() -> (r: Self)
        ensures
            r.spec_access_ttl() == DEFAULT_ACCESS_TTL,
            r.spec_refresh_ttl() == DEFAULT_REFRESH_TTL,
            r.spec_id_generator() == (ZerodIdGenerator {}),
            r.spec_secret_fns() == (StatelessSecretFns {}),
    {
        Self::new(ZerodIdGenerator {}, StatelessSecretFns {})
    }
}

impl<T, S> AuthTokenManagerConfig<T, S> where T: IdGenerator + Copy, S: SecretFns + Copy {
    /// A token manager with these settings over the token store `harness`.
    pub fn init<V: DbHarnessToken>(&self, harness: V) -> (r: AuthTokenManager<T, V, S>)
        ensures
            r.spec_access_ttl() == self.spec_access_ttl(),
            r.spec_refresh_ttl() == self.spec_refresh_ttl(),
            r.spec_id_generator() == self.spec_id_generator(),
            r.spec_secret_fns() == self.spec_secret_fns(),
            r.spec_harness() == harness,
    {
        AuthTokenManager {
            access_ttl: self.access_ttl,
            refresh_ttl: self.refresh_ttl,
            id_generator: self.id_generator,
            harness,
            secret_fns: self.secret_fns,
        }
    }
}

/// What a stored token lookup gives: the token, `NotAuthorized` when none is stored, or
/// the storage failure.
pub open spec fn token_lookup_spec(read: Result<Option<AuthToken>, HarnessError>) -> Result<AuthToken, AuthError> {
    match read {
        Ok(Some(t)) => Ok(t),
        Ok(None) => Err(AuthError::Token(AuthTokenError { kind: AuthTokenErrorKind::NotAuthorized })),
        Err(e) => Err(AuthError::Harness(e)),
    }
}

/// Turns the result of reading a stored token into the token to check, or the error.
pub fn token_lookup(read: Result<Option<AuthToken>, HarnessError>) -> (r: Result<AuthToken, AuthError>)
    ensures
        r == token_lookup_spec(read),
{
    match read {
        Ok(Some(t)) => Ok(t),
        Ok(None) => Err(AuthError::Token(AuthTokenError::new(AuthTokenErrorKind::NotAuthorized))),
        Err(e) => Err(AuthError::Harness(e)),
    }
}

/// Makes, stores and checks the tokens of sessions.
pub struct AuthTokenManager<T, V, S> where T: IdGenerator, V: DbHarnessToken, S: SecretFns {
    refresh_ttl: i64,
    access_ttl: i64,
    id_generator: T,
    secret_fns: S,
    harness: V,
}

impl<T, V, S> AuthTokenManager<T, V, S> where T: IdGenerator, V: DbHarnessToken, S: SecretFns {
    pub closed spec fn spec_access_ttl(&self) -> i64 {
        self.access_ttl
    }

    pub closed spec fn spec_refresh_ttl(&self) -> i64 {
        self.refresh_ttl
    }

    pub closed spec fn spec_id_generator(&self) -> T {
        self.id_generator
    }

    pub closed spec fn spec_secret_fns(&self) -> S {
        self.secret_fns
    }

    pub closed spec fn spec_harness(&self) -> V {
        self.harness
    }

    /// Both times to live can be turned into durations.
    pub open spec fn ttls_in_range(&self) -> bool {
        ttl_in_range(self.spec_access_ttl() as int) && ttl_in_range(self.spec_refresh_ttl() as int)
    }

    /// The time to live of tokens of kind `token_type`.
    pub open spec fn ttl_of(&self, token_type: TokenType) -> i64 {
        match token_type {
            TokenType::Access => self.spec_access_ttl(),
            TokenType::Refresh => self.spec_refresh_ttl(),
        }
    }

    /// How issuing a token of kind `token_type` for the session `session_id` ends, when
    /// the identifier generator gave `id`, the secret operations gave the token `token`,
    /// the salt `salt` and the hash outcome `hashed`, the clock read `now`, making the token
    /// gave `made` and storing it gave `stored`: the first failure, or the token secret.
    pub open spec fn issue_steps(
        &self,
        session_id: i64,
        token_type: TokenType,
        id: u64,
        token: Seq<char>,
        salt: Seq<char>,
        hashed: Result<Seq<char>, AuthTokenError>,
        now: Instant,
        made: Result<AuthTokenView, AuthTokenError>,
        stored: Result<(), HarnessError>,
        r: Result<Seq<char>, AuthError>,
    ) -> bool {
        &&& self.spec_id_generator().gives(id)
        &&& self.spec_secret_fns().makes_token(token)
        &&& self.spec_secret_fns().makes_salt(salt)
        &&& self.spec_secret_fns().hashes(token, salt, hashed)
        &&& match hashed {
            Err(e) => r == Err::<Seq<char>, AuthError>(AuthError::Token(e)),
            Ok(h) => {
                &&& valid_instant(now)
                &&& clock_reading(now)
                &&& token_made_at(id_bits(id), session_id, h, token_type, self.ttl_of(token_type) as int, now, made)
                &&& match made {
                    Err(e) => r == Err::<Seq<char>, AuthError>(AuthError::Token(e)),
                    Ok(t) => {
                        &&& self.spec_harness().inserts_token(t, stored)
                        &&& r == match stored {
                            Ok(()) => Ok::<Seq<char>, AuthError>(token),
                            Err(e) => Err::<Seq<char>, AuthError>(AuthError::Harness(e)),
                        }
                    },
                }
            },
        }
    }

    /// Issuing a token of kind `token_type` for the session `session_id` may end with `r`.
    pub open spec fn issues(&self, session_id: i64, token_type: TokenType, r: Result<Seq<char>, AuthError>) -> bool {
        exists|id: u64, token: Seq<char>, salt: Seq<char>, hashed: Result<Seq<char>, AuthTokenError>, now: Instant,
            made: Result<AuthTokenView, AuthTokenError>, stored: Result<(), HarnessError>|
            #[trigger] self.issue_steps(session_id, token_type, id, token, salt, hashed, now, made, stored, r)
    }

    /// Makes a new secret for the session `user_id`, stores a token of kind `token_type`
    /// with a fresh identifier, the salted hash of the secret and the expiration of that
    /// kind, and hands the secret out. The first failure is returned.
    pub fn next_token(&self, user_id: i64, token_type: TokenType) -> (r: Result<TokenSecret, AuthError>)
        requires
            self.ttls_in_range(),
        ensures
            !(r matches Err(AuthError::UserNotFound)),
            self.issues(user_id, token_type, secret_result(r)),
    {
        let g = self.id_generator.new_u64();
        let id = signed_id(g);
        let token = self.secret_fns.token();
        let salt = self.secret_fns.salt();
        let hashed = self.secret_fns.hash(token.as_str(), salt.as_str());
        let ghost hashed_view = string_result(hashed);
        let ghost unused_now = crate::time::instant(0, 0);
        let ghost unused_made = Err::<AuthTokenView, AuthTokenError>(AuthTokenError { kind: AuthTokenErrorKind::DateTime });
        let ghost unused_stored = Ok::<(), HarnessError>(());
        let salted_hash = match hashed {
            Ok(h) => h,
            Err(e) => {
                assert(self.issue_steps(user_id, token_type, g, token@, salt@, hashed_view, unused_now, unused_made,
                    unused_stored, Err::<Seq<char>, AuthError>(AuthError::Token(e))));
                return Err(AuthError::Token(e));
            },
        };
        let ghost h = salted_hash@;
        let made = match token_type {
            TokenType::Access => AuthToken::new_access(id, user_id, salted_hash, self.access_ttl),
            TokenType::Refresh => AuthToken::new_refresh(id, user_id, salted_hash, self.refresh_ttl),
        };
        let ghost made_v = made_view(made);
        let ghost now = choose|now: Instant| valid_instant(now) && clock_reading(now)
            && #[trigger] token_made_at(id, user_id, h, token_type, self.ttl_of(token_type) as int, now, made_v);
        let auth_token = match made {
            Ok(t) => t,
            Err(e) => {
                assert(self.issue_steps(user_id, token_type, g, token@, salt@, hashed_view, now, made_v,
                    unused_stored, Err::<Seq<char>, AuthError>(AuthError::Token(e))));
                return Err(AuthError::Token(e));
            },
        };
        let stored = self.harness.insert(&auth_token);
        match stored {
            Ok(()) => {
                assert(self.issue_steps(user_id, token_type, g, token@, salt@, hashed_view, now, made_v, stored,
                    Ok::<Seq<char>, AuthError>(token@)));
                Ok(TokenSecret(token))
            },
            Err(e) => {
                assert(self.issue_steps(user_id, token_type, g, token@, salt@, hashed_view, now, made_v, stored,
                    Err::<Seq<char>, AuthError>(AuthError::Harness(e))));
                Err(AuthError::Harness(e))
            },
        }
    }

    /// How checking `token` against the stored token `t` at the instant `now` ends: a token
    /// that has expired is refused with `Expired` (after the deletion of the access token of
    /// its identifier, whatever that gives); otherwise the secret operations check `token`
    /// against the salted hash.
    pub open spec fn check_outcome_at(&self, t: AuthTokenView, token: Seq<char>, now: Instant, r: Result<(), AuthTokenError>) -> bool {
        if instant_after(now, t.expires) {
            &&& r == Err::<(), AuthTokenError>(AuthTokenError { kind: AuthTokenErrorKind::Expired })
            &&& exists|d: Result<(), HarnessError>| #[trigger] self.spec_harness().deletes_access_token(t.id, d)
        } else {
            self.spec_secret_fns().verifies(token, t.salted_hash, r)
        }
    }

    /// Checking `token` against the stored token `t` at an instant read from the clock ends
    /// with `r`.
    pub open spec fn token_verdict(&self, t: AuthTokenView, token: Seq<char>, r: Result<(), AuthTokenError>) -> bool {
        exists|now: Instant| valid_instant(now) && clock_reading(now) && #[trigger] self.check_outcome_at(t, token, now, r)
    }

    /// How checking `token` ends when reading the stored token gave `read`: the failure of
    /// the lookup, or the verdict on the token found.
    pub open spec fn lookup_verdict(&self, read: Result<Option<AuthToken>, HarnessError>, token: Seq<char>, r: Result<(), AuthError>) -> bool {
        match token_lookup_spec(read) {
            Err(e) => r == Err::<(), AuthError>(e),
            Ok(t) => exists|v: Result<(), AuthTokenError>| #[trigger] self.token_verdict(t@, token, v) && r == token_error_lift(v),
        }
    }

    /// Checking `token` against the refresh token stored for `session_id` may end with `r`.
    pub open spec fn refresh_verified(&self, session_id: i64, token: Seq<char>, r: Result<(), AuthError>) -> bool {
        exists|read: Result<Option<AuthToken>, HarnessError>|
            #[trigger] self.spec_harness().reads_refresh_token(session_id, read) && self.lookup_verdict(read, token, r)
    }

    /// Checking `token` against the access token stored for `session_id` may end with `r`.
    pub open spec fn access_verified(&self, session_id: i64, token: Seq<char>, r: Result<(), AuthError>) -> bool {
        exists|read: Result<Option<AuthToken>, HarnessError>|
            #[trigger] self.spec_harness().reads_access_token(session_id, read) && self.lookup_verdict(read, token, r)
    }

    /// Checks `token_str` against the refresh token stored for the session `session_id`.
    pub fn verify_refresh_token(&self, session_id: i64, token_str: &str) -> (r: Result<(), AuthError>)
        ensures
            !(r matches Err(AuthError::UserNotFound)),
            self.refresh_verified(session_id, token_str@, r),
    {
        let read = self.harness.read_refresh_token(session_id);
        let ghost read_v = read;
        let auth_token = match token_lookup(read) {
            Ok(t) => t,
            Err(e) => {
                assert(self.spec_harness().reads_refresh_token(session_id, read_v));
                return Err(e);
            },
        };
        let v = self.verify_token(auth_token, token_str);
        assert(self.spec_harness().reads_refresh_token(session_id, read_v));
        match v {
            Ok(()) => Ok(()),
            Err(e) => Err(AuthError::Token(e)),
        }
    }

    /// Checks `token_str` against the access token stored for the session `session_id`.
    pub fn verify_access_token(&self, session_id: i64, token_str: &str) -> (r: Result<(), AuthError>)
        ensures
            !(r matches Err(AuthError::UserNotFound)),
            self.access_verified(session_id, token_str@, r),
    {
        let read = self.harness.read_access_token(session_id);
        let ghost read_v = read;
        let auth_token = match token_lookup(read) {
            Ok(t) => t,
            Err(e) => {
                assert(self.spec_harness().reads_access_token(session_id, read_v));
                return Err(e);
            },
        };
        let v = self.verify_token(auth_token, token_str);
        assert(self.spec_harness().reads_access_token(session_id, read_v));
        match v {
            Ok(()) => Ok(()),
            Err(e) => Err(AuthError::Token(e)),
        }
    }

    /// Checks `token_str` against `auth_token` at the instant `now`: a token that has
    /// expired at `now` is refused with `Expired` whatever secret is offered (and the access
    /// token of its identifier is deleted, whatever the deletion gives); otherwise the
    /// secret is checked against the salted hash.
    pub fn check_token_at(&self, auth_token: AuthToken, token_str: &str, now: &UtcDateTime) -> (r: Result<(), AuthTokenError>)
        ensures
            instant_after(now@, auth_token@.expires) ==> r == Err::<(), AuthTokenError>(AuthTokenError { kind: AuthTokenErrorKind::Expired }),
            self.check_outcome_at(auth_token@, token_str@, now@, r),
    {
        if auth_token.is_expired_at(now) {
            let d = self.harness.delete_access_token(auth_token.id());
            assert(self.spec_harness().deletes_access_token(auth_token@.id, d));
            Err(AuthTokenError::new(AuthTokenErrorKind::Expired))
        } else {
            self.secret_fns.verify(token_str, auth_token.salted_hash())
        }
    }

    /// Checks `token_str` against `auth_token` at the current time, as `check_token_at` does.
    pub fn verify_token(&self, auth_token: AuthToken, token_str: &str) -> (r: Result<(), AuthTokenError>)
        ensures
            self.token_verdict(auth_token@, token_str@, r),
    {
        let now = utc_now();
        let ghost t = auth_token@;
        let r = self.check_token_at(auth_token, token_str, &now);
        assert(self.check_outcome_at(t, token_str@, now@, r));
        r
    }

    pub fn get_access_token(&self, id: i64) -> (r: Result<Option<AuthToken>, HarnessError>)
        ensures
            self.spec_harness().reads_access_token(id, r),
    {
        self.harness.read_access_token(id)
    }

    pub fn get_refresh_token(&self, id: i64) -> (r: Result<Option<AuthToken>, HarnessError>)
        ensures
            self.spec_harness().reads_refresh_token(id, r),
    {
        self.harness.read_refresh_token(id)
    }

    pub fn delete_access_token(&self, id: i64) -> (r: Result<(), HarnessError>)
        ensures
            self.spec_harness().deletes_access_token(id, r),
    {
        self.harness.delete_access_token(id)
    }

    pub fn delete_access_token_by_session(&self, id: i64) -> (r: Result<(), HarnessError>)
        ensures
            self.spec_harness().deletes_access_tokens_of(id, r),
    {
        self.harness.delete_access_token_by_session(id)
    }

    pub fn delete_resfresh_token(&self, id: i64) -> (r: Result<(), HarnessError>)
        ensures
            self.spec_harness().deletes_refresh_token(id, r),
    {
        self.harness.delete_resfresh_token(id)
    }

    pub fn delete_refresh_token_by_session(&self, id: i64) -> (r: Result<(), HarnessError>)
        ensures
            self.spec_harness().deletes_refresh_tokens_of(id, r),
    {
        self.harness.delete_refresh_token_by_session(id)
    }
}

/// The secret handed out, as plain values.
pub open spec fn secret_result(r: Result<TokenSecret, AuthError>) -> Result<Seq<char>, AuthError> {
    match r {
        Ok(t) => Ok(t@),
        Err(e) => Err(e),
    }
}

/// A verdict of token handling as a verdict of the managers.
pub open spec fn token_error_lift(v: Result<(), AuthTokenError>) -> Result<(), AuthError> {
    match v {
        Ok(()) => Ok(()),
        Err(e) => Err(AuthError::Token(e)),
    }
}

/// Once a token has expired, it stays expired at every later instant.
pub proof fn lemma_expired_stays_expired(expires: Instant, at: Instant, later: Instant)
    requires
        instant_after(at, expires),
        instant_after(later, at),
    ensures
        instant_after(later, expires),
{
}

/// A token that was issued with the default secret operations is stored with a hash that
/// its secret passes: checked at any instant up to its expiration, the secret handed out is
/// accepted.
pub proof fn lemma_issued_token_verifies<T: IdGenerator, V: DbHarnessToken>(
    manager: AuthTokenManager<T, V, DefaultSecretFns>,
    session_id: i64,
    token_type: TokenType,
    id: u64,
    token: Seq<char>,
    salt: Seq<char>,
    hashed: Result<Seq<char>, AuthTokenError>,
    now: Instant,
    made: Result<AuthTokenView, AuthTokenError>,
    stored: Result<(), HarnessError>,
    r: Result<Seq<char>, AuthError>,
    at: Instant,
)
    requires
        manager.issue_steps(session_id, token_type, id, token, salt, hashed, now, made, stored, r),
        r is Ok,
        made matches Ok(t) && !instant_after(at, t.expires),
    ensures
        r == Ok::<Seq<char>, AuthError>(token),
        made matches Ok(t) && t.session_id == session_id && t.token_type == token_type
            && manager.check_outcome_at(t, token, at, Ok(())),
{
}

/// The token stored by the manager with the default secret operations for the kind, that
/// the secret `token` passes at every instant up to its expiration.
pub open spec fn stored_token_accepts<T: IdGenerator, V: DbHarnessToken>(
    manager: AuthTokenManager<T, V, DefaultSecretFns>,
    t: AuthTokenView,
    session_id: i64,
    token_type: TokenType,
    token: Seq<char>,
) -> bool {
    &&& manager.spec_harness().inserts_token(t, Ok::<(), HarnessError>(()))
    &&& t.session_id == session_id
    &&& t.token_type == token_type
    &&& forall|at: Instant| !instant_after(at, t.expires) ==> #[trigger] manager.check_outcome_at(t, token, at, Ok(()))
}

/// A secret that issuing handed out with the default secret operations belongs to a token
/// that was stored for the session and kind asked for, and passes the check against that
/// token at every instant up to its expiration.
pub proof fn lemma_issued_secret_passes_stored_token<T: IdGenerator, V: DbHarnessToken>(
    manager: AuthTokenManager<T, V, DefaultSecretFns>,
    session_id: i64,
    token_type: TokenType,
    token: Seq<char>,
)
    requires
        manager.issues(session_id, token_type, Ok(token)),
    ensures
        exists|t: AuthTokenView| #[trigger] stored_token_accepts(manager, t, session_id, token_type, token),
{
    let (id, secret, salt, hashed, now, made, stored) = choose|id: u64, secret: Seq<char>, salt: Seq<char>,
        hashed: Result<Seq<char>, AuthTokenError>, now: Instant, made: Result<AuthTokenView, AuthTokenError>,
        stored: Result<(), HarnessError>|
        #[trigger] manager.issue_steps(session_id, token_type, id, secret, salt, hashed, now, made, stored, Ok(token));
    let t = made->Ok_0;
    assert forall|at: Instant| !instant_after(at, t.expires) implies #[trigger] manager.check_outcome_at(t, token, at, Ok(())) by {
        lemma_issued_token_verifies(manager, session_id, token_type, id, secret, salt, hashed, now, made, stored,
            Ok(token), at);
    }
    lemma_issued_token_verifies(manager, session_id, token_type, id, secret, salt, hashed, now, made, stored,
        Ok(token), t.expires);
    assert(stored == Ok::<(), HarnessError>(())) by {
        assert(stored->Ok_0 == ());
    }
    assert(stored_token_accepts(manager, t, session_id, token_type, token));
}

/// What issuing a token stores, told by the settings directly: a token with the signed
/// reading of an identifier the generator gave, for the session and kind asked for, whose
/// salted hash is what hashing the handed-out secret with a made salt gave, and which
/// expires the access time to live (for an access token) or the refresh time to live (for a
/// refresh token) after a valid clock reading.
pub open spec fn issued_as<T: IdGenerator, V: DbHarnessToken, S: SecretFns>(
    manager: AuthTokenManager<T, V, S>,
    session_id: i64,
    token_type: TokenType,
    token: Seq<char>,
    g: u64,
    salt: Seq<char>,
    now: Instant,
    t: AuthTokenView,
) -> bool {
    &&& manager.spec_id_generator().gives(g)
    &&& manager.spec_secret_fns().makes_token(token)
    &&& manager.spec_secret_fns().makes_salt(salt)
    &&& manager.spec_secret_fns().hashes(token, salt, Ok::<Seq<char>, AuthTokenError>(t.salted_hash))
    &&& valid_instant(now)
    &&& clock_reading(now)
    &&& t.id == g as i64
    &&& t.session_id == session_id
    &&& t.token_type == token_type
    &&& (token_type == TokenType::Access ==> expiration_spec(now, manager.spec_access_ttl() as int) == Some(t.expires))
    &&& (token_type == TokenType::Refresh ==> expiration_spec(now, manager.spec_refresh_ttl() as int) == Some(t.expires))
    &&& manager.spec_harness().inserts_token(t, Ok::<(), HarnessError>(()))
}

/// A secret that issuing handed out belongs to a stored token with a fresh identifier, the
/// session and kind asked for, the hash of that very secret, and the lifetime of its kind:
/// an access token lives the access time to live and a refresh token the refresh time to
/// live.
pub proof fn lemma_issued_token_lifetime<T: IdGenerator, V: DbHarnessToken, S: SecretFns>(
    manager: AuthTokenManager<T, V, S>,
    session_id: i64,
    token_type: TokenType,
    token: Seq<char>,
)
    requires
        manager.issues(session_id, token_type, Ok(token)),
    ensures
        exists|g: u64, salt: Seq<char>, now: Instant, t: AuthTokenView|
            #[trigger] issued_as(manager, session_id, token_type, token, g, salt, now, t),
{
    let (id, secret, salt, hashed, now, made, stored) = choose|id: u64, secret: Seq<char>, salt: Seq<char>,
        hashed: Result<Seq<char>, AuthTokenError>, now: Instant, made: Result<AuthTokenView, AuthTokenError>,
        stored: Result<(), HarnessError>|
        #[trigger] manager.issue_steps(session_id, token_type, id, secret, salt, hashed, now, made, stored, Ok(token));
    let t = made->Ok_0;
    assert(stored == Ok::<(), HarnessError>(())) by {
        assert(stored->Ok_0 == ());
    }
    assert(issued_as(manager, session_id, token_type, token, id, salt, now, t));
}

/// A token is accepted only when a clock reading did not come after its expiration and the
/// secret operations accept the secret against its salted hash; and when a clock reading
/// came after its expiration, the token is refused with `Expired`, whatever the secret.
pub proof fn lemma_verdict_follows_the_clock<T: IdGenerator, V: DbHarnessToken, S: SecretFns>(
    manager: AuthTokenManager<T, V, S>,
    t: AuthTokenView,
    token: Seq<char>,
    r: Result<(), AuthTokenError>,
)
    requires
        manager.token_verdict(t, token, r),
    ensures
        exists|now: Instant| #[trigger] clock_reading(now) && valid_instant(now)
            && (instant_after(now, t.expires) ==> r == Err::<(), AuthTokenError>(AuthTokenError { kind: AuthTokenErrorKind::Expired }))
            && (!instant_after(now, t.expires) ==> manager.spec_secret_fns().verifies(token, t.salted_hash, r)),
        r is Ok ==> exists|now: Instant| #[trigger] clock_reading(now) && !instant_after(now, t.expires)
            && manager.spec_secret_fns().verifies(token, t.salted_hash, r),
{
    let now = choose|now: Instant| valid_instant(now) && clock_reading(now) && #[trigger] manager.check_outcome_at(t, token, now, r);
    assert(clock_reading(now));
}

} // verus!
