use vstd::prelude::*;

use crate::auth_token::{
    access_token_of, issued_as, lemma_issued_token_lifetime, token_error_lift, AuthToken, lemma_issued_secret_passes_stored_token, refresh_token_of, secret_result, stored_token_accepts,
    AccessToken, AuthTokenManager, AuthTokenManagerConfig, AuthTokenView, RefreshToken, TokenType, DEFAULT_ACCESS_TTL,
    DEFAULT_REFRESH_TTL,
};
use crate::errors::{AuthError, AuthTokenError, AuthTokenErrorKind};
use crate::harness::{DbHarnessSession, DbHarnessToken, HarnessError, StatelessSession};
use crate::id::{id_bits, signed_id, DefaultIdGenerator, IdGenerator, ZerodIdGenerator};
use crate::secret::{DefaultSecretFns, SecretFns, StatelessSecretFns};
use crate::time::{
    clock_reading, expiration_from, expiration_spec, instant_after, max_instant, ttl_in_range, utc_now, valid_instant, Instant, UtcDateTime,
};

verus! {

/// An IP address, version 4 or 6, by its numbers.
#[derive(Clone, Copy, Debug, PartialEq, Eq, Structural)]
pub enum IpAddress {
    V4(u8, u8, u8, u8),
    V6(u16, u16, u16, u16, u16, u16, u16, u16),
}

/// What a session holds, as plain values.
pub struct SessionView {
    pub id: i64,
    pub user_id: i64,
    pub ip_addr: Option<IpAddress>,
    pub created_at: Instant,
    pub expires: Instant,
}

/// A logged in user's session: its identifier, the user, the address it was opened
/// from, when it was opened and when it expires.
#[derive(Clone, Copy, Debug, PartialEq, Eq, Structural)]
pub struct Session {
    id: i64,
    user_id: i64,
    ip_addr: Option<IpAddress>,
    created_at: UtcDateTime,
    expires: UtcDateTime,
}

impl View for Session {
    type V = SessionView;

    closed spec fn view(&self) -> SessionView {
        SessionView {
            id: self.id,
            user_id: self.user_id,
            ip_addr: self.ip_addr,
            created_at: self.created_at@,
            expires: self.expires@,
        }
    }
}

/// When a session with time to live `ttl` expires, counted from `now`: `ttl` minutes on
/// as `expiration_spec` counts them, or never (the latest representable instant) without one.
pub open spec fn session_expiration(now: Instant, ttl: Option<i64>) -> Option<Instant> {
    match ttl {
        Some(t) => expiration_spec(now, t as int),
        None => Some(max_instant()),
    }
}

/// The time to live is absent or one that a duration in minutes can hold.
pub open spec fn session_ttl_in_range(ttl: Option<i64>) -> bool {
    ttl matches Some(t) ==> ttl_in_range(t as int)
}

/// A made session as plain values.
pub open spec fn session_result(r: Result<Session, AuthTokenError>) -> Result<SessionView, AuthTokenError> {
    match r {
        Ok(s) => Ok(s@),
        Err(e) => Err(e),
    }
}

/// What opening a session gives when its expiration is counted from `now` and it is
/// opened at `created_at`: the session, or `DateTime` where the expiration is not representable.
pub open spec fn session_opened_at(
    id: i64,
    user_id: i64,
    ip_addr: Option<IpAddress>,
    ttl: Option<i64>,
    now: Instant,
    created_at: Instant,
    made: Result<SessionView, AuthTokenError>,
) -> bool {
    match session_expiration(now, ttl) {
        Some(expires) => made == Ok::<SessionView, AuthTokenError>(SessionView { id, user_id, ip_addr, created_at, expires }),
        None => made == Err::<SessionView, AuthTokenError>(AuthTokenError { kind: AuthTokenErrorKind::DateTime }),
    }
}

/// Opening a session at the current time may give `made`.
pub open spec fn session_opened(id: i64, user_id: i64, ip_addr: Option<IpAddress>, ttl: Option<i64>, made: Result<SessionView, AuthTokenError>) -> bool {
    exists|now: Instant, created_at: Instant| valid_instant(now) && valid_instant(created_at)
        && clock_reading(now) && clock_reading(created_at)
        && #[trigger] session_opened_at(id, user_id, ip_addr, ttl, now, created_at, made)
}

/// What a session manager hands out, as plain values.
pub open spec fn opened_view(r: Result<(Session, RefreshToken, AccessToken), AuthError>) -> Result<(SessionView, Seq<char>, Seq<char>), AuthError> {
    match r {
        Ok(o) => Ok((o.0@, o.1@, o.2@)),
        Err(e) => Err(e),
    }
}

/// The outcome of renewing an access token, as plain values.
pub open spec fn renewed_access_view(r: Result<AccessToken, AuthError>) -> Result<Seq<char>, AuthError> {
    match r {
        Ok(a) => Ok(a@),
        Err(e) => Err(e),
    }
}

/// The outcome of renewing both tokens, as plain values: the refresh secret, then the
/// access secret.
pub open spec fn renewed_pair_view(r: Result<(RefreshToken, AccessToken), AuthError>) -> Result<(Seq<char>, Seq<char>), AuthError> {
    match r {
        Ok(p) => Ok((p.0@, p.1@)),
        Err(e) => Err(e),
    }
}

/// A storage outcome as an outcome of the managers.
pub open spec fn harness_lift(r: Result<(), HarnessError>) -> Result<(), AuthError> {
    match r {
        Ok(()) => Ok(()),
        Err(e) => Err(AuthError::Harness(e)),
    }
}

impl Session {
    /// A session opened at `created_at` whose expiration is counted from `now`.
    pub fn opened_at(
        id: i64,
        user_id: i64,
        ip_adrr: Option<IpAddress>,
        ttl: Option<i64>,
        now: &UtcDateTime,
        created_at: UtcDateTime,
    ) -> (r: Result<Self, AuthTokenError>)
        requires
            session_ttl_in_range(ttl),
        ensures
            r is Ok <==> session_expiration(now@, ttl) is Some,
            r matches Ok(s) ==> s@.id == id && s@.user_id == user_id && s@.ip_addr == ip_adrr
                && s@.created_at == created_at@ && Some(s@.expires) == session_expiration(now@, ttl),
            r matches Err(e) ==> e.kind == AuthTokenErrorKind::DateTime,
            session_opened_at(id, user_id, ip_adrr, ttl, now@, created_at@, session_result(r)),
    {
        let expires = match ttl {
            Some(ttl) => match expiration_from(now, ttl) {
                Ok(e) => e,
                Err(e) => return Err(e),
            },
            None => UtcDateTime::max_utc(),
        };
        Ok(Self { id, user_id, ip_addr: ip_adrr, created_at, expires })
    }

    /// A session opened now; without a time to live it never expires.
    pub fn new(id: i64, user_id: i64, ip_adrr: Option<IpAddress>, ttl: Option<i64>) -> (r: Result<Self, AuthTokenError>)
        requires
            session_ttl_in_range(ttl),
        ensures
            ttl is None ==> r is Ok,
            r matches Ok(s) ==> s@.id == id && s@.user_id == user_id && s@.ip_addr == ip_adrr
                && valid_instant(s@.created_at) && clock_reading(s@.created_at)
                && exists|now: Instant| session_expiration(now, ttl) == Some(s@.expires),
            r matches Err(e) ==> e.kind == AuthTokenErrorKind::DateTime,
            session_opened(id, user_id, ip_adrr, ttl, session_result(r)),
    {
        let now = utc_now();
        let created_at = utc_now();
        let r = Self::opened_at(id, user_id, ip_adrr, ttl, &now, created_at);
        assert(session_opened_at(id, user_id, ip_adrr, ttl, now@, created_at@, session_result(r)));
        r
    }

    /// A session for authentication without stored sessions: identifier and user zero,
    /// no address, opened now and never expiring.
    pub fn stateless() -> (r: Self)
        ensures
            r@.id == 0,
            r@.user_id == 0,
            r@.ip_addr is None,
            valid_instant(r@.created_at),
            clock_reading(r@.created_at),
            r@.expires == max_instant(),
    {
        Self { id: 0, user_id: 0, ip_addr: None, created_at: utc_now(), expires: UtcDateTime::max_utc() }
    }

    pub fn from_values(
        id: i64,
        user_id: i64,
        ip_addr: Option<IpAddress>,
        created_at: UtcDateTime,
        expires: UtcDateTime,
    ) -> (r: Self)
        ensures
            r@.id == id,
            r@.user_id == user_id,
            r@.ip_addr == ip_addr,
            r@.created_at == created_at@,
            r@.expires == expires@,
    {
        Self { id, user_id, ip_addr, created_at, expires }
    }

    pub fn id(&self) -> (r: i64)
        ensures
            r == self@.id,
    {
        self.id
    }

    pub fn user_id(&self) -> (r: i64)
        ensures
            r == self@.user_id,
    {
        self.user_id
    }

    pub fn ip_addr(&self) -> (r: Option<IpAddress>)
        ensures
            r == self@.ip_addr,
    {
        self.ip_addr
    }

    pub fn expires(&self) -> (r: UtcDateTime)
        ensures
            r@ == self@.expires,
    {
        self.expires
    }

    pub fn created_at(&self) -> (r: UtcDateTime)
        ensures
            r@ == self@.created_at,
    {
        self.created_at
    }
}

/// What a session lookup gives: the session, `NotAuthorized` when none is stored, or the
/// storage failure.
pub open spec fn session_lookup_spec(read: Result<Option<Session>, HarnessError>) -> Result<Session, AuthError> {
    match read {
        Ok(Some(s)) => Ok(s),
        Ok(None) => Err(AuthError::Token(AuthTokenError { kind: AuthTokenErrorKind::NotAuthorized })),
        Err(e) => Err(AuthError::Harness(e)),
    }
}

/// Turns the result of reading a session into the session, or the error.
pub fn session_lookup(read: Result<Option<Session>, HarnessError>) -> (r: Result<Session, AuthError>)
    ensures
        r == session_lookup_spec(read),
{
    match read {
        Ok(Some(s)) => Ok(s),
        Ok(None) => Err(AuthError::Token(AuthTokenError::new(AuthTokenErrorKind::NotAuthorized))),
        Err(e) => Err(AuthError::Harness(e)),
    }
}

/// The settings a session manager is made from: the time to live of sessions (none: they
/// never expire), the identifier generator, and the settings of its token manager.
pub struct SessionManagerConfig<T, S> where T: IdGenerator, S: SecretFns {
    session_ttl: Option<i64>,
    id_generator: T,
    token_manager_config: AuthTokenManagerConfig<T, S>,
}

impl Default for SessionManagerConfig<DefaultIdGenerator, DefaultSecretFns> {
    /// Sessions that never expire, random identifiers and the default token settings.
    fn default() -> (r: Self)
        ensures
            r.spec_session_ttl() is None,
            r.spec_id_generator() == (DefaultIdGenerator {}),
            r.spec_token_manager_config().spec_access_ttl() == DEFAULT_ACCESS_TTL,
            r.spec_token_manager_config().spec_refresh_ttl() == DEFAULT_REFRESH_TTL,
            r.spec_token_manager_config().spec_id_generator() == (DefaultIdGenerator {}),
            r.spec_token_manager_config().spec_secret_fns() == (DefaultSecretFns {}),
            r.spec_token_manager_config().ttls_in_range(),
    {
        Self {
            session_ttl: None,
            id_generator: DefaultIdGenerator {},
            token_manager_config: AuthTokenManagerConfig::default(),
        }
    }
}

impl SessionManagerConfig<ZerodIdGenerator, StatelessSecretFns> {
    /// Sessions that never expire, zero identifiers and the stateless token settings.
    pub fn new_stateless() -> (r: Self)
        ensures
            r.spec_session_ttl() is None,
            r.spec_id_generator() == (ZerodIdGenerator {}),
            r.spec_token_manager_config().spec_access_ttl() == DEFAULT_ACCESS_TTL,
            r.spec_token_manager_config().spec_refresh_ttl() == DEFAULT_REFRESH_TTL,
            r.spec_token_manager_config().spec_id_generator() == (ZerodIdGenerator {}),
            r.spec_token_manager_config().spec_secret_fns() == (StatelessSecretFns {}),
            r.spec_token_manager_config().ttls_in_range(),
    {
        Self {
            session_ttl: None,
            id_generator: ZerodIdGenerator {},
            token_manager_config: AuthTokenManagerConfig::new_stateless(),
        }
    }
}

impl<T, S> SessionManagerConfig<T, S> where T: IdGenerator, S: SecretFns {
    pub closed spec fn spec_session_ttl(&self) -> Option<i64> {
        self.session_ttl
    }

    pub closed spec fn spec_id_generator(&self) -> T {
        self.id_generator
    }

    pub closed spec fn spec_token_manager_config(&self) -> AuthTokenManagerConfig<T, S> {
        self.token_manager_config
    }

    pub fn new(session_ttl: Option<i64>, id_generator: T, token_config: AuthTokenManagerConfig<T, S>) -> (r: Self)
        ensures
            r.spec_session_ttl() == session_ttl,
            r.spec_id_generator() == id_generator,
            r.spec_token_manager_config() == token_config,
    {
        Self { session_ttl, id_generator, token_manager_config: token_config }
    }
}

impl<T, S> SessionManagerConfig<T, S> where T: IdGenerator + Copy, S: SecretFns + Copy {
    /// A session manager with these settings over the session store `session_harness` and
    /// the token store `token_harness`.
    pub fn init<V: DbHarnessSession, Y: DbHarnessToken>(&self, session_harness: V, token_harness: Y) -> (r: SessionManager<T, V, Y, S>)
        ensures
            r.spec_session_ttl() == self.spec_session_ttl(),
            r.spec_id_generator() == self.spec_id_generator(),
            r.spec_harness() == session_harness,
            r.spec_token_manager().spec_access_ttl() == self.spec_token_manager_config().spec_access_ttl(),
            r.spec_token_manager().spec_refresh_ttl() == self.spec_token_manager_config().spec_refresh_ttl(),
            r.spec_token_manager().spec_id_generator() == self.spec_token_manager_config().spec_id_generator(),
            r.spec_token_manager().spec_secret_fns() == self.spec_token_manager_config().spec_secret_fns(),
            r.spec_token_manager().spec_harness() == token_harness,
    {
        SessionManager {
            session_ttl: self.session_ttl,
            id_generator: self.id_generator,
            harness: session_harness,
            token_manager: self.token_manager_config.init(token_harness),
        }
    }
}

/// Opens, checks and closes sessions, and renews their tokens.
pub struct SessionManager<T, V, X, S> where T: IdGenerator, V: DbHarnessSession, X: DbHarnessToken, S: SecretFns {
    session_ttl: Option<i64>,
    id_generator: T,
    token_manager: AuthTokenManager<T, X, S>,
    harness: V,
}

impl<T, V, X, S> SessionManager<T, V, X, S> where T: IdGenerator, V: DbHarnessSession, X: DbHarnessToken, S: SecretFns {
    pub closed spec fn spec_session_ttl(&self) -> Option<i64> {
        self.session_ttl
    }

    pub closed spec fn spec_id_generator(&self) -> T {
        self.id_generator
    }

    pub closed spec fn spec_token_manager(&self) -> AuthTokenManager<T, X, S> {
        self.token_manager
    }

    pub closed spec fn spec_harness(&self) -> V {
        self.harness
    }

    /// Every time to live, of sessions and of tokens, can be turned into a duration.
    pub open spec fn ttls_in_range(&self) -> bool {
        session_ttl_in_range(self.spec_session_ttl()) && self.spec_token_manager().ttls_in_range()
    }

    /// How opening a session for `user_id` from `ip_addr` ends, when the identifier
    /// generator gave `id`, opening the session gave `made`, storing it gave `stored`, and
    /// issuing the refresh and the access token gave `rr` and `ar`: the first failure, or
    /// the session with both secrets.
    pub open spec fn open_steps(
        &self,
        user_id: i64,
        ip_addr: Option<IpAddress>,
        id: u64,
        made: Result<SessionView, AuthTokenError>,
        stored: Result<(), HarnessError>,
        rr: Result<Seq<char>, AuthError>,
        ar: Result<Seq<char>, AuthError>,
        r: Result<(SessionView, Seq<char>, Seq<char>), AuthError>,
    ) -> bool {
        &&& self.spec_id_generator().gives(id)
        &&& session_opened(id_bits(id), user_id, ip_addr, self.spec_session_ttl(), made)
        &&& match made {
            Err(e) => r == Err::<(SessionView, Seq<char>, Seq<char>), AuthError>(AuthError::Token(e)),
            Ok(s) => {
                &&& self.spec_harness().inserts_session(s, stored)
                &&& match stored {
                    Err(e) => r == Err::<(SessionView, Seq<char>, Seq<char>), AuthError>(AuthError::Harness(e)),
                    Ok(()) => {
                        &&& self.spec_token_manager().issues(s.id, TokenType::Refresh, rr)
                        &&& match rr {
                            Err(e) => r == Err::<(SessionView, Seq<char>, Seq<char>), AuthError>(e),
                            Ok(refresh) => {
                                &&& self.spec_token_manager().issues(s.id, TokenType::Access, ar)
                                &&& match ar {
                                    Err(e) => r == Err::<(SessionView, Seq<char>, Seq<char>), AuthError>(e),
                                    Ok(access) => r == Ok::<(SessionView, Seq<char>, Seq<char>), AuthError>((s, refresh, access)),
                                }
                            },
                        }
                    },
                }
            },
        }
    }

    /// Opening a session for `user_id` from `ip_addr` may end with `r`.
    pub open spec fn opens(&self, user_id: i64, ip_addr: Option<IpAddress>, r: Result<(SessionView, Seq<char>, Seq<char>), AuthError>) -> bool {
        exists|id: u64, made: Result<SessionView, AuthTokenError>, stored: Result<(), HarnessError>,
            rr: Result<Seq<char>, AuthError>, ar: Result<Seq<char>, AuthError>|
            #[trigger] self.open_steps(user_id, ip_addr, id, made, stored, rr, ar, r)
    }

    /// Opens a session for `user_id` from `ip_addr` with a fresh identifier, stores it,
    /// and makes its refresh token and then its access token. The first failure is returned.
    pub fn new_session(&self, user_id: i64, ip_addr: Option<IpAddress>) -> (r: Result<(Session, RefreshToken, AccessToken), AuthError>)
        requires
            self.ttls_in_range(),
        ensures
            r matches Ok(opened) ==> opened.0@.user_id == user_id && opened.0@.ip_addr == ip_addr
                && exists|now: Instant| session_expiration(now, self.spec_session_ttl()) == Some(opened.0@.expires),
            r matches Ok(opened) ==> exists|g: u64| #[trigger] self.spec_id_generator().gives(g) && opened.0@.id == g as i64,
            !(r matches Err(AuthError::UserNotFound)),
            self.opens(user_id, ip_addr, opened_view(r)),
    {
        let id = self.id_generator.new_u64();
        let made = Session::new(signed_id(id), user_id, ip_addr, self.session_ttl);
        let ghost made_v = session_result(made);
        let ghost no_store = Ok::<(), HarnessError>(());
        let ghost no_token = Ok::<Seq<char>, AuthError>(Seq::empty());
        let session = match made {
            Ok(s) => s,
            Err(e) => {
                assert(self.open_steps(user_id, ip_addr, id, made_v, no_store, no_token, no_token,
                    Err::<(SessionView, Seq<char>, Seq<char>), AuthError>(AuthError::Token(e))));
                return Err(AuthError::Token(e));
            },
        };
        let stored = self.harness.insert(&session);
        match stored {
            Ok(()) => {},
            Err(e) => {
                assert(self.open_steps(user_id, ip_addr, id, made_v, stored, no_token, no_token,
                    Err::<(SessionView, Seq<char>, Seq<char>), AuthError>(AuthError::Harness(e))));
                return Err(AuthError::Harness(e));
            },
        }
        let rr = self.token_manager.next_token(session.id(), TokenType::Refresh);
        let ghost rr_v = secret_result(rr);
        let refresh_secret = match rr {
            Ok(t) => t,
            Err(e) => {
                assert(self.open_steps(user_id, ip_addr, id, made_v, stored, rr_v, no_token,
                    Err::<(SessionView, Seq<char>, Seq<char>), AuthError>(e)));
                return Err(e);
            },
        };
        let ar = self.token_manager.next_token(session.id(), TokenType::Access);
        let ghost ar_v = secret_result(ar);
        let access_secret = match ar {
            Ok(t) => t,
            Err(e) => {
                assert(self.open_steps(user_id, ip_addr, id, made_v, stored, rr_v, ar_v,
                    Err::<(SessionView, Seq<char>, Seq<char>), AuthError>(e)));
                return Err(e);
            },
        };
        let r = (session, refresh_token_of(refresh_secret), access_token_of(access_secret));
        assert(self.open_steps(user_id, ip_addr, id, made_v, stored, rr_v, ar_v, opened_view(Ok(r))));
        Ok(r)
    }

    /// How checking a token of the session `session_id` ends when reading the session gave
    /// `read` and checking the token (a refresh token when `refresh`) gave `checked`: the
    /// failure of the lookup, the failure of the check, or the session.
    pub open spec fn session_check_steps(
        &self,
        session_id: i64,
        token: Seq<char>,
        refresh: bool,
        read: Result<Option<Session>, HarnessError>,
        checked: Result<(), AuthError>,
        r: Result<Session, AuthError>,
    ) -> bool {
        &&& self.spec_harness().reads_session(session_id, read)
        &&& match session_lookup_spec(read) {
            Err(e) => r == Err::<Session, AuthError>(e),
            Ok(s) => {
                &&& if refresh {
                    self.spec_token_manager().refresh_verified(session_id, token, checked)
                } else {
                    self.spec_token_manager().access_verified(session_id, token, checked)
                }
                &&& r == match checked {
                    Ok(()) => Ok::<Session, AuthError>(s),
                    Err(e) => Err::<Session, AuthError>(e),
                }
            },
        }
    }

    /// Checking `token` as the refresh (when `refresh`) or access token of the session
    /// `session_id` may end with `r`.
    pub open spec fn session_verified(&self, session_id: i64, token: Seq<char>, refresh: bool, r: Result<Session, AuthError>) -> bool {
        exists|read: Result<Option<Session>, HarnessError>, checked: Result<(), AuthError>|
            #[trigger] self.session_check_steps(session_id, token, refresh, read, checked, r)
    }

    /// Checks the refresh token of the stored session `session_id` and gives the session;
    /// `NotAuthorized` when no such session is stored.
    pub fn verify_refresh_token(&self, session_id: i64, user_token_atmpt: &RefreshToken) -> (r: Result<Session, AuthError>)
        ensures
            !(r matches Err(AuthError::UserNotFound)),
            self.session_verified(session_id, user_token_atmpt@, true, r),
    {
        let read = self.harness.read_by_id(session_id);
        let ghost read_v = read;
        let session = match session_lookup(read) {
            Ok(s) => s,
            Err(e) => {
                assert(self.session_check_steps(session_id, user_token_atmpt@, true, read_v, Ok(()), Err(e)));
                return Err(e);
            },
        };
        let checked = self.token_manager.verify_refresh_token(session_id, user_token_atmpt.0.secret());
        match checked {
            Ok(()) => {
                assert(self.session_check_steps(session_id, user_token_atmpt@, true, read_v, checked, Ok(session)));
                Ok(session)
            },
            Err(e) => {
                assert(self.session_check_steps(session_id, user_token_atmpt@, true, read_v, checked, Err(e)));
                Err(e)
            },
        }
    }

    /// Checks the access token of the stored session `session_id` and gives the session;
    /// `NotAuthorized` when no such session is stored.
    pub fn verify_access_token(&self, session_id: i64, user_token_atmpt: &AccessToken) -> (r: Result<Session, AuthError>)
        ensures
            !(r matches Err(AuthError::UserNotFound)),
            self.session_verified(session_id, user_token_atmpt@, false, r),
    {
        let read = self.harness.read_by_id(session_id);
        let ghost read_v = read;
        let session = match session_lookup(read) {
            Ok(s) => s,
            Err(e) => {
                assert(self.session_check_steps(session_id, user_token_atmpt@, false, read_v, Ok(()), Err(e)));
                return Err(e);
            },
        };
        let checked = self.token_manager.verify_access_token(session_id, user_token_atmpt.0.secret());
        match checked {
            Ok(()) => {
                assert(self.session_check_steps(session_id, user_token_atmpt@, false, read_v, checked, Ok(session)));
                Ok(session)
            },
            Err(e) => {
                assert(self.session_check_steps(session_id, user_token_atmpt@, false, read_v, checked, Err(e)));
                Err(e)
            },
        }
    }

    pub fn get_session_by_id(&self, id: i64) -> (r: Result<Option<Session>, HarnessError>)
        ensures
            self.spec_harness().reads_session(id, r),
    {
        self.harness.read_by_id(id)
    }

    /// How renewing the access token of the session `session_id` ends when deleting its
    /// access tokens gave `a` and issuing a new access token gave `ar`: the failure of the
    /// deletion, or what the issue gave.
    pub open spec fn renew_access_steps(
        &self,
        session_id: i64,
        a: Result<(), HarnessError>,
        ar: Result<Seq<char>, AuthError>,
        r: Result<Seq<char>, AuthError>,
    ) -> bool {
        &&& self.spec_token_manager().spec_harness().deletes_access_tokens_of(session_id, a)
        &&& match a {
            Err(e) => r == Err::<Seq<char>, AuthError>(AuthError::Harness(e)),
            Ok(()) => {
                &&& self.spec_token_manager().issues(session_id, TokenType::Access, ar)
                &&& r == ar
            },
        }
    }

    /// Renewing the access token of the session `session_id` may end with `r`.
    pub open spec fn renews_access(&self, session_id: i64, r: Result<Seq<char>, AuthError>) -> bool {
        exists|a: Result<(), HarnessError>, ar: Result<Seq<char>, AuthError>|
            #[trigger] self.renew_access_steps(session_id, a, ar, r)
    }

    /// Deletes the access tokens of the session and makes a new one.
    pub fn create_new_access_token(&self, session: &Session) -> (r: Result<AccessToken, AuthError>)
        requires
            self.ttls_in_range(),
        ensures
            !(r matches Err(AuthError::UserNotFound)),
            self.renews_access(session@.id, renewed_access_view(r)),
    {
        let a = self.token_manager.delete_access_token_by_session(session.id());
        match a {
            Ok(()) => {},
            Err(e) => {
                let r = Err(AuthError::Harness(e));
                assert(self.renew_access_steps(session@.id, a, renewed_access_view(r), renewed_access_view(r)));
                return r;
            },
        }
        let ar = self.token_manager.next_token(session.id(), TokenType::Access);
        let ghost ar_v = secret_result(ar);
        let r = match ar {
            Ok(t) => Ok(access_token_of(t)),
            Err(e) => Err(e),
        };
        assert(self.renew_access_steps(session@.id, a, ar_v, renewed_access_view(r)));
        r
    }

    /// How renewing both tokens of the session `session_id` ends when deleting its refresh
    /// tokens gave `b`, deleting its access tokens gave `a`, and issuing a new access and
    /// then a new refresh token gave `ar` and `rr`: the first failure, or the refresh and
    /// the access secret.
    pub open spec fn renew_steps(
        &self,
        session_id: i64,
        b: Result<(), HarnessError>,
        a: Result<(), HarnessError>,
        ar: Result<Seq<char>, AuthError>,
        rr: Result<Seq<char>, AuthError>,
        r: Result<(Seq<char>, Seq<char>), AuthError>,
    ) -> bool {
        &&& self.spec_token_manager().spec_harness().deletes_refresh_tokens_of(session_id, b)
        &&& match b {
            Err(e) => r == Err::<(Seq<char>, Seq<char>), AuthError>(AuthError::Harness(e)),
            Ok(()) => {
                &&& self.spec_token_manager().spec_harness().deletes_access_tokens_of(session_id, a)
                &&& match a {
                    Err(e) => r == Err::<(Seq<char>, Seq<char>), AuthError>(AuthError::Harness(e)),
                    Ok(()) => {
                        &&& self.spec_token_manager().issues(session_id, TokenType::Access, ar)
                        &&& match ar {
                            Err(e) => r == Err::<(Seq<char>, Seq<char>), AuthError>(e),
                            Ok(access) => {
                                &&& self.spec_token_manager().issues(session_id, TokenType::Refresh, rr)
                                &&& match rr {
                                    Err(e) => r == Err::<(Seq<char>, Seq<char>), AuthError>(e),
                                    Ok(refresh) => r == Ok::<(Seq<char>, Seq<char>), AuthError>((refresh, access)),
                                }
                            },
                        }
                    },
                }
            },
        }
    }

    /// Renewing both tokens of the session `session_id` may end with `r`.
    pub open spec fn renews(&self, session_id: i64, r: Result<(Seq<char>, Seq<char>), AuthError>) -> bool {
        exists|b: Result<(), HarnessError>, a: Result<(), HarnessError>, ar: Result<Seq<char>, AuthError>,
            rr: Result<Seq<char>, AuthError>|
            #[trigger] self.renew_steps(session_id, b, a, ar, rr, r)
    }

    /// Deletes the refresh and the access tokens of the session, then makes a new access
    /// token and a new refresh token.
    pub fn create_new_refresh_token(&self, session: &Session) -> (r: Result<(RefreshToken, AccessToken), AuthError>)
        requires
            self.ttls_in_range(),
        ensures
            !(r matches Err(AuthError::UserNotFound)),
            self.renews(session@.id, renewed_pair_view(r)),
    {
        let ghost sid = session@.id;
        let ghost none = Ok::<Seq<char>, AuthError>(Seq::empty());
        let b = self.token_manager.delete_refresh_token_by_session(session.id());
        match b {
            Ok(()) => {},
            Err(e) => {
                let r = Err(AuthError::Harness(e));
                assert(self.renew_steps(sid, b, Ok(()), none, none, renewed_pair_view(r)));
                return r;
            },
        }
        let a = self.token_manager.delete_access_token_by_session(session.id());
        match a {
            Ok(()) => {},
            Err(e) => {
                let r = Err(AuthError::Harness(e));
                assert(self.renew_steps(sid, b, a, none, none, renewed_pair_view(r)));
                return r;
            },
        }
        let ar = self.token_manager.next_token(session.id(), TokenType::Access);
        let ghost ar_v = secret_result(ar);
        let access_secret = match ar {
            Ok(t) => t,
            Err(e) => {
                let r = Err(e);
                assert(self.renew_steps(sid, b, a, ar_v, none, renewed_pair_view(r)));
                return r;
            },
        };
        let rr = self.token_manager.next_token(session.id(), TokenType::Refresh);
        let ghost rr_v = secret_result(rr);
        let refresh_secret = match rr {
            Ok(t) => t,
            Err(e) => {
                let r = Err(e);
                assert(self.renew_steps(sid, b, a, ar_v, rr_v, renewed_pair_view(r)));
                return r;
            },
        };
        let r = Ok((refresh_token_of(refresh_secret), access_token_of(access_secret)));
        assert(self.renew_steps(sid, b, a, ar_v, rr_v, renewed_pair_view(r)));
        r
    }

    /// How deleting the tokens of the session `session_id` ends when deleting its access
    /// tokens gave `a` and its refresh tokens `b`: the first failure, or success.
    pub open spec fn delete_steps(&self, session_id: i64, a: Result<(), HarnessError>, b: Result<(), HarnessError>, r: Result<(), AuthError>) -> bool {
        &&& self.spec_token_manager().spec_harness().deletes_access_tokens_of(session_id, a)
        &&& match a {
            Err(e) => r == Err::<(), AuthError>(AuthError::Harness(e)),
            Ok(()) => {
                &&& self.spec_token_manager().spec_harness().deletes_refresh_tokens_of(session_id, b)
                &&& r == harness_lift(b)
            },
        }
    }

    /// Deleting the tokens of the session `session_id` may end with `r`.
    pub open spec fn deletes_tokens(&self, session_id: i64, r: Result<(), AuthError>) -> bool {
        exists|a: Result<(), HarnessError>, b: Result<(), HarnessError>| #[trigger] self.delete_steps(session_id, a, b, r)
    }

    /// Deletes the access and refresh tokens of the session, and leaves the session itself.
    pub fn delete_session(&self, session_id: i64) -> (r: Result<(), AuthError>)
        ensures
            r matches Err(e) ==> e is Harness,
            self.deletes_tokens(session_id, r),
    {
        let a = self.token_manager.delete_access_token_by_session(session_id);
        match a {
            Ok(()) => {},
            Err(e) => {
                assert(self.delete_steps(session_id, a, Ok(()), Err(AuthError::Harness(e))));
                return Err(AuthError::Harness(e));
            },
        }
        let b = self.token_manager.delete_refresh_token_by_session(session_id);
        assert(self.delete_steps(session_id, a, b, harness_lift(b)));
        match b {
            Ok(()) => Ok(()),
            Err(e) => Err(AuthError::Harness(e)),
        }
    }
}

/// A session opened without a time to live never expires: it expires at the latest
/// representable instant, which no valid instant comes after (but for the leap second that
/// may end the latest day).
pub proof fn lemma_session_without_ttl_never_expires(now: Instant, later: Instant)
    requires
        valid_instant(later),
        later.secs < crate::time::MAX_TIMESTAMP || later.nanos < 1_000_000_000,
    ensures
        session_expiration(now, None) == Some(max_instant()),
        !instant_after(later, max_instant()),
{
    crate::time::lemma_nothing_after_max(later);
}

/// With a session store that keeps nothing, checking a token of a session is always
/// refused with `NotAuthorized`, whatever token is offered.
pub proof fn lemma_stateless_sessions_never_verify<T: IdGenerator, X: DbHarnessToken, S: SecretFns>(
    session_manager: SessionManager<T, StatelessSession, X, S>,
    session_id: i64,
    token: Seq<char>,
    refresh: bool,
    r: Result<Session, AuthError>,
)
    requires
        session_manager.session_verified(session_id, token, refresh, r),
    ensures
        r == Err::<Session, AuthError>(AuthError::Token(AuthTokenError { kind: AuthTokenErrorKind::NotAuthorized })),
{
    let (read, checked) = choose|read: Result<Option<Session>, HarnessError>, checked: Result<(), AuthError>|
        #[trigger] session_manager.session_check_steps(session_id, token, refresh, read, checked, r);
    assert(read == Ok::<Option<Session>, HarnessError>(None));
}

/// With the default secret operations, both secrets that a new session hands out belong to
/// tokens stored for that session, of their kinds, and pass the check against them up to
/// their expiration.
pub proof fn lemma_opened_session_tokens_pass<T: IdGenerator, V: DbHarnessSession, X: DbHarnessToken>(
    session_manager: SessionManager<T, V, X, DefaultSecretFns>,
    user_id: i64,
    ip_addr: Option<IpAddress>,
    session: SessionView,
    refresh: Seq<char>,
    access: Seq<char>,
)
    requires
        session_manager.opens(user_id, ip_addr, Ok((session, refresh, access))),
    ensures
        session.user_id == user_id,
        exists|t: AuthTokenView|
            #[trigger] stored_token_accepts(session_manager.spec_token_manager(), t, session.id, TokenType::Refresh, refresh),
        exists|t: AuthTokenView|
            #[trigger] stored_token_accepts(session_manager.spec_token_manager(), t, session.id, TokenType::Access, access),
{
    lemma_issued_secret_passes_stored_token(session_manager.spec_token_manager(), session.id, TokenType::Refresh, refresh);
    lemma_issued_secret_passes_stored_token(session_manager.spec_token_manager(), session.id, TokenType::Access, access);
}

/// With the default secret operations, a renewed access secret belongs to an access token
/// stored for the session, and passes the check against it up to its expiration.
pub proof fn lemma_renewed_access_token_passes<T: IdGenerator, V: DbHarnessSession, X: DbHarnessToken>(
    session_manager: SessionManager<T, V, X, DefaultSecretFns>,
    session_id: i64,
    access: Seq<char>,
)
    requires
        session_manager.renews_access(session_id, Ok(access)),
    ensures
        exists|t: AuthTokenView|
            #[trigger] stored_token_accepts(session_manager.spec_token_manager(), t, session_id, TokenType::Access, access),
{
    lemma_issued_secret_passes_stored_token(session_manager.spec_token_manager(), session_id, TokenType::Access, access);
}

/// With the default secret operations, the refresh and the access secret of a renewal
/// belong to tokens stored for the session, of their kinds, and pass the check against them
/// up to their expiration.
pub proof fn lemma_renewed_tokens_pass<T: IdGenerator, V: DbHarnessSession, X: DbHarnessToken>(
    session_manager: SessionManager<T, V, X, DefaultSecretFns>,
    session_id: i64,
    refresh: Seq<char>,
    access: Seq<char>,
)
    requires
        session_manager.renews(session_id, Ok((refresh, access))),
    ensures
        exists|t: AuthTokenView|
            #[trigger] stored_token_accepts(session_manager.spec_token_manager(), t, session_id, TokenType::Refresh, refresh),
        exists|t: AuthTokenView|
            #[trigger] stored_token_accepts(session_manager.spec_token_manager(), t, session_id, TokenType::Access, access),
{
    lemma_issued_secret_passes_stored_token(session_manager.spec_token_manager(), session_id, TokenType::Refresh, refresh);
    lemma_issued_secret_passes_stored_token(session_manager.spec_token_manager(), session_id, TokenType::Access, access);
}

/// A session that opening hands out is for the user and address asked for, has the signed
/// reading of an identifier the generator gave as its identifier, and comes with a refresh
/// and an access token stored for that identifier, each living the time to live of its kind.
pub proof fn lemma_opened_session_identity<T: IdGenerator, V: DbHarnessSession, X: DbHarnessToken, S: SecretFns>(
    session_manager: SessionManager<T, V, X, S>,
    user_id: i64,
    ip_addr: Option<IpAddress>,
    session: SessionView,
    refresh: Seq<char>,
    access: Seq<char>,
)
    requires
        session_manager.opens(user_id, ip_addr, Ok((session, refresh, access))),
    ensures
        session.user_id == user_id,
        session.ip_addr == ip_addr,
        exists|g: u64| #[trigger] session_manager.spec_id_generator().gives(g) && session.id == g as i64,
        exists|g: u64, salt: Seq<char>, now: Instant, t: AuthTokenView|
            #[trigger] issued_as(session_manager.spec_token_manager(), session.id, TokenType::Refresh, refresh, g, salt, now, t),
        exists|g: u64, salt: Seq<char>, now: Instant, t: AuthTokenView|
            #[trigger] issued_as(session_manager.spec_token_manager(), session.id, TokenType::Access, access, g, salt, now, t),
{
    let r = Ok::<(SessionView, Seq<char>, Seq<char>), AuthError>((session, refresh, access));
    let (id, made, stored, rr, ar) = choose|id: u64, made: Result<SessionView, AuthTokenError>, stored: Result<(), HarnessError>,
        rr: Result<Seq<char>, AuthError>, ar: Result<Seq<char>, AuthError>|
        #[trigger] session_manager.open_steps(user_id, ip_addr, id, made, stored, rr, ar, r);
    assert(session_manager.spec_id_generator().gives(id) && session.id == id as i64);
    lemma_issued_token_lifetime(session_manager.spec_token_manager(), session.id, TokenType::Refresh, refresh);
    lemma_issued_token_lifetime(session_manager.spec_token_manager(), session.id, TokenType::Access, access);
}

/// A token of a session is accepted only when the session `session_id` is stored, and a
/// token of the kind checked (the refresh token when `refresh`, else the access token) is
/// stored for that session and accepts the offered secret at a clock reading.
pub proof fn lemma_accepted_session_token_is_stored<T: IdGenerator, V: DbHarnessSession, X: DbHarnessToken, S: SecretFns>(
    session_manager: SessionManager<T, V, X, S>,
    session_id: i64,
    token: Seq<char>,
    refresh: bool,
    s: Session,
)
    requires
        session_manager.session_verified(session_id, token, refresh, Ok(s)),
    ensures
        session_manager.spec_harness().reads_session(session_id, Ok(Some(s))),
        exists|stored: AuthToken| #[trigger] session_manager.spec_token_manager().token_verdict(stored@, token, Ok(()))
            && (refresh ==> session_manager.spec_token_manager().spec_harness().reads_refresh_token(session_id, Ok(Some(stored))))
            && (!refresh ==> session_manager.spec_token_manager().spec_harness().reads_access_token(session_id, Ok(Some(stored)))),
{
    let (read, checked) = choose|read: Result<Option<Session>, HarnessError>, checked: Result<(), AuthError>|
        #[trigger] session_manager.session_check_steps(session_id, token, refresh, read, checked, Ok(s));
    let tm = session_manager.spec_token_manager();
    assert(checked == Ok::<(), AuthError>(()));
    if refresh {
        let tr = choose|tr: Result<Option<AuthToken>, HarnessError>|
            #[trigger] tm.spec_harness().reads_refresh_token(session_id, tr) && tm.lookup_verdict(tr, token, Ok(()));
        let stored = tr->Ok_0->Some_0;
        let v = choose|v: Result<(), AuthTokenError>| #[trigger] tm.token_verdict(stored@, token, v) && Ok::<(), AuthError>(()) == token_error_lift(v);
        assert(v == Ok::<(), AuthTokenError>(())) by {
            assert(v->Ok_0 == ());
        }
    } else {
        let tr = choose|tr: Result<Option<AuthToken>, HarnessError>|
            #[trigger] tm.spec_harness().reads_access_token(session_id, tr) && tm.lookup_verdict(tr, token, Ok(()));
        let stored = tr->Ok_0->Some_0;
        let v = choose|v: Result<(), AuthTokenError>| #[trigger] tm.token_verdict(stored@, token, v) && Ok::<(), AuthError>(()) == token_error_lift(v);
        assert(v == Ok::<(), AuthTokenError>(())) by {
            assert(v->Ok_0 == ());
        }
    }
}

/// A renewed access secret comes after the access tokens of the session were deleted, and
/// belongs to an access token stored for that session with the access time to live.
pub proof fn lemma_renewed_access_token_kind<T: IdGenerator, V: DbHarnessSession, X: DbHarnessToken, S: SecretFns>(
    session_manager: SessionManager<T, V, X, S>,
    session_id: i64,
    access: Seq<char>,
)
    requires
        session_manager.renews_access(session_id, Ok(access)),
    ensures
        session_manager.spec_token_manager().spec_harness().deletes_access_tokens_of(session_id, Ok::<(), HarnessError>(())),
        exists|g: u64, salt: Seq<char>, now: Instant, t: AuthTokenView|
            #[trigger] issued_as(session_manager.spec_token_manager(), session_id, TokenType::Access, access, g, salt, now, t),
{
    let (a, ar) = choose|a: Result<(), HarnessError>, ar: Result<Seq<char>, AuthError>|
        #[trigger] session_manager.renew_access_steps(session_id, a, ar, Ok(access));
    assert(a == Ok::<(), HarnessError>(())) by {
        assert(a->Ok_0 == ());
    }
    lemma_issued_token_lifetime(session_manager.spec_token_manager(), session_id, TokenType::Access, access);
}

/// A renewal of both tokens comes after the refresh and the access tokens of the session
/// were deleted; its first secret belongs to a refresh token and its second to an access
/// token, both stored for that session with the time to live of their kind.
pub proof fn lemma_renewed_tokens_kinds<T: IdGenerator, V: DbHarnessSession, X: DbHarnessToken, S: SecretFns>(
    session_manager: SessionManager<T, V, X, S>,
    session_id: i64,
    refresh: Seq<char>,
    access: Seq<char>,
)
    requires
        session_manager.renews(session_id, Ok((refresh, access))),
    ensures
        session_manager.spec_token_manager().spec_harness().deletes_refresh_tokens_of(session_id, Ok::<(), HarnessError>(())),
        session_manager.spec_token_manager().spec_harness().deletes_access_tokens_of(session_id, Ok::<(), HarnessError>(())),
        exists|g: u64, salt: Seq<char>, now: Instant, t: AuthTokenView|
            #[trigger] issued_as(session_manager.spec_token_manager(), session_id, TokenType::Refresh, refresh, g, salt, now, t),
        exists|g: u64, salt: Seq<char>, now: Instant, t: AuthTokenView|
            #[trigger] issued_as(session_manager.spec_token_manager(), session_id, TokenType::Access, access, g, salt, now, t),
{
    let (b, a, ar, rr) = choose|b: Result<(), HarnessError>, a: Result<(), HarnessError>, ar: Result<Seq<char>, AuthError>,
        rr: Result<Seq<char>, AuthError>|
        #[trigger] session_manager.renew_steps(session_id, b, a, ar, rr, Ok((refresh, access)));
    assert(b == Ok::<(), HarnessError>(())) by {
        assert(b->Ok_0 == ());
    }
    assert(a == Ok::<(), HarnessError>(())) by {
        assert(a->Ok_0 == ());
    }
    lemma_issued_token_lifetime(session_manager.spec_token_manager(), session_id, TokenType::Refresh, refresh);
    lemma_issued_token_lifetime(session_manager.spec_token_manager(), session_id, TokenType::Access, access);
}

} // verus!
