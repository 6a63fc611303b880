use sheesh::auth_token::{
    token_lookup, AccessTokenSecret, AuthToken, AuthTokenManagerConfig, RefreshTokenSecret, TokenType,
    DEFAULT_ACCESS_TTL,
};
use sheesh::harness::{
    harness_error, Db, DbHarness, DbHarnessSession, DbHarnessToken, DbHarnessUser, HarnessError, StatelessSession,
    StatelessToken,
};
use sheesh::id::{signed_id, DefaultIdGenerator, IdGenerator, ZerodIdGenerator};
use sheesh::session::{session_lookup, IpAddress, Session, SessionManagerConfig};
use sheesh::time::{expiration_from, UtcDateTime};
use sheesh::user::{user_lookup, Role, UserData};
use sheesh::{AuthError, AuthTokenErrorKind};

fn at(secs: i64) -> UtcDateTime {
    UtcDateTime::from_timestamp(secs, 0).unwrap()
}

#[test]
fn session_opened_at_with_and_without_ttl() {
    let now = at(1704110400);
    let ip = Some(IpAddress::V4(127, 0, 0, 1));
    let s = Session::opened_at(5, 9, ip, Some(30), &now, at(1704110401)).unwrap();
    assert_eq!(s.id(), 5);
    assert_eq!(s.user_id(), 9);
    assert_eq!(s.ip_addr(), ip);
    assert_eq!(s.created_at(), at(1704110401));
    assert_eq!(s.expires().timestamp(), 1704112200);
    let forever = Session::opened_at(5, 9, None, None, &now, now).unwrap();
    assert_eq!(forever.expires(), UtcDateTime::max_utc());
    let err = Session::opened_at(5, 9, None, Some(-30), &at(1704067800), now).unwrap_err();
    assert_eq!(err.kind, AuthTokenErrorKind::DateTime);
}

#[test]
fn session_new_and_stateless() {
    let s = Session::new(1, 2, None, None).unwrap();
    assert_eq!(s.expires(), UtcDateTime::max_utc());
    assert!(!chrono_now().is_after(&s.expires()));
    assert!(s.created_at().timestamp() > 1_600_000_000);
    let st = Session::stateless();
    assert_eq!((st.id(), st.user_id(), st.ip_addr()), (0, 0, None));
    assert_eq!(st.expires(), UtcDateTime::max_utc());
    assert!(st.created_at().timestamp() > 1_600_000_000);
    let timed = Session::new(1, 2, Some(IpAddress::V6(0, 0, 0, 0, 0, 0, 0, 1)), Some(0)).unwrap();
    assert!(timed.expires().timestamp() > 1_600_000_000);
    let v = Session::from_values(3, 4, None, at(10), at(20));
    assert_eq!((v.id(), v.user_id(), v.created_at(), v.expires()), (3, 4, at(10), at(20)));
}

fn chrono_now() -> UtcDateTime {
    let n = chrono::Utc::now();
    UtcDateTime::from_timestamp(n.timestamp(), n.timestamp_subsec_nanos()).unwrap()
}

#[test]
fn auth_token_expiring_and_expired() {
    let now = at(1704110400);
    let t = AuthToken::expiring(1, 2, "hash".to_string(), TokenType::Access, 30, &now).unwrap();
    assert_eq!((t.id(), t.session_id(), t.salted_hash(), t.token_type()), (1, 2, "hash", TokenType::Access));
    assert_eq!(t.expires().timestamp(), 1704112200);
    assert!(!t.is_expired_at(&at(1704112200)));
    assert!(t.is_expired_at(&UtcDateTime::from_timestamp(1704112200, 1).unwrap()));
    assert!(t.is_expired_at(&at(1704112300)));
    let old = AuthToken::from_values(1, 2, "h".to_string(), TokenType::Refresh, at(0));
    assert!(old.is_expired());
    let fresh = AuthToken::new_access(3, 4, "h".to_string(), 30).unwrap();
    assert!(!fresh.is_expired());
    assert_eq!(fresh.token_type(), TokenType::Access);
    let refresh = AuthToken::new_refresh(3, 4, "h".to_string(), 60).unwrap();
    assert_eq!(refresh.token_type(), TokenType::Refresh);
    assert!(refresh.expires().is_after(&chrono_now()) || refresh.expires().timestamp() > 1_600_000_000);
    let err = AuthToken::expiring(1, 2, "h".to_string(), TokenType::Refresh, -30, &at(1704067800)).unwrap_err();
    assert_eq!(err.kind, AuthTokenErrorKind::DateTime);
    assert_eq!(expiration_from(&now, 30).unwrap(), t.expires());
}

#[test]
fn lookups() {
    let token = AuthToken::from_values(1, 2, "h".to_string(), TokenType::Access, at(0));
    assert_eq!(token_lookup(Ok(Some(token))).unwrap().id(), 1);
    assert!(matches!(token_lookup(Ok(None)), Err(AuthError::Token(e)) if e.kind == AuthTokenErrorKind::NotAuthorized));
    assert!(matches!(token_lookup(Err(harness_error("down".to_string()))), Err(AuthError::Harness(e)) if e.message() == "down"));
    let s = Session::from_values(3, 4, None, at(1), at(2));
    assert_eq!(session_lookup(Ok(Some(s))).unwrap(), s);
    assert!(matches!(session_lookup(Ok(None)), Err(AuthError::Token(e)) if e.kind == AuthTokenErrorKind::NotAuthorized));
    assert!(matches!(session_lookup(Err(HarnessError::new("x".to_string()))), Err(AuthError::Harness(_))));
    let u = UserData::new(1, "n".to_string(), "h".to_string(), Role::from_str("r"));
    assert_eq!(user_lookup(Ok(Some(u))).unwrap().username(), "n");
    assert!(matches!(user_lookup(Ok(None)), Err(AuthError::UserNotFound)));
    assert!(matches!(user_lookup(Err(AuthError::UserNotFound)), Err(AuthError::UserNotFound)));
}

#[test]
fn stateless_stores_keep_nothing() {
    let s = StatelessSession;
    assert!(DbHarnessSession::create_table(&s).is_ok());
    assert!(DbHarnessSession::insert(&s, &Session::stateless()).is_ok());
    assert!(DbHarnessSession::read_by_id(&s, 0).unwrap().is_none());
    assert!(s.read_by_user_id(0).unwrap().is_none());
    assert!(DbHarnessSession::delete(&s, 0).is_ok());
    let t = StatelessToken;
    let token = AuthToken::from_values(1, 2, "h".to_string(), TokenType::Access, at(0));
    assert!(DbHarnessToken::insert(&t, &token).is_ok());
    assert!(t.read_access_token(2).unwrap().is_none());
    assert!(t.read_refresh_token(2).unwrap().is_none());
    assert!(t.delete_access_token(1).is_ok());
    assert!(t.delete_access_token_by_session(2).is_ok());
    assert!(t.delete_resfresh_token(1).is_ok());
    assert!(t.delete_refresh_token_by_session(2).is_ok());
}

struct FailingUsers;

impl DbHarnessUser for FailingUsers {
    fn create_table(&self) -> Result<(), HarnessError> {
        Err(HarnessError::new("no user table".to_string()))
    }
    fn read_by_id(&self, _: i64) -> Result<Option<UserData>, HarnessError> {
        Ok(None)
    }
    fn read_by_username(&self, _: &str) -> Result<Option<UserData>, HarnessError> {
        Ok(None)
    }
    fn update(&self, _: &UserData) -> Result<(), HarnessError> {
        Ok(())
    }
    fn insert(&self, _: &UserData) -> Result<(), HarnessError> {
        Ok(())
    }
    fn delete(&self, _: i64) -> Result<(), HarnessError> {
        Ok(())
    }
    fn update_salted_hash(&self, _: i64, _: &str) -> Result<(), HarnessError> {
        Ok(())
    }
}

#[test]
fn harness_init_reports_the_first_failure() {
    let h = DbHarness::new_stateless(FailingUsers);
    match h.init() {
        Err(e) => assert_eq!(e.message(), "no user table"),
        Ok(_) => panic!("the user table could not be made"),
    }
    let h = DbHarness::new_custom(FailingUsers, StatelessSession, StatelessToken);
    assert!(h.init().is_err());
    assert_ne!(Db::Sqlite, Db::MySql);
    assert_eq!(Db::Postgresql, Db::Postgresql);
}

#[test]
fn identifiers() {
    assert_eq!(ZerodIdGenerator {}.new_u64(), 0);
    let g = DefaultIdGenerator {};
    assert_ne!(g.new_u64(), g.new_u64());
    assert_eq!(signed_id(0), 0);
    assert_eq!(signed_id(u64::MAX), -1);
    assert_eq!(signed_id(1 << 63), i64::MIN);
    assert_eq!(signed_id(42), i64::from_be_bytes(42u64.to_be_bytes()));
}

#[test]
fn config_times_to_live() {
    let mut config = AuthTokenManagerConfig::new(ZerodIdGenerator {}, sheesh::secret::StatelessSecretFns {});
    config.set_access_ttl(5);
    config.set_refresh_ttl(6);
    let session_manager = SessionManagerConfig::new(Some(1), ZerodIdGenerator {}, config).init(StatelessSession, StatelessToken);
    let (session, refresh, access) = session_manager.new_session(7, None).unwrap();
    assert_eq!(session.user_id(), 7);
    assert_eq!(session.id(), 0);
    assert_eq!(refresh.as_str(), "");
    assert_eq!(access.as_str(), "");
    assert!(session.expires().timestamp() > 1_600_000_000);
    let _default = AuthTokenManagerConfig::default();
    let _stateless = AuthTokenManagerConfig::new_stateless();
    assert_eq!(DEFAULT_ACCESS_TTL, 30);
}

#[test]
fn secrets_keep_their_text() {
    let manager = AuthTokenManagerConfig::new_stateless().init(StatelessToken);
    let secret = manager.next_token(1, TokenType::Access).unwrap();
    let access: AccessTokenSecret = secret.into();
    assert_eq!(access.secret(), "");
    let secret = manager.next_token(1, TokenType::Refresh).unwrap();
    let refresh: RefreshTokenSecret = RefreshTokenSecret::from(secret);
    assert_eq!(refresh.secret(), "");
    assert!(matches!(manager.verify_access_token(1, ""), Err(AuthError::Token(e)) if e.kind == AuthTokenErrorKind::NotAuthorized));
    let expired = AuthToken::from_values(1, 2, "h".to_string(), TokenType::Access, at(0));
    assert_eq!(manager.verify_token(expired, "").unwrap_err().kind, AuthTokenErrorKind::Expired);
    let live = AuthToken::from_values(1, 2, "h".to_string(), TokenType::Access, UtcDateTime::max_utc());
    assert!(manager.verify_token(live, "anything").is_ok());
}

#[test]
fn harness_error_text() {
    let e = HarnessError::new("disk full".to_string());
    assert_eq!(e.to_string(), "Harness Error: disk full");
    assert_eq!(harness_error("x".to_string()).to_string(), "Harness Error: x");
}
