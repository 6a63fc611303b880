use vstd::prelude::*;

use crate::auth_token::{AuthToken, AuthTokenView};
use crate::session::{Session, SessionView};
use crate::user::{UserData, UserView};

verus! {

/// The kinds of database that a harness can be written for.
#[derive(Clone, Copy, Debug, PartialEq, Eq, Structural)]
pub enum Db {
    MySql,
    Postgresql,
    Sqlite,
}

/// A failure of the storage behind a harness, described by its message.
#[derive(Clone, Debug)]
pub struct HarnessError {
    message: String,
}

impl View for HarnessError {
    type V = Seq<char>;

    closed spec fn view(&self) -> Seq<char> {
        self.message@
    }
}

impl HarnessError {
    pub fn new(message: String) -> (r: Self)
        ensures
            r@ == message@,
    {
        Self { message }
    }

    /// The message of the failure.
    pub fn message(&self) -> (r: &str)
        ensures
            r@ == self@,
    {
        self.message.as_str()
    }

    /// The human readable description of the failure: `Harness Error: ` and the message.
    pub fn to_string(&self) -> (r: String)
        ensures
            r@ == "Harness Error: "@ + self@,
    {
        let mut s = "Harness Error: ".to_owned();
        s.append(self.message.as_str());
        s
    }
}

/// Wraps the message of a storage failure.
pub fn harness_error(message: String) -> (r: HarnessError)
    ensures
        r@ == message@,
{
    HarnessError::new(message)
}

/// Storage of users. Each operation comes with a predicate on its outcome, which an
/// implementation may define to say what it promises; the managers' contracts are stated
/// over these predicates.
pub trait DbHarnessUser {
    /// `create_table` may give `r`. By default nothing is promised.
    open spec fn user_table_created(&self, r: Result<(), HarnessError>) -> bool {
        true
    }

    /// `read_by_id(id)` may give `r`. By default nothing is promised.
    open spec fn reads_user_by_id(&self, id: i64, r: Result<Option<UserData>, HarnessError>) -> bool {
        true
    }

    /// `read_by_username(username)` may give `r`. By default nothing is promised.
    open spec fn reads_user_by_username(&self, username: Seq<char>, r: Result<Option<UserData>, HarnessError>) -> bool {
        true
    }

    /// `update` of `user` may give `r`. By default nothing is promised.
    open spec fn updates_user(&self, user: UserView, r: Result<(), HarnessError>) -> bool {
        true
    }

    /// `insert` of `user` may give `r`. By default nothing is promised.
    open spec fn inserts_user(&self, user: UserView, r: Result<(), HarnessError>) -> bool {
        true
    }

    /// `delete(id)` may give `r`. By default nothing is promised.
    open spec fn deletes_user(&self, id: i64, r: Result<(), HarnessError>) -> bool {
        true
    }

    /// `update_salted_hash(id, salted_hash)` may give `r`. By default nothing is promised.
    open spec fn updates_salted_hash(&self, id: i64, salted_hash: Seq<char>, r: Result<(), HarnessError>) -> bool {
        true
    }

    fn create_table(&self) -> (r: Result<(), HarnessError>)
        ensures
            self.user_table_created(r),
    ;

    fn read_by_id(&self, id: i64) -> (r: Result<Option<UserData>, HarnessError>)
        ensures
            self.reads_user_by_id(id, r),
    ;

    fn read_by_username(&self, username: &str) -> (r: Result<Option<UserData>, HarnessError>)
        ensures
            self.reads_user_by_username(username@, r),
    ;

    /// Writes the groups and the role of the user; the salted hash is left as it is.
    fn update(&self, item: &UserData) -> (r: Result<(), HarnessError>)
        ensures
            self.updates_user(item@, r),
    ;

    fn insert(&self, item: &UserData) -> (r: Result<(), HarnessError>)
        ensures
            self.inserts_user(item@, r),
    ;

    fn delete(&self, id: i64) -> (r: Result<(), HarnessError>)
        ensures
            self.deletes_user(id, r),
    ;

    /// Writes the salted hash of the user, which `update` does not.
    fn update_salted_hash(&self, id: i64, salted_hash: &str) -> (r: Result<(), HarnessError>)
        ensures
            self.updates_salted_hash(id, salted_hash@, r),
    ;

}

/// Storage of users with names, bans and failed login counts that can be written one by one.
pub trait DbHarnessUserExt: DbHarnessUser {
    /// `update_username(id, username)` may give `r`. By default nothing is promised.
    open spec fn updates_username(&self, id: i64, username: Seq<char>, r: Result<(), HarnessError>) -> bool {
        true
    }

    /// `set_ban(id, ban)` may give `r`. By default nothing is promised.
    open spec fn sets_ban(&self, id: i64, ban: bool, r: Result<(), HarnessError>) -> bool {
        true
    }

    /// `set_attempts(id, count)` may give `r`. By default nothing is promised.
    open spec fn sets_attempts(&self, id: i64, count: i64, r: Result<(), HarnessError>) -> bool {
        true
    }

    fn update_username(&self, id: i64, username: &str) -> (r: Result<(), HarnessError>)
        ensures
            self.updates_username(id, username@, r),
    ;

    fn set_ban(&self, id: i64, ban: bool) -> (r: Result<(), HarnessError>)
        ensures
            self.sets_ban(id, ban, r),
    ;

    fn set_attempts(&self, id: i64, count: i64) -> (r: Result<(), HarnessError>)
        ensures
            self.sets_attempts(id, count, r),
    ;

}

/// Storage of sessions, with a predicate on the outcome of each operation.
pub trait DbHarnessSession {
    /// `create_table` may give `r`. By default nothing is promised.
    open spec fn session_table_created(&self, r: Result<(), HarnessError>) -> bool {
        true
    }

    /// `read_by_id(id)` may give `r`. By default nothing is promised.
    open spec fn reads_session(&self, id: i64, r: Result<Option<Session>, HarnessError>) -> bool {
        true
    }

    /// `read_by_user_id(user_id)` may give `r`. By default nothing is promised.
    open spec fn reads_session_of_user(&self, user_id: i64, r: Result<Option<Session>, HarnessError>) -> bool {
        true
    }

    /// `insert` of `session` may give `r`. By default nothing is promised.
    open spec fn inserts_session(&self, session: SessionView, r: Result<(), HarnessError>) -> bool {
        true
    }

    /// `delete(id)` may give `r`. By default nothing is promised.
    open spec fn deletes_session(&self, id: i64, r: Result<(), HarnessError>) -> bool {
        true
    }

    fn create_table(&self) -> (r: Result<(), HarnessError>)
        ensures
            self.session_table_created(r),
    ;

    fn read_by_id(&self, id: i64) -> (r: Result<Option<Session>, HarnessError>)
        ensures
            self.reads_session(id, r),
    ;

    fn read_by_user_id(&self, user_id: i64) -> (r: Result<Option<Session>, HarnessError>)
        ensures
            self.reads_session_of_user(user_id, r),
    ;

    fn insert(&self, session: &Session) -> (r: Result<(), HarnessError>)
        ensures
            self.inserts_session(session@, r),
    ;

    fn delete(&self, id: i64) -> (r: Result<(), HarnessError>)
        ensures
            self.deletes_session(id, r),
    ;

}

/// Storage of access and refresh tokens, with a predicate on the outcome of each operation.
pub trait DbHarnessToken {
    /// `create_table` may give `r`. By default nothing is promised.
    open spec fn token_tables_created(&self, r: Result<(), HarnessError>) -> bool {
        true
    }

    /// `insert` of `token` may give `r`. By default nothing is promised.
    open spec fn inserts_token(&self, token: AuthTokenView, r: Result<(), HarnessError>) -> bool {
        true
    }

    /// `delete_access_token(id)` may give `r`. By default nothing is promised.
    open spec fn deletes_access_token(&self, id: i64, r: Result<(), HarnessError>) -> bool {
        true
    }

    /// `delete_access_token_by_session(session_id)` may give `r`. By default nothing is promised.
    open spec fn deletes_access_tokens_of(&self, session_id: i64, r: Result<(), HarnessError>) -> bool {
        true
    }

    /// `delete_resfresh_token(id)` may give `r`. By default nothing is promised.
    open spec fn deletes_refresh_token(&self, id: i64, r: Result<(), HarnessError>) -> bool {
        true
    }

    /// `delete_refresh_token_by_session(session_id)` may give `r`. By default nothing is promised.
    open spec fn deletes_refresh_tokens_of(&self, session_id: i64, r: Result<(), HarnessError>) -> bool {
        true
    }

    /// `read_refresh_token(session_id)` may give `r`. By default nothing is promised.
    open spec fn reads_refresh_token(&self, session_id: i64, r: Result<Option<AuthToken>, HarnessError>) -> bool {
        true
    }

    /// `read_access_token(session_id)` may give `r`. By default nothing is promised.
    open spec fn reads_access_token(&self, session_id: i64, r: Result<Option<AuthToken>, HarnessError>) -> bool {
        true
    }

    fn create_table(&self) -> (r: Result<(), HarnessError>)
        ensures
            self.token_tables_created(r),
    ;

    fn insert(&self, token: &AuthToken) -> (r: Result<(), HarnessError>)
        ensures
            self.inserts_token(token@, r),
    ;

    fn delete_access_token(&self, id: i64) -> (r: Result<(), HarnessError>)
        ensures
            self.deletes_access_token(id, r),
    ;

    fn delete_access_token_by_session(&self, session_id: i64) -> (r: Result<(), HarnessError>)
        ensures
            self.deletes_access_tokens_of(session_id, r),
    ;

    fn delete_resfresh_token(&self, id: i64) -> (r: Result<(), HarnessError>)
        ensures
            self.deletes_refresh_token(id, r),
    ;

    fn delete_refresh_token_by_session(&self, session_id: i64) -> (r: Result<(), HarnessError>)
        ensures
            self.deletes_refresh_tokens_of(session_id, r),
    ;

    fn read_refresh_token(&self, session_id: i64) -> (r: Result<Option<AuthToken>, HarnessError>)
        ensures
            self.reads_refresh_token(session_id, r),
    ;

    fn read_access_token(&self, session_id: i64) -> (r: Result<Option<AuthToken>, HarnessError>)
        ensures
            self.reads_access_token(session_id, r),
    ;

}

/// The three stores a setup works with.
pub struct DbHarness<T, U, V> where T: DbHarnessUser, U: DbHarnessSession, V: DbHarnessToken {
    pub user: T,
    pub session: U,
    pub token: V,
}

impl<T, U, V> DbHarness<T, U, V> where T: DbHarnessUser, U: DbHarnessSession, V: DbHarnessToken {
    pub fn new_custom(user: T, session: U, token: V) -> (r: Self)
        ensures
            r.user == user,
            r.session == session,
            r.token == token,
    {
        Self { user, session, token }
    }

    /// What `init` gives when creating the token tables gave `tr`, the session table `sr`
    /// and the user table `ur`: the first failure, or the stores themselves.
    pub open spec fn init_steps(
        self,
        tr: Result<(), HarnessError>,
        sr: Result<(), HarnessError>,
        ur: Result<(), HarnessError>,
        r: Result<Self, HarnessError>,
    ) -> bool {
        &&& self.token.token_tables_created(tr)
        &&& match tr {
            Err(e) => r == Err::<Self, HarnessError>(e),
            Ok(()) => {
                &&& self.session.session_table_created(sr)
                &&& match sr {
                    Err(e) => r == Err::<Self, HarnessError>(e),
                    Ok(()) => {
                        &&& self.user.user_table_created(ur)
                        &&& match ur {
                            Err(e) => r == Err::<Self, HarnessError>(e),
                            Ok(()) => r == Ok::<Self, HarnessError>(self),
                        }
                    },
                }
            },
        }
    }

    /// Creates the token tables, then the session table, then the user table, and hands
    /// the stores back; the first failure is returned.
    pub fn init(self) -> (r: Result<Self, HarnessError>)
        ensures
            r matches Ok(h) ==> h == self,
            exists|tr: Result<(), HarnessError>, sr: Result<(), HarnessError>, ur: Result<(), HarnessError>|
                #[trigger] self.init_steps(tr, sr, ur, r),
    {
        let ghost original = self;
        let tr = self.token.create_table();
        match tr {
            Ok(()) => {},
            Err(e) => {
                assert(original.init_steps(tr, Ok(()), Ok(()), Err(e)));
                return Err(e);
            },
        }
        let sr = self.session.create_table();
        match sr {
            Ok(()) => {},
            Err(e) => {
                assert(original.init_steps(tr, sr, Ok(()), Err(e)));
                return Err(e);
            },
        }
        let ur = self.user.create_table();
        match ur {
            Ok(()) => {},
            Err(e) => {
                assert(original.init_steps(tr, sr, ur, Err(e)));
                return Err(e);
            },
        }
        assert(original.init_steps(tr, sr, ur, Ok(self)));
        Ok(self)
    }
}

impl<T> DbHarness<T, StatelessSession, StatelessToken> where T: DbHarnessUser {
    /// Stores users in `user_manager`, and keeps no session and no token.
    pub fn new_stateless(user_manager: T) -> (r: Self)
        ensures
            r.user == user_manager,
    {
        DbHarness { user: user_manager, session: StatelessSession, token: StatelessToken }
    }
}

/// A session store that keeps nothing: writes succeed and reads find nothing.
/// For authentication that is done again on each connection.
#[derive(Clone, Copy, Debug)]
pub struct StatelessSession;

impl DbHarnessSession for StatelessSession {
    open spec fn session_table_created(&self, r: Result<(), HarnessError>) -> bool {
        r is Ok
    }

    open spec fn reads_session(&self, id: i64, r: Result<Option<Session>, HarnessError>) -> bool {
        r == Ok::<Option<Session>, HarnessError>(None)
    }

    open spec fn reads_session_of_user(&self, user_id: i64, r: Result<Option<Session>, HarnessError>) -> bool {
        r == Ok::<Option<Session>, HarnessError>(None)
    }

    open spec fn inserts_session(&self, session: SessionView, r: Result<(), HarnessError>) -> bool {
        r is Ok
    }

    open spec fn deletes_session(&self, id: i64, r: Result<(), HarnessError>) -> bool {
        r is Ok
    }

    fn create_table(&self) -> (r: Result<(), HarnessError>)
        ensures
            r is Ok,
    {
        Ok(())
    }

    fn read_by_id(&self, _id: i64) -> (r: Result<Option<Session>, HarnessError>)
        ensures
            r matches Ok(found) && found is None,
    {
        Ok(None)
    }

    fn read_by_user_id(&self, _user_id: i64) -> (r: Result<Option<Session>, HarnessError>)
        ensures
            r matches Ok(found) && found is None,
    {
        Ok(None)
    }

    fn insert(&self, _session: &Session) -> (r: Result<(), HarnessError>)
        ensures
            r is Ok,
    {
        Ok(())
    }

    fn delete(&self, _id: i64) -> (r: Result<(), HarnessError>)
        ensures
            r is Ok,
    {
        Ok(())
    }
}

/// A token store that keeps nothing: writes succeed and reads find nothing.
#[derive(Clone, Copy, Debug)]
pub struct StatelessToken;

impl DbHarnessToken for StatelessToken {
    open spec fn token_tables_created(&self, r: Result<(), HarnessError>) -> bool {
        r is Ok
    }

    open spec fn inserts_token(&self, token: AuthTokenView, r: Result<(), HarnessError>) -> bool {
        r is Ok
    }

    open spec fn deletes_access_token(&self, id: i64, r: Result<(), HarnessError>) -> bool {
        r is Ok
    }

    open spec fn deletes_access_tokens_of(&self, session_id: i64, r: Result<(), HarnessError>) -> bool {
        r is Ok
    }

    open spec fn deletes_refresh_token(&self, id: i64, r: Result<(), HarnessError>) -> bool {
        r is Ok
    }

    open spec fn deletes_refresh_tokens_of(&self, session_id: i64, r: Result<(), HarnessError>) -> bool {
        r is Ok
    }

    open spec fn reads_refresh_token(&self, session_id: i64, r: Result<Option<AuthToken>, HarnessError>) -> bool {
        r == Ok::<Option<AuthToken>, HarnessError>(None)
    }

    open spec fn reads_access_token(&self, session_id: i64, r: Result<Option<AuthToken>, HarnessError>) -> bool {
        r == Ok::<Option<AuthToken>, HarnessError>(None)
    }

    fn create_table(&self) -> (r: Result<(), HarnessError>)
        ensures
            r is Ok,
    {
        Ok(())
    }

    fn insert(&self, _token: &AuthToken) -> (r: Result<(), HarnessError>)
        ensures
            r is Ok,
    {
        Ok(())
    }

    fn delete_access_token(&self, _id: i64) -> (r: Result<(), HarnessError>)
        ensures
            r is Ok,
    {
        Ok(())
    }

    fn delete_access_token_by_session(&self, _session_id: i64) -> (r: Result<(), HarnessError>)
        ensures
            r is Ok,
    {
        Ok(())
    }

    fn delete_resfresh_token(&self, _id: i64) -> (r: Result<(), HarnessError>)
        ensures
            r is Ok,
    {
        Ok(())
    }

    fn delete_refresh_token_by_session(&self, _session_id: i64) -> (r: Result<(), HarnessError>)
        ensures
            r is Ok,
    {
        Ok(())
    }

    fn read_refresh_token(&self, _session_id: i64) -> (r: Result<Option<AuthToken>, HarnessError>)
        ensures
            r matches Ok(found) && found is None,
    {
        Ok(None)
    }

    fn read_access_token(&self, _session_id: i64) -> (r: Result<Option<AuthToken>, HarnessError>)
        ensures
            r matches Ok(found) && found is None,
    {
        Ok(None)
    }
}

} // verus!
