use vstd::prelude::*;
use vstd::std_specs::iter::IteratorSpec;

use crate::auth_token::{AccessToken, RefreshToken};
use crate::group_text::{decode_names, encode_names, escape_char, escape_name, read_run, read_start};
use crate::errors::{harness_result, AuthError, AuthTokenError};
use crate::harness::{DbHarnessSession, DbHarnessToken, DbHarnessUser, DbHarnessUserExt, HarnessError};
use crate::id::{id_bits, signed_id, DefaultIdGenerator, IdGenerator};
use crate::secret::{string_result, DefaultSecretFns, SecretFns};
use crate::session::{opened_view, session_expiration, IpAddress, Session, SessionManager, SessionView};
use crate::time::Instant;

verus! {

/// A role that a user holds, by name.
#[derive(Clone, Debug)]
pub struct Role {
    pub name: String,
}

impl View for Role {
    type V = Seq<char>;

    open spec fn view(&self) -> Seq<char> {
        self.name@
    }
}

impl PartialEq for Role {
    fn eq(&self, other: &Self) -> (r: bool) {
        self.name == other.name
    }
}

impl vstd::std_specs::cmp::PartialEqSpecImpl for Role {
    open spec fn obeys_eq_spec() -> bool {
        true
    }

    open spec fn eq_spec(&self, other: &Self) -> bool {
        self@ == other@
    }
}

impl Role {
    pub fn from_string(name: String) -> (r: Self)
        ensures
            r@ == name@,
    {
        Self { name }
    }

    pub fn from_str(name: &str) -> (r: Self)
        ensures
            r@ == name@,
    {
        Self { name: name.to_owned() }
    }

    pub fn as_str(&self) -> (r: &str)
        ensures
            r@ == self@,
    {
        self.name.as_str()
    }
}

/// A group that a user belongs to, by name.
#[derive(Clone, Debug)]
pub struct Group {
    name: String,
}

impl View for Group {
    type V = Seq<char>;

    closed spec fn view(&self) -> Seq<char> {
        self.name@
    }
}

impl PartialEq for Group {
    fn eq(&self, other: &Self) -> (r: bool) {
        self.name == other.name
    }
}

impl vstd::std_specs::cmp::PartialEqSpecImpl for Group {
    open spec fn obeys_eq_spec() -> bool {
        true
    }

    open spec fn eq_spec(&self, other: &Self) -> bool {
        self@ == other@
    }
}

impl Group {
    pub fn from_string(name: String) -> (r: Self)
        ensures
            r@ == name@,
    {
        Self { name }
    }

    pub fn from_str(name: &str) -> (r: Self)
        ensures
            r@ == name@,
    {
        Self { name: name.to_owned() }
    }

    pub fn as_str(&self) -> (r: &str)
        ensures
            r@ == self@,
    {
        self.name.as_str()
    }
}

/// The names of `groups`, in order.
pub open spec fn group_names(groups: Seq<Group>) -> Seq<Seq<char>> {
    groups.map_values(|g: Group| g@)
}

/// The names in `names` written one after the other.
pub open spec fn concat_names(names: Seq<Seq<char>>) -> Seq<char>
    decreases names.len(),
{
    if names.len() == 0 {
        Seq::empty()
    } else {
        concat_names(names.drop_last()) + names.last()
    }
}

/// The names `names` after adding `name`: unchanged when it is there, else with `name`
/// at the end.
pub open spec fn with_group(names: Seq<Seq<char>>, name: Seq<char>) -> Seq<Seq<char>> {
    if names.contains(name) {
        names
    } else {
        names.push(name)
    }
}

/// No name occurs twice.
pub open spec fn distinct_names(names: Seq<Seq<char>>) -> bool {
    forall|i: int, j: int| 0 <= i < names.len() && 0 <= j < names.len() && i != j ==> names[i] != names[j]
}

/// The view of groups is the names of its groups, in order.
pub proof fn lemma_groups_view_is_item_names(groups: Groups)
    ensures
        groups@ == group_names(groups.items()),
{
}

/// After a group is added, it is among the groups.
pub proof fn lemma_added_group_is_present(names: Seq<Seq<char>>, name: Seq<char>)
    ensures
        with_group(names, name).contains(name),
{
    if !names.contains(name) {
        assert(names.push(name)[names.len() as int] == name);
    }
}

/// Adding a group a second time changes nothing.
pub proof fn lemma_add_group_idempotent(names: Seq<Seq<char>>, name: Seq<char>)
    ensures
        with_group(with_group(names, name), name) == with_group(names, name),
{
    lemma_added_group_is_present(names, name);
}

/// Adding groups never makes a name occur twice.
pub proof fn lemma_add_group_keeps_names_distinct(names: Seq<Seq<char>>, name: Seq<char>)
    requires
        distinct_names(names),
    ensures
        distinct_names(with_group(names, name)),
{
    if !names.contains(name) {
        let r = names.push(name);
        assert forall|i: int, j: int| 0 <= i < r.len() && 0 <= j < r.len() && i != j implies r[i] != r[j] by {
            if i == names.len() {
                assert(r[j] == names[j]);
            } else if j == names.len() {
                assert(r[i] == names[i]);
            }
        }
    }
}

/// Adding a group keeps the others, in their order, before it.
pub proof fn lemma_add_group_keeps_order(names: Seq<Seq<char>>, name: Seq<char>)
    ensures
        with_group(names, name).take(names.len() as int) == names,
{
    assert(with_group(names, name).take(names.len() as int) =~= names);
}

/// The text of the groups grows by the name of a group added at the end.
pub proof fn lemma_concat_names_push(names: Seq<Seq<char>>, name: Seq<char>)
    ensures
        concat_names(names.push(name)) == concat_names(names) + name,
{
    assert(names.push(name).drop_last() =~= names);
}

impl IntoIterator for Groups {
    type Item = Group;
    type IntoIter = std::vec::IntoIter<Group>;

    fn into_iter(self) -> (r: Self::IntoIter)
        ensures
            IteratorSpec::remaining(&r) == self.items(),
            group_names(IteratorSpec::remaining(&r)) == self@,
    {
        broadcast use vstd::std_specs::vec::axiom_spec_into_iter;
        self.groups.into_iter()
    }
}

/// The groups of a user, in the order they were added.
#[derive(Clone, Debug)]
pub struct Groups {
    groups: Vec<Group>,
}

impl View for Groups {
    type V = Seq<Seq<char>>;

    closed spec fn view(&self) -> Seq<Seq<char>> {
        group_names(self.groups@)
    }
}

impl Groups {
    /// The groups themselves, in order; the view holds their names.
    pub closed spec fn items(&self) -> Seq<Group> {
        self.groups@
    }

    pub fn new() -> (r: Self)
        ensures
            r@ == Seq::<Seq<char>>::empty(),
            r.items() == Seq::<Group>::empty(),
    {
        Self { groups: Vec::new() }
    }

    pub fn from_vec(groups: Vec<Group>) -> (r: Self)
        ensures
            r.items() == groups@,
            r@ == group_names(groups@),
    {
        Self { groups }
    }

    /// Whether a group of the same name is among these groups.
    pub fn contains(&self, group: Group) -> (r: bool)
        ensures
            r == self@.contains(group@),
    {
        let n = self.groups.len();
        for i in 0..n
            invariant
                n == self.groups@.len(),
                forall|j: int| 0 <= j < i ==> self@[j] != group@,
        {
            if self.groups[i] == group {
                assert(self@[i as int] == group@);
                return true;
            }
        }
        false
    }

    /// Adds `group` at the end, unless a group of the same name is already there.
    pub fn add_group(&mut self, group: Group)
        ensures
            final(self)@ == with_group(old(self)@, group@),
    {
        let n = self.groups.len();
        for i in 0..n
            invariant
                n == self.groups@.len(),
                self@ == old(self)@,
                forall|j: int| 0 <= j < i ==> self@[j] != group@,
        {
            if self.groups[i] == group {
                assert(self@[i as int] == group@);
                return;
            }
        }
        let ghost before = self.groups@;
        self.groups.push(group);
        assert(group_names(self.groups@) =~= group_names(before).push(group@));
    }

    /// Looks for `group` and leaves the groups as they are once it is found. The group must
    /// be present: past the end there is nothing to remove, and removing there panics.
    pub fn remove_group(&mut self, group: Group)
        requires
            old(self)@.contains(group@),
        ensures
            final(self)@ == old(self)@,
    {
        let n = self.groups.len();
        let mut idx: usize = 0;
        for i in 0..n
            invariant
                n == self.groups@.len(),
                idx == i,
                forall|j: int| 0 <= j < i ==> self@[j] != group@,
        {
            if self.groups[i] == group {
                return;
            }
            idx += 1;
        }
        assert(false);
        self.groups.remove(idx);
    }

    /// The names of the groups written one after the other.
    pub fn to_string(&self) -> (r: String)
        ensures
            r@ == concat_names(self@),
    {
        let mut string = String::new();
        let n = self.groups.len();
        for i in 0..n
            invariant
                n == self.groups@.len(),
                string@ == concat_names(self@.take(i as int)),
        {
            assert(self@.take(i + 1).drop_last() =~= self@.take(i as int));
            string.append(self.groups[i].as_str());
        }
        assert(self@.take(n as int) =~= self@);
        string
    }

    /// The text in which the groups are stored: each name, with `,` and `\` escaped by a
    /// `\`, followed by a `,`.
    pub fn to_text(&self) -> (r: String)
        ensures
            r@ == encode_names(self@),
    {
        let mut text = String::new();
        let n = self.groups.len();
        for i in 0..n
            invariant
                n == self.groups@.len(),
                text@ == encode_names(self@.take(i as int)),
        {
            let name = self.groups[i].as_str();
            let len = name.unicode_len();
            let ghost before = text@;
            for j in 0..len
                invariant
                    len == name@.len(),
                    text@ == before + escape_name(name@.take(j as int)),
            {
                let c = name.get_char(j);
                let ghost written = text@;
                proof {
                    reveal_strlit("\\,");
                    reveal_strlit("\\\\");
                    assert(name@.take(j + 1).drop_last() =~= name@.take(j as int));
                }
                if c == ',' {
                    text.append("\\,");
                } else if c == '\\' {
                    text.append("\\\\");
                } else {
                    text.append(name.substring_char(j, j + 1));
                }
                assert(text@ =~= written + escape_char(c));
            }
            proof {
                reveal_strlit(",");
                assert(name@.take(len as int) =~= name@);
                assert(self@.take(i + 1).drop_last() =~= self@.take(i as int));
                assert(self@[i as int] == name@);
            }
            text.append(",");
            assert(text@ =~= encode_names(self@.take(i + 1)));
        }
        assert(self@.take(n as int) =~= self@);
        text
    }

    /// The groups that `text` holds, read as `to_text` writes them; `None` where the text
    /// ends inside a name or after an escaping `\`.
    pub fn from_text(text: &str) -> (r: Option<Groups>)
        ensures
            match decode_names(text@) {
                Some(names) => r matches Some(g) && g@ == names,
                None => r is None,
            },
    {
        let len = text.unicode_len();
        let mut groups: Vec<Group> = Vec::new();
        let mut cur = String::new();
        let mut escaped = false;
        for i in 0..len
            invariant
                len == text@.len(),
                (group_names(groups@), cur@, escaped) == read_run(read_start(), text@.take(i as int)),
        {
            let c = text.get_char(i);
            proof {
                assert(text@.take(i + 1).drop_last() =~= text@.take(i as int));
            }
            if escaped {
                cur.append(text.substring_char(i, i + 1));
                escaped = false;
            } else if c == '\\' {
                escaped = true;
            } else if c == ',' {
                let ghost before = groups@;
                groups.push(Group::from_string(cur));
                cur = String::new();
                assert(group_names(groups@) =~= group_names(before).push(group_names(groups@).last()));
            } else {
                cur.append(text.substring_char(i, i + 1));
            }
        }
        assert(text@.take(len as int) =~= text@);
        if cur.as_str().is_empty() && !escaped {
            Some(Groups { groups })
        } else {
            None
        }
    }
}

impl PartialEq for Groups {
    fn eq(&self, other: &Self) -> (r: bool) {
        let n = self.groups.len();
        if n != other.groups.len() {
            assert(self@.len() != other@.len());
            return false;
        }
        for i in 0..n
            invariant
                n == self.groups@.len(),
                n == other.groups@.len(),
                forall|j: int| 0 <= j < i ==> self@[j] == other@[j],
        {
            if !(self.groups[i] == other.groups[i]) {
                assert(self@[i as int] != other@[i as int]);
                return false;
            }
        }
        assert(self@ =~= other@);
        true
    }
}

impl vstd::std_specs::cmp::PartialEqSpecImpl for Groups {
    open spec fn obeys_eq_spec() -> bool {
        true
    }

    open spec fn eq_spec(&self, other: &Self) -> bool {
        self@ == other@
    }
}

/// What a user record holds, as plain values.
pub struct UserView {
    pub id: i64,
    pub username: Seq<char>,
    pub salted_hash: Seq<char>,
    pub is_banned: bool,
    pub groups: Seq<Seq<char>>,
    pub role: Seq<char>,
    pub failed_attempts: i64,
}

/// A user: a unique name, the salted hash of the password, a ban flag, groups, a role
/// and the count of failed logins.
#[derive(Clone, Debug)]
pub struct UserData {
    id: i64,
    username: String,
    salted_hash: String,
    is_banned: bool,
    groups: Groups,
    role: Role,
    failed_attempts: i64,
}

impl View for UserData {
    type V = UserView;

    closed spec fn view(&self) -> UserView {
        UserView {
            id: self.id,
            username: self.username@,
            salted_hash: self.salted_hash@,
            is_banned: self.is_banned,
            groups: self.groups@,
            role: self.role@,
            failed_attempts: self.failed_attempts,
        }
    }
}

impl UserData {
    /// A new user, not banned, in no group and with no failed login.
    pub fn new(id: i64, username: String, salted_hash: String, role: Role) -> (r: Self)
        ensures
            r@.id == id,
            r@.username == username@,
            r@.salted_hash == salted_hash@,
            !r@.is_banned,
            r@.groups == Seq::<Seq<char>>::empty(),
            r@.role == role@,
            r@.failed_attempts == 0,
    {
        Self {
            id,
            username,
            salted_hash,
            is_banned: false,
            groups: Groups::new(),
            role,
            failed_attempts: 0,
        }
    }

    /// A user with every field given.
    pub fn from_values(
        id: i64,
        username: String,
        salted_hash: String,
        is_banned: bool,
        groups: Groups,
        role: Role,
        failed_attempts: i64,
    ) -> (r: Self)
        ensures
            r@.id == id,
            r@.username == username@,
            r@.salted_hash == salted_hash@,
            r@.is_banned == is_banned,
            r@.groups == groups@,
            r@.role == role@,
            r@.failed_attempts == failed_attempts,
    {
        Self { id, username, salted_hash, is_banned, groups, role, failed_attempts }
    }

    pub fn id(&self) -> (r: i64)
        ensures
            r == self@.id,
    {
        self.id
    }

    pub fn username(&self) -> (r: &str)
        ensures
            r@ == self@.username,
    {
        self.username.as_str()
    }

    pub fn set_username(&mut self, username: String)
        ensures
            final(self)@ == (UserView { username: username@, ..old(self)@ }),
    {
        self.username = username;
    }

    pub fn salted_hash(&self) -> (r: &str)
        ensures
            r@ == self@.salted_hash,
    {
        self.salted_hash.as_str()
    }

    pub(crate) fn set_salted_hash(&mut self, salted_hash: String)
        ensures
            final(self)@ == (UserView { salted_hash: salted_hash@, ..old(self)@ }),
    {
        self.salted_hash = salted_hash;
    }

    pub fn is_banned(&self) -> (r: bool)
        ensures
            r == self@.is_banned,
    {
        self.is_banned
    }

    pub fn set_ban(&mut self, ban: bool)
        ensures
            final(self)@ == (UserView { is_banned: ban, ..old(self)@ }),
    {
        self.is_banned = ban;
    }

    pub fn groups(&self) -> (r: &Groups)
        ensures
            r@ == self@.groups,
    {
        &self.groups
    }

    pub fn role(&self) -> (r: &Role)
        ensures
            r@ == self@.role,
    {
        &self.role
    }

    pub fn set_role(&mut self, role: Role)
        ensures
            final(self)@ == (UserView { role: role@, ..old(self)@ }),
    {
        self.role = role;
    }

    /// See `Groups::remove_group`: the group must be present, and the groups stay as
    /// they are.
    pub fn remove_group(&mut self, group: Group)
        requires
            old(self)@.groups.contains(group@),
        ensures
            final(self)@ == old(self)@,
    {
        self.groups.remove_group(group);
    }

    /// Adds the group unless one of the same name is there.
    pub fn add_group(&mut self, group: Group)
        ensures
            final(self)@ == (UserView { groups: with_group(old(self)@.groups, group@), ..old(self)@ }),
    {
        self.groups.add_group(group);
    }

    pub fn incr_failed_attempt(&mut self)
        requires
            old(self)@.failed_attempts < i64::MAX,
        ensures
            final(self)@ == (UserView { failed_attempts: (old(self)@.failed_attempts + 1) as i64, ..old(self)@ }),
    {
        self.failed_attempts += 1;
    }

    pub fn reset_failed_attempt(&mut self)
        ensures
            final(self)@ == (UserView { failed_attempts: 0, ..old(self)@ }),
    {
        self.failed_attempts = 0;
    }

    pub fn failed_attempts(&self) -> (r: i64)
        ensures
            r == self@.failed_attempts,
    {
        self.failed_attempts
    }
}

/// The settings a user manager is made from: the identifier generator and the
/// operations on secrets used for passwords.
pub struct UserManagerConfig<T, S> where T: IdGenerator, S: SecretFns {
    id_generator: T,
    secret_fns: S,
}

impl UserManagerConfig<DefaultIdGenerator, DefaultSecretFns> {
    /// Random identifiers, random salts and scrypt password hashes.
    pub fn default() -> (r: Self)
        ensures
            r.spec_id_generator() == (DefaultIdGenerator {}),
            r.spec_secret_fns() == (DefaultSecretFns {}),
    {
        Self { id_generator: DefaultIdGenerator {}, secret_fns: DefaultSecretFns {} }
    }
}

impl<T, S> UserManagerConfig<T, S> where T: IdGenerator, S: SecretFns {
    pub closed spec fn spec_id_generator(&self) -> T {
        self.id_generator
    }

    pub closed spec fn spec_secret_fns(&self) -> S {
        self.secret_fns
    }

    pub fn new(id_generator: T, secret_fns: S) -> (r: Self)
        ensures
            r.spec_id_generator() == id_generator,
            r.spec_secret_fns() == secret_fns,
    {
        Self { id_generator, secret_fns }
    }
}

impl<T, S> UserManagerConfig<T, S> where T: IdGenerator + Copy, S: SecretFns + Copy {
    /// A user manager with these settings over the user store `harness`.
    pub fn init<V: DbHarnessUser>(&self, harness: V) -> (r: UserManager<T, V, S>)
        ensures
            r.spec_id_generator() == self.spec_id_generator(),
            r.spec_secret_fns() == self.spec_secret_fns(),
            r.spec_harness() == harness,
    {
        UserManager { id_generator: self.id_generator, harness, secret_fns: self.secret_fns }
    }

    /// The same settings with another identifier generator.
    pub fn with_id_gen<X: IdGenerator + Copy>(&self, id_generator: X) -> (r: UserManagerConfig<X, S>)
        ensures
            r.spec_id_generator() == id_generator,
            r.spec_secret_fns() == self.spec_secret_fns(),
    {
        UserManagerConfig { id_generator, secret_fns: self.secret_fns }
    }
}

/// What a lookup of the user logging in gives: the user, `UserNotFound` when there is
/// none, or the error of the lookup.
pub open spec fn user_lookup_spec(read: Result<Option<UserData>, AuthError>) -> Result<UserData, AuthError> {
    match read {
        Ok(Some(u)) => Ok(u),
        Ok(None) => Err(AuthError::UserNotFound),
        Err(e) => Err(e),
    }
}

/// Turns the result of looking up the user logging in into the user, or the error.
pub fn user_lookup(read: Result<Option<UserData>, AuthError>) -> (r: Result<UserData, AuthError>)
    ensures
        r == user_lookup_spec(read),
{
    match read {
        Ok(Some(u)) => Ok(u),
        Ok(None) => Err(AuthError::UserNotFound),
        Err(e) => Err(e),
    }
}

/// The count of failed logins to store after a login attempt of a user with
/// `failed_attempts` failures so far: one more after a failure (wrapping at the end of
/// the range of `i64`), zero after a success that follows failures, and nothing to store
/// after a success that follows none.
pub open spec fn attempts_after_login_spec(failed_attempts: i64, verified: bool) -> Option<i64> {
    if !verified {
        Some(if failed_attempts == i64::MAX { i64::MIN } else { (failed_attempts + 1) as i64 })
    } else if failed_attempts != 0 {
        Some(0)
    } else {
        None
    }
}

/// Decides what count of failed logins to store after a login attempt.
pub fn attempts_after_login(failed_attempts: i64, verified: bool) -> (r: Option<i64>)
    ensures
        r == attempts_after_login_spec(failed_attempts, verified),
{
    if !verified {
        Some(failed_attempts.wrapping_add(1))
    } else if failed_attempts != 0 {
        Some(0)
    } else {
        None
    }
}

/// The user that creation stores: identifier `id` read as signed, name `username`, the
/// salted hash `hash` and role `role`; not banned, in no group, with no failed login.
pub open spec fn new_user_view(id: u64, username: Seq<char>, hash: Seq<char>, role: Seq<char>) -> UserView {
    UserView {
        id: id_bits(id),
        username,
        salted_hash: hash,
        is_banned: false,
        groups: Seq::<Seq<char>>::empty(),
        role,
        failed_attempts: 0,
    }
}

/// The outcome of creating a user, as plain values.
pub open spec fn user_view_result(r: Result<UserData, AuthError>) -> Result<UserView, AuthError> {
    match r {
        Ok(u) => Ok(u@),
        Err(e) => Err(e),
    }
}

/// Creates users, logs them in and out, and changes what is stored of them.
pub struct UserManager<T, V, S> where T: IdGenerator, V: DbHarnessUser, S: SecretFns {
    id_generator: T,
    harness: V,
    secret_fns: S,
}

impl<T, V, S> UserManager<T, V, S> where T: IdGenerator, V: DbHarnessUser, S: SecretFns {
    pub closed spec fn spec_id_generator(&self) -> T {
        self.id_generator
    }

    pub closed spec fn spec_secret_fns(&self) -> S {
        self.secret_fns
    }

    pub closed spec fn spec_harness(&self) -> V {
        self.harness
    }

    /// How creating the user `username` with password `pwd` and role `role` ends, when the
    /// identifier generator gave `id`, the salt operation gave `salt`, hashing the password
    /// with it gave `hashed` and storing the new user gave `stored`: the failure of the
    /// hash, the failure of the store, or the user that was stored.
    pub open spec fn create_steps(
        &self,
        username: Seq<char>,
        pwd: Seq<char>,
        role: Seq<char>,
        id: u64,
        salt: Seq<char>,
        hashed: Result<Seq<char>, AuthTokenError>,
        stored: Result<(), HarnessError>,
        r: Result<UserView, AuthError>,
    ) -> bool {
        &&& self.spec_id_generator().gives(id)
        &&& self.spec_secret_fns().makes_salt(salt)
        &&& self.spec_secret_fns().hashes(pwd, salt, hashed)
        &&& match hashed {
            Err(e) => r == Err::<UserView, AuthError>(AuthError::Token(e)),
            Ok(h) => {
                &&& self.spec_harness().inserts_user(new_user_view(id, username, h, role), stored)
                &&& r == match stored {
                    Ok(()) => Ok::<UserView, AuthError>(new_user_view(id, username, h, role)),
                    Err(e) => Err::<UserView, AuthError>(AuthError::Harness(e)),
                }
            },
        }
    }

    /// Creating the user `username` with password `pwd` and role `role` may end with `r`.
    pub open spec fn creates(&self, username: Seq<char>, pwd: Seq<char>, role: Seq<char>, r: Result<UserView, AuthError>) -> bool {
        exists|id: u64, salt: Seq<char>, hashed: Result<Seq<char>, AuthTokenError>, stored: Result<(), HarnessError>|
            #[trigger] self.create_steps(username, pwd, role, id, salt, hashed, stored, r)
    }

    /// Stores a new user named `username` with role `role`, a fresh identifier and the
    /// password `pwd` hashed with a fresh salt, and gives the user back.
    pub fn create_user(&self, username: String, pwd: &str, role: Role) -> (r: Result<UserData, AuthError>)
        ensures
            r matches Ok(u) ==> exists|g: u64| #[trigger] self.spec_id_generator().gives(g) && u@.id == g as i64,
            !(r matches Err(AuthError::UserNotFound)),
            self.creates(username@, pwd@, role@, user_view_result(r)),
    {
        let ghost name = username@;
        let id = self.id_generator.new_u64();
        let salt = self.secret_fns.salt();
        let hashed = self.secret_fns.hash(pwd, salt.as_str());
        let ghost hashed_v = string_result(hashed);
        let secret = match hashed {
            Ok(h) => h,
            Err(e) => {
                let r = Err(AuthError::Token(e));
                assert(self.create_steps(name, pwd@, role@, id, salt@, hashed_v, Ok(()), user_view_result(r)));
                return r;
            },
        };
        let user = UserData::new(signed_id(id), username, secret, role);
        let stored = self.harness.insert(&user);
        assert(user@ == new_user_view(id, name, hashed_v->Ok_0, role@));
        let r = match stored {
            Ok(()) => Ok(user),
            Err(e) => Err(AuthError::Harness(e)),
        };
        assert(self.create_steps(name, pwd@, role@, id, salt@, hashed_v, stored, user_view_result(r)));
        r
    }

    /// How logging in as `username` with `pwd` from `ip_addr` ends, when reading the user
    /// gave `read`, checking the password gave `checked` and opening the session gave
    /// `opened`: the failure of the lookup (`UserNotFound` when there is no such user), the
    /// refusal of the password, or the opened session with its secrets.
    pub open spec fn login_steps<Id: IdGenerator, Sh: DbHarnessSession, Th: DbHarnessToken, Sf: SecretFns>(
        &self,
        session_manager: SessionManager<Id, Sh, Th, Sf>,
        username: Seq<char>,
        pwd: Seq<char>,
        ip_addr: Option<IpAddress>,
        read: Result<Option<UserData>, HarnessError>,
        checked: Result<(), AuthTokenError>,
        opened: Result<(SessionView, Seq<char>, Seq<char>), AuthError>,
        r: Result<(SessionView, Seq<char>, Seq<char>), AuthError>,
    ) -> bool {
        &&& self.spec_harness().reads_user_by_username(username, read)
        &&& match user_lookup_spec(harness_result(read)) {
            Err(e) => r == Err::<(SessionView, Seq<char>, Seq<char>), AuthError>(e),
            Ok(u) => {
                &&& self.spec_secret_fns().verifies(pwd, u@.salted_hash, checked)
                &&& opened_after_check(session_manager, u@.id, ip_addr, checked, opened, r)
            },
        }
    }

    /// Logging in as `username` with `pwd` from `ip_addr` may end with `r`.
    pub open spec fn logs_in<Id: IdGenerator, Sh: DbHarnessSession, Th: DbHarnessToken, Sf: SecretFns>(
        &self,
        session_manager: SessionManager<Id, Sh, Th, Sf>,
        username: Seq<char>,
        pwd: Seq<char>,
        ip_addr: Option<IpAddress>,
        r: Result<(SessionView, Seq<char>, Seq<char>), AuthError>,
    ) -> bool {
        exists|read: Result<Option<UserData>, HarnessError>, checked: Result<(), AuthTokenError>,
            opened: Result<(SessionView, Seq<char>, Seq<char>), AuthError>|
            #[trigger] self.login_steps(session_manager, username, pwd, ip_addr, read, checked, opened, r)
    }

    /// Looks the user up by name, checks the password, and opens a session for the user
    /// from `ip_addr`.
    pub fn login<Id, Sh, Th, Sf>(
        &self,
        session_manager: &SessionManager<Id, Sh, Th, Sf>,
        username: &str,
        pwd: &str,
        ip_addr: Option<IpAddress>,
    ) -> (r: Result<(Session, RefreshToken, AccessToken), AuthError>) where
        Id: IdGenerator,
        Sh: DbHarnessSession,
        Th: DbHarnessToken,
        Sf: SecretFns,
        requires
            session_manager.ttls_in_range(),
        ensures
            r matches Ok(opened) ==> opened.0@.ip_addr == ip_addr
                && exists|now: Instant| session_expiration(now, session_manager.spec_session_ttl()) == Some(opened.0@.expires),
            self.logs_in(*session_manager, username@, pwd@, ip_addr, opened_view(r)),
    {
        let ghost no_check = Ok::<(), AuthTokenError>(());
        let ghost no_open = Err::<(SessionView, Seq<char>, Seq<char>), AuthError>(AuthError::UserNotFound);
        let read = self.get_user_by_username(username);
        let ghost raw = choose|raw: Result<Option<UserData>, HarnessError>|
            #[trigger] self.spec_harness().reads_user_by_username(username@, raw) && read == harness_result(raw);
        let user = match user_lookup(read) {
            Ok(u) => u,
            Err(e) => {
                assert(self.login_steps(*session_manager, username@, pwd@, ip_addr, raw, no_check, no_open,
                    Err::<(SessionView, Seq<char>, Seq<char>), AuthError>(e)));
                return Err(e);
            },
        };
        let checked = self.verify_pwd(&user, pwd);
        match checked {
            Ok(()) => {},
            Err(e) => {
                assert(self.login_steps(*session_manager, username@, pwd@, ip_addr, raw, checked, no_open,
                    Err::<(SessionView, Seq<char>, Seq<char>), AuthError>(AuthError::Token(e))));
                return Err(AuthError::Token(e));
            },
        }
        let opened = session_manager.new_session(user.id(), ip_addr);
        assert(self.login_steps(*session_manager, username@, pwd@, ip_addr, raw, checked, opened_view(opened), opened_view(opened)));
        opened
    }

    /// How logging out with the refresh token `token` of the session `user_id` ends, when
    /// checking the token gave `verified` and deleting the session's tokens gave `deleted`.
    pub open spec fn logout_steps<Id: IdGenerator, Sh: DbHarnessSession, Th: DbHarnessToken, Sf: SecretFns>(
        &self,
        session_manager: SessionManager<Id, Sh, Th, Sf>,
        user_id: i64,
        token: Seq<char>,
        verified: Result<Session, AuthError>,
        deleted: Result<(), AuthError>,
        r: Result<(), AuthError>,
    ) -> bool {
        &&& session_manager.session_verified(user_id, token, true, verified)
        &&& match verified {
            Err(e) => r == Err::<(), AuthError>(e),
            Ok(s) => session_manager.deletes_tokens(s@.id, deleted) && r == deleted,
        }
    }

    /// Checks the refresh token of the session `user_id` and deletes the tokens of that
    /// session.
    pub fn logout<Id, Sh, Th, Sf>(
        &self,
        session_manager: &SessionManager<Id, Sh, Th, Sf>,
        user_id: i64,
        user_token_atmpt: &RefreshToken,
    ) -> (r: Result<(), AuthError>) where
        Id: IdGenerator,
        Sh: DbHarnessSession,
        Th: DbHarnessToken,
        Sf: SecretFns,
        ensures
            !(r matches Err(AuthError::UserNotFound)),
            exists|verified: Result<Session, AuthError>, deleted: Result<(), AuthError>|
                #[trigger] self.logout_steps(*session_manager, user_id, user_token_atmpt@, verified, deleted, r),
    {
        let verified = session_manager.verify_refresh_token(user_id, user_token_atmpt);
        let ghost verified_v = verified;
        let session = match verified {
            Ok(s) => s,
            Err(e) => {
                assert(self.logout_steps(*session_manager, user_id, user_token_atmpt@, verified_v, Ok(()), Err(e)));
                return Err(e);
            },
        };
        let deleted = session_manager.delete_session(session.id());
        assert(self.logout_steps(*session_manager, user_id, user_token_atmpt@, verified_v, deleted, deleted));
        deleted
    }

    fn verify_pwd(&self, user: &UserData, pwd: &str) -> (r: Result<(), AuthTokenError>)
        ensures
            self.spec_secret_fns().verifies(pwd@, user@.salted_hash, r),
    {
        self.secret_fns.verify(pwd, user.salted_hash())
    }

    /// Stores the groups and the role of the user.
    pub fn update_user(&self, user: &UserData) -> (r: Result<(), AuthError>)
        ensures
            r matches Err(e) ==> e is Harness,
            exists|w: Result<(), HarnessError>| #[trigger] self.spec_harness().updates_user(user@, w) && r == harness_result(w),
    {
        let w = self.harness.update(user);
        assert(self.spec_harness().updates_user(user@, w));
        match w {
            Ok(()) => Ok(()),
            Err(e) => Err(AuthError::Harness(e)),
        }
    }

    /// How changing the password of `user` to `pwd` ends, when the salt made was `salt`,
    /// hashing gave `hashed` and storing the hash gave `stored`.
    pub open spec fn password_steps(
        &self,
        user: UserView,
        pwd: Seq<char>,
        salt: Seq<char>,
        hashed: Result<Seq<char>, AuthTokenError>,
        stored: Result<(), HarnessError>,
        r: Result<(), AuthError>,
    ) -> bool {
        &&& self.spec_secret_fns().makes_salt(salt)
        &&& self.spec_secret_fns().hashes(pwd, salt, hashed)
        &&& match hashed {
            Err(e) => r == Err::<(), AuthError>(AuthError::Token(e)),
            Ok(h) => self.spec_harness().updates_salted_hash(user.id, h, stored) && r == harness_result(stored),
        }
    }

    /// Hashes the new password `pwd` with a fresh salt and stores the hash for the user.
    pub fn update_password(&self, user: UserData, pwd: String) -> (r: Result<(), AuthError>)
        ensures
            r matches Err(AuthError::Token(e)) ==> exists|salt: Seq<char>| #[trigger] self.spec_secret_fns().makes_salt(salt)
                && self.spec_secret_fns().hashes(pwd@, salt, Err::<Seq<char>, AuthTokenError>(e)),
            !(r matches Err(AuthError::UserNotFound)),
            exists|salt: Seq<char>, hashed: Result<Seq<char>, AuthTokenError>, stored: Result<(), HarnessError>|
                #[trigger] self.password_steps(user@, pwd@, salt, hashed, stored, r),
    {
        let ghost original = user@;
        let mut user = user;
        let salt = self.secret_fns.salt();
        let hashed = self.secret_fns.hash(pwd.as_str(), salt.as_str());
        let ghost hashed_v = crate::secret::string_result(hashed);
        let salted_hash = match hashed {
            Ok(h) => h,
            Err(e) => {
                assert(self.password_steps(original, pwd@, salt@, hashed_v, Ok(()), Err(AuthError::Token(e))));
                return Err(AuthError::Token(e));
            },
        };
        user.set_salted_hash(salted_hash);
        let stored = self.harness.update_salted_hash(user.id(), user.salted_hash());
        assert(self.password_steps(original, pwd@, salt@, hashed_v, stored, harness_result(stored)));
        match stored {
            Ok(()) => Ok(()),
            Err(e) => Err(AuthError::Harness(e)),
        }
    }

    pub fn get_user_by_id(&self, id: &i64) -> (r: Result<Option<UserData>, AuthError>)
        ensures
            r matches Err(e) ==> e is Harness,
            exists|read: Result<Option<UserData>, HarnessError>|
                #[trigger] self.spec_harness().reads_user_by_id(*id, read) && r == harness_result(read),
    {
        let read = self.harness.read_by_id(*id);
        assert(self.spec_harness().reads_user_by_id(*id, read));
        match read {
            Ok(u) => Ok(u),
            Err(e) => Err(AuthError::Harness(e)),
        }
    }

    pub fn get_user_by_username(&self, username: &str) -> (r: Result<Option<UserData>, AuthError>)
        ensures
            r matches Err(e) ==> e is Harness,
            exists|read: Result<Option<UserData>, HarnessError>|
                #[trigger] self.spec_harness().reads_user_by_username(username@, read) && r == harness_result(read),
    {
        let read = self.harness.read_by_username(username);
        assert(self.spec_harness().reads_user_by_username(username@, read));
        match read {
            Ok(u) => Ok(u),
            Err(e) => Err(AuthError::Harness(e)),
        }
    }

    pub fn delete_user(&self, id: i64) -> (r: Result<(), AuthError>)
        ensures
            r matches Err(e) ==> e is Harness,
            exists|w: Result<(), HarnessError>| #[trigger] self.spec_harness().deletes_user(id, w) && r == harness_result(w),
    {
        let w = self.harness.delete(id);
        assert(self.spec_harness().deletes_user(id, w));
        match w {
            Ok(()) => Ok(()),
            Err(e) => Err(AuthError::Harness(e)),
        }
    }
}

/// How a login ends after the password check gave `checked`: the refusal, or the session
/// opened for the user `user_id`, as `opened` is.
pub open spec fn opened_after_check<Id: IdGenerator, Sh: DbHarnessSession, Th: DbHarnessToken, Sf: SecretFns>(
    session_manager: SessionManager<Id, Sh, Th, Sf>,
    user_id: i64,
    ip_addr: Option<IpAddress>,
    checked: Result<(), AuthTokenError>,
    opened: Result<(SessionView, Seq<char>, Seq<char>), AuthError>,
    r: Result<(SessionView, Seq<char>, Seq<char>), AuthError>,
) -> bool {
    match checked {
        Err(e) => r == Err::<(SessionView, Seq<char>, Seq<char>), AuthError>(AuthError::Token(e)),
        Ok(()) => session_manager.opens(user_id, ip_addr, opened) && r == opened,
    }
}

impl<T, V, S> UserManager<T, V, S> where T: IdGenerator, V: DbHarnessUserExt, S: SecretFns {
    /// How a login that keeps the count of failed logins ends, when reading the user gave
    /// `read`, checking the password gave `checked`, storing the new count (where there is
    /// one to store) gave `written` and opening the session gave `opened`.
    pub open spec fn counted_login_steps<Id: IdGenerator, Sh: DbHarnessSession, Th: DbHarnessToken, Sf: SecretFns>(
        &self,
        session_manager: SessionManager<Id, Sh, Th, Sf>,
        username: Seq<char>,
        pwd: Seq<char>,
        ip_addr: Option<IpAddress>,
        read: Result<Option<UserData>, HarnessError>,
        checked: Result<(), AuthTokenError>,
        written: Result<(), HarnessError>,
        opened: Result<(SessionView, Seq<char>, Seq<char>), AuthError>,
        r: Result<(SessionView, Seq<char>, Seq<char>), AuthError>,
    ) -> bool {
        &&& self.spec_harness().reads_user_by_username(username, read)
        &&& match user_lookup_spec(harness_result(read)) {
            Err(e) => r == Err::<(SessionView, Seq<char>, Seq<char>), AuthError>(e),
            Ok(u) => {
                &&& self.spec_secret_fns().verifies(pwd, u@.salted_hash, checked)
                &&& match attempts_after_login_spec(u@.failed_attempts, checked is Ok) {
                    Some(count) => {
                        &&& self.spec_harness().sets_attempts(u@.id, count, written)
                        &&& match written {
                            Err(e) => r == Err::<(SessionView, Seq<char>, Seq<char>), AuthError>(AuthError::Harness(e)),
                            Ok(()) => opened_after_check(session_manager, u@.id, ip_addr, checked, opened, r),
                        }
                    },
                    None => opened_after_check(session_manager, u@.id, ip_addr, checked, opened, r),
                }
            },
        }
    }

    /// Like `login`, and also keeps the count of failed logins: a failed password check
    /// stores one more failure, a successful one after failures stores zero.
    pub fn login_log_on_fail<Id, Sh, Th, Sf>(
        &self,
        session_manager: &SessionManager<Id, Sh, Th, Sf>,
        username: &str,
        pwd: &str,
        ip_addr: Option<IpAddress>,
    ) -> (r: Result<(Session, RefreshToken, AccessToken), AuthError>) where
        Id: IdGenerator,
        Sh: DbHarnessSession,
        Th: DbHarnessToken,
        Sf: SecretFns,
        requires
            session_manager.ttls_in_range(),
        ensures
            r matches Ok(opened) ==> opened.0@.ip_addr == ip_addr
                && exists|now: Instant| session_expiration(now, session_manager.spec_session_ttl()) == Some(opened.0@.expires),
            exists|read: Result<Option<UserData>, HarnessError>, checked: Result<(), AuthTokenError>,
                written: Result<(), HarnessError>, opened: Result<(SessionView, Seq<char>, Seq<char>), AuthError>|
                #[trigger] self.counted_login_steps(*session_manager, username@, pwd@, ip_addr, read, checked, written,
                    opened, opened_view(r)),
    {
        let ghost no_check = Ok::<(), AuthTokenError>(());
        let ghost no_write = Ok::<(), HarnessError>(());
        let ghost no_open = Err::<(SessionView, Seq<char>, Seq<char>), AuthError>(AuthError::UserNotFound);
        let read = self.get_user_by_username(username);
        let ghost raw = choose|raw: Result<Option<UserData>, HarnessError>|
            #[trigger] self.spec_harness().reads_user_by_username(username@, raw) && read == harness_result(raw);
        let user = match user_lookup(read) {
            Ok(u) => u,
            Err(e) => {
                assert(self.counted_login_steps(*session_manager, username@, pwd@, ip_addr, raw, no_check, no_write,
                    no_open, Err::<(SessionView, Seq<char>, Seq<char>), AuthError>(e)));
                return Err(e);
            },
        };
        let res = self.verify_pwd(&user, pwd);
        let mut written: Result<(), HarnessError> = Ok(());
        match attempts_after_login(user.failed_attempts(), res.is_ok()) {
            Some(count) => {
                written = self.harness.set_attempts(user.id(), count);
                match written {
                    Ok(()) => {},
                    Err(e) => {
                        assert(self.counted_login_steps(*session_manager, username@, pwd@, ip_addr, raw, res, written,
                            no_open, Err::<(SessionView, Seq<char>, Seq<char>), AuthError>(AuthError::Harness(e))));
                        return Err(AuthError::Harness(e));
                    },
                }
            },
            None => {},
        }
        match res {
            Ok(()) => {},
            Err(e) => {
                assert(self.counted_login_steps(*session_manager, username@, pwd@, ip_addr, raw, res, written,
                    no_open, Err::<(SessionView, Seq<char>, Seq<char>), AuthError>(AuthError::Token(e))));
                return Err(AuthError::Token(e));
            },
        }
        let opened = session_manager.new_session(user.id(), ip_addr);
        assert(self.counted_login_steps(*session_manager, username@, pwd@, ip_addr, raw, res, written,
            opened_view(opened), opened_view(opened)));
        opened
    }

    pub fn set_user_ban(&self, user_id: i64, ban: bool) -> (r: Result<(), HarnessError>)
        ensures
            self.spec_harness().sets_ban(user_id, ban, r),
    {
        self.harness.set_ban(user_id, ban)
    }

    pub fn update_username(&self, user_id: i64, username: &str) -> (r: Result<(), HarnessError>)
        ensures
            self.spec_harness().updates_username(user_id, username@, r),
    {
        self.harness.update_username(user_id, username)
    }
}

/// A user created with the default secret operations is stored with a salted hash that its
/// password passes.
pub proof fn lemma_created_password_verifies<T: IdGenerator, V: DbHarnessUser>(
    manager: UserManager<T, V, DefaultSecretFns>,
    username: Seq<char>,
    pwd: Seq<char>,
    role: Seq<char>,
    u: UserView,
)
    requires
        manager.creates(username, pwd, role, Ok(u)),
    ensures
        u.username == username,
        u.role == role,
        manager.spec_secret_fns().verifies(pwd, u.salted_hash, Ok(())),
{
}

/// Logging in after creating a user with the default secret operations, when the store
/// gives back the user that creation stored: the password is accepted, and the login ends
/// as opening a session for that user does.
pub proof fn lemma_login_after_create<T: IdGenerator, V: DbHarnessUser, Id: IdGenerator, Sh: DbHarnessSession, Th: DbHarnessToken, Sf: SecretFns>(
    manager: UserManager<T, V, DefaultSecretFns>,
    session_manager: SessionManager<Id, Sh, Th, Sf>,
    username: Seq<char>,
    pwd: Seq<char>,
    role: Seq<char>,
    u: UserView,
    found: UserData,
    ip_addr: Option<IpAddress>,
    checked: Result<(), AuthTokenError>,
    opened: Result<(SessionView, Seq<char>, Seq<char>), AuthError>,
    r: Result<(SessionView, Seq<char>, Seq<char>), AuthError>,
)
    requires
        manager.creates(username, pwd, role, Ok(u)),
        found@ == u,
        manager.login_steps(session_manager, username, pwd, ip_addr, Ok(Some(found)), checked, opened, r),
    ensures
        checked == Ok::<(), AuthTokenError>(()),
        session_manager.opens(u.id, ip_addr, r),
{
}

/// Creating a user with the default secret operations never fails at hashing the
/// password, since their fresh salts always hash: it fails only where the store refuses
/// the user.
pub proof fn lemma_default_create_fails_only_in_store<T: IdGenerator, V: DbHarnessUser>(
    manager: UserManager<T, V, DefaultSecretFns>,
    username: Seq<char>,
    pwd: Seq<char>,
    role: Seq<char>,
    r: Result<UserView, AuthError>,
)
    requires
        manager.creates(username, pwd, role, r),
    ensures
        r matches Err(e) ==> e is Harness,
{
    let (id, salt, hashed, stored) = choose|id: u64, salt: Seq<char>, hashed: Result<Seq<char>, AuthTokenError>,
        stored: Result<(), HarnessError>| #[trigger] manager.create_steps(username, pwd, role, id, salt, hashed, stored, r);
    crate::secret::lemma_fresh_salt_hash_then_verify(pwd, salt, hashed);
}

/// Looking a user up by name after creating it, with a store that gives back, for that
/// name, the user it was handed: the lookup finds the created user, with the name, role,
/// identifier and salted hash that creation gave it, not banned, in no group and with no
/// failed login.
pub proof fn lemma_lookup_after_create<T: IdGenerator, V: DbHarnessUser, S: SecretFns>(
    manager: UserManager<T, V, S>,
    username: Seq<char>,
    pwd: Seq<char>,
    role: Seq<char>,
    u: UserView,
    r: Result<Option<UserData>, AuthError>,
)
    requires
        manager.creates(username, pwd, role, Ok(u)),
        forall|read: Result<Option<UserData>, HarnessError>| #[trigger]
            manager.spec_harness().reads_user_by_username(username, read) ==> (read matches Ok(Some(f)) && f@ == u),
        exists|read: Result<Option<UserData>, HarnessError>| #[trigger]
            manager.spec_harness().reads_user_by_username(username, read) && r == harness_result(read),
    ensures
        r matches Ok(Some(v)) && v@ == u && v@.username == username && v@.role == role && !v@.is_banned
            && v@.groups == Seq::<Seq<char>>::empty() && v@.failed_attempts == 0,
{
}

/// Looking a user up by identifier after deleting it succeeded, with a store in which a
/// successful deletion leaves nothing to read under that identifier: nothing is found.
pub proof fn lemma_lookup_after_delete<T: IdGenerator, V: DbHarnessUser, S: SecretFns>(
    manager: UserManager<T, V, S>,
    id: i64,
    deleted: Result<(), AuthError>,
    r: Result<Option<UserData>, AuthError>,
)
    requires
        forall|w: Result<(), HarnessError>, read: Result<Option<UserData>, HarnessError>|
            #![trigger manager.spec_harness().deletes_user(id, w), manager.spec_harness().reads_user_by_id(id, read)]
            manager.spec_harness().deletes_user(id, w) && w is Ok && manager.spec_harness().reads_user_by_id(id, read)
                ==> read == Ok::<Option<UserData>, HarnessError>(None),
        exists|w: Result<(), HarnessError>| #[trigger] manager.spec_harness().deletes_user(id, w) && deleted == harness_result(w),
        deleted is Ok,
        exists|read: Result<Option<UserData>, HarnessError>| #[trigger]
            manager.spec_harness().reads_user_by_id(id, read) && r == harness_result(read),
    ensures
        r == Ok::<Option<UserData>, AuthError>(None),
{
}

/// A user that creation stored and handed back has the signed reading of an identifier the
/// generator gave, the name and role asked for, and as salted hash what hashing the
/// password with a made salt gave; it is not banned, in no group, and has no failed login.
pub proof fn lemma_created_user_fields<T: IdGenerator, V: DbHarnessUser, S: SecretFns>(
    manager: UserManager<T, V, S>,
    username: Seq<char>,
    pwd: Seq<char>,
    role: Seq<char>,
    u: UserView,
)
    requires
        manager.creates(username, pwd, role, Ok(u)),
    ensures
        exists|g: u64| #[trigger] manager.spec_id_generator().gives(g) && u.id == g as i64,
        exists|salt: Seq<char>| #[trigger] manager.spec_secret_fns().makes_salt(salt)
            && manager.spec_secret_fns().hashes(pwd, salt, Ok::<Seq<char>, AuthTokenError>(u.salted_hash)),
        manager.spec_harness().inserts_user(u, Ok::<(), HarnessError>(())),
        u.username == username,
        u.role == role,
        !u.is_banned,
        u.groups == Seq::<Seq<char>>::empty(),
        u.failed_attempts == 0,
{
    let (id, salt, hashed, stored) = choose|id: u64, salt: Seq<char>, hashed: Result<Seq<char>, AuthTokenError>,
        stored: Result<(), HarnessError>| #[trigger] manager.create_steps(username, pwd, role, id, salt, hashed, stored, Ok(u));
    assert(stored == Ok::<(), HarnessError>(())) by {
        assert(stored->Ok_0 == ());
    }
    assert(manager.spec_id_generator().gives(id) && u.id == id as i64);
    assert(manager.spec_secret_fns().makes_salt(salt)
        && manager.spec_secret_fns().hashes(pwd, salt, Ok::<Seq<char>, AuthTokenError>(u.salted_hash)));
}

/// A password change hashes the new password with a salt that the salt operation made, and
/// on success stores exactly that hash for the user; a failure of the hash is returned as is.
pub proof fn lemma_password_update_hashes_with_made_salt<T: IdGenerator, V: DbHarnessUser, S: SecretFns>(
    manager: UserManager<T, V, S>,
    user: UserView,
    pwd: Seq<char>,
    r: Result<(), AuthError>,
)
    requires
        exists|salt: Seq<char>, hashed: Result<Seq<char>, AuthTokenError>, stored: Result<(), HarnessError>|
            #[trigger] manager.password_steps(user, pwd, salt, hashed, stored, r),
    ensures
        exists|salt: Seq<char>, hashed: Result<Seq<char>, AuthTokenError>|
            #[trigger] manager.spec_secret_fns().hashes(pwd, salt, hashed) && manager.spec_secret_fns().makes_salt(salt)
            && (r matches Err(AuthError::Token(e)) ==> hashed == Err::<Seq<char>, AuthTokenError>(e))
            && (r is Ok ==> (hashed matches Ok(h)
                && manager.spec_harness().updates_salted_hash(user.id, h, Ok::<(), HarnessError>(())))),
{
    let (salt, hashed, stored) = choose|salt: Seq<char>, hashed: Result<Seq<char>, AuthTokenError>, stored: Result<(), HarnessError>|
        #[trigger] manager.password_steps(user, pwd, salt, hashed, stored, r);
    if r is Ok {
        assert(stored == Ok::<(), HarnessError>(())) by {
            assert(stored->Ok_0 == ());
        }
    }
    assert(manager.spec_secret_fns().hashes(pwd, salt, hashed) && manager.spec_secret_fns().makes_salt(salt));
}

/// Changing a password with the default secret operations never fails at hashing, since
/// their fresh salts always hash: it fails only where the store refuses the new hash.
pub proof fn lemma_default_password_update_fails_only_in_store<T: IdGenerator, V: DbHarnessUser>(
    manager: UserManager<T, V, DefaultSecretFns>,
    user: UserView,
    pwd: Seq<char>,
    r: Result<(), AuthError>,
)
    requires
        exists|salt: Seq<char>, hashed: Result<Seq<char>, AuthTokenError>, stored: Result<(), HarnessError>|
            #[trigger] manager.password_steps(user, pwd, salt, hashed, stored, r),
    ensures
        r matches Err(e) ==> e is Harness,
{
    lemma_password_update_hashes_with_made_salt(manager, user, pwd, r);
    let (salt, hashed) = choose|salt: Seq<char>, hashed: Result<Seq<char>, AuthTokenError>|
        #[trigger] manager.spec_secret_fns().hashes(pwd, salt, hashed) && manager.spec_secret_fns().makes_salt(salt)
        && (r matches Err(AuthError::Token(e)) ==> hashed == Err::<Seq<char>, AuthTokenError>(e))
        && (r is Ok ==> (hashed matches Ok(h)
            && manager.spec_harness().updates_salted_hash(user.id, h, Ok::<(), HarnessError>(()))));
    crate::secret::lemma_fresh_salt_hash_then_verify(pwd, salt, hashed);
}

/// A login that succeeds found the user by the name given, in a read of the store; the
/// secret operations accepted the password against that user's salted hash; and the session
/// handed out belongs to that user, from the address given, with a fresh identifier.
pub proof fn lemma_login_session_is_the_users<T: IdGenerator, V: DbHarnessUser, S: SecretFns, Id: IdGenerator, Sh: DbHarnessSession, Th: DbHarnessToken, Sf: SecretFns>(
    manager: UserManager<T, V, S>,
    session_manager: SessionManager<Id, Sh, Th, Sf>,
    username: Seq<char>,
    pwd: Seq<char>,
    ip_addr: Option<IpAddress>,
    session: SessionView,
    refresh: Seq<char>,
    access: Seq<char>,
)
    requires
        manager.logs_in(session_manager, username, pwd, ip_addr, Ok((session, refresh, access))),
    ensures
        exists|u: UserData| #[trigger] manager.spec_harness().reads_user_by_username(username, Ok(Some(u)))
            && manager.spec_secret_fns().verifies(pwd, u@.salted_hash, Ok::<(), AuthTokenError>(()))
            && session.user_id == u@.id,
        session.ip_addr == ip_addr,
        exists|g: u64| #[trigger] session_manager.spec_id_generator().gives(g) && session.id == g as i64,
{
    let r = Ok::<(SessionView, Seq<char>, Seq<char>), AuthError>((session, refresh, access));
    let (read, checked, opened) = choose|read: Result<Option<UserData>, HarnessError>, checked: Result<(), AuthTokenError>,
        opened: Result<(SessionView, Seq<char>, Seq<char>), AuthError>|
        #[trigger] manager.login_steps(session_manager, username, pwd, ip_addr, read, checked, opened, r);
    let u = read->Ok_0->Some_0;
    assert(checked == Ok::<(), AuthTokenError>(())) by {
        assert(checked->Ok_0 == ());
    }
    crate::session::lemma_opened_session_identity(session_manager, u@.id, ip_addr, session, refresh, access);
    assert(manager.spec_harness().reads_user_by_username(username, Ok(Some(u))));
}

/// After a failed password check the count of failed logins grows by one (below the end of
/// the range of `i64`); after a successful one the stored count is zero, and nothing is
/// written when it was zero already.
pub proof fn lemma_failed_login_counting(failed_attempts: i64)
    ensures
        failed_attempts < i64::MAX ==> attempts_after_login_spec(failed_attempts, false) == Some((failed_attempts + 1) as i64),
        attempts_after_login_spec(failed_attempts, false) is Some,
        attempts_after_login_spec(failed_attempts, true) is None <==> failed_attempts == 0,
        attempts_after_login_spec(failed_attempts, true) matches Some(c) ==> c == 0,
{
}

} // verus!
