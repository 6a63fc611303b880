use vstd::prelude::*;

use crate::harness::HarnessError;

verus! {

/// What went wrong while creating or checking a token, a secret or a date.
#[derive(Clone, Copy, Debug, PartialEq, Eq, Structural)]
pub enum AuthTokenErrorKind {
    Expired,
    Invalid,
    NotAuthorized,
    DateTime,
    Create,
    InvalidFormat,
}

/// The text that describes each kind of token error.
pub open spec fn kind_message(kind: AuthTokenErrorKind) -> Seq<char> {
    match kind {
        AuthTokenErrorKind::Expired => "Expired"@,
        AuthTokenErrorKind::Invalid => "Invalid"@,
        AuthTokenErrorKind::NotAuthorized => "Not Authorized"@,
        AuthTokenErrorKind::DateTime => "Error in token DateTime expiration check"@,
        AuthTokenErrorKind::Create => "Could not generate token."@,
        AuthTokenErrorKind::InvalidFormat => "Token stored in invalid format."@,
    }
}

impl AuthTokenErrorKind {
    /// The human readable description of this kind.
    pub fn to_string(&self) -> (r: String)
        ensures
            r@ == kind_message(*self),
    {
        match self {
            AuthTokenErrorKind::Expired => "Expired".to_owned(),
            AuthTokenErrorKind::Invalid => "Invalid".to_owned(),
            AuthTokenErrorKind::NotAuthorized => "Not Authorized".to_owned(),
            AuthTokenErrorKind::DateTime => "Error in token DateTime expiration check".to_owned(),
            AuthTokenErrorKind::Create => "Could not generate token.".to_owned(),
            AuthTokenErrorKind::InvalidFormat => "Token stored in invalid format.".to_owned(),
        }
    }
}

/// An error raised by token, secret or date handling.
#[derive(Clone, Copy, Debug, PartialEq, Eq, Structural)]
pub struct AuthTokenError {
    pub kind: AuthTokenErrorKind,
}

impl AuthTokenError {
    pub fn new(kind: AuthTokenErrorKind) -> (r: Self)
        ensures
            r.kind == kind,
    {
        Self { kind }
    }

    /// The human readable description of this error.
    pub fn to_string(&self) -> (r: String)
        ensures
            r@ == "AuthTokenError: "@ + kind_message(self.kind),
    {
        let mut s = "AuthTokenError: ".to_owned();
        let k = self.kind.to_string();
        s.append(k.as_str());
        s
    }
}

/// An error of the managers: from the storage, from token handling, or an unknown user.
#[derive(Debug)]
pub enum AuthError {
    Harness(HarnessError),
    Token(AuthTokenError),
    UserNotFound,
}

/// A storage outcome as an outcome of the managers: a failure becomes `Harness`.
pub open spec fn harness_result<X>(r: Result<X, HarnessError>) -> Result<X, AuthError> {
    match r {
        Ok(x) => Ok(x),
        Err(e) => Err(AuthError::Harness(e)),
    }
}

impl From<HarnessError> for AuthError {
    fn from(value: HarnessError) -> (r: Self) {
        Self::Harness(value)
    }
}

impl vstd::std_specs::convert::FromSpecImpl<HarnessError> for AuthError {
    open spec fn obeys_from_spec() -> bool {
        true
    }

    open spec fn from_spec(v: HarnessError) -> Self {
        AuthError::Harness(v)
    }
}

impl From<AuthTokenError> for AuthError {
    fn from(value: AuthTokenError) -> (r: Self) {
        Self::Token(value)
    }
}

impl vstd::std_specs::convert::FromSpecImpl<AuthTokenError> for AuthError {
    open spec fn obeys_from_spec() -> bool {
        true
    }

    open spec fn from_spec(v: AuthTokenError) -> Self {
        AuthError::Token(v)
    }
}

} // verus!
