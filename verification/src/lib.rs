//! Authentication building blocks: users with salted password hashes, sessions, and the
//! access and refresh tokens that authorize them, over storage that the caller supplies.

pub mod auth_token;
pub mod errors;
pub mod group_text;
pub mod harness;
pub mod id;
pub mod secret;
pub mod session;
pub mod time;
pub mod user;

pub use errors::{AuthError, AuthTokenError, AuthTokenErrorKind};
pub use secret::{default_hash_fn, default_rng_salt_fn, default_rng_token_fn, default_verify_token_fn};
pub use time::{get_expiration, UtcDateTime};
