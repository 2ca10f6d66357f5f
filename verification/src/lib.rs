//! Core of a small identity service: a tri-state transactional outcome type,
//! a transaction runner over an in-memory store model, credential hashing with
//! secure erasure of plaintext, a bearer-token authentication guard, and the
//! invite-redemption workflow.

pub mod code;
pub mod guard;
pub mod invite;
pub mod login;
pub mod modify;
pub mod outcome;
pub mod register;
pub mod secret;
pub mod session;
pub mod store;
pub mod user;
pub mod uuid;

pub use code::{code_of, fields_of, Code};
pub use guard::{extract_token, SessionGuard, SessionTokenError};
pub use invite::Invite;
pub use login::{grant_session, login, LoginDenial, SessionCreateData};
pub use modify::Modify;
pub use outcome::{Outcome, OutcomeExt};
pub use register::{redeem_invite, UpdateError, UserCreateData};
pub use session::{Session, SessionKind};
pub use store::{settle, Store, Transaction};
pub use secret::{Failure, HashConfig, Secret};
pub use user::User;
pub use uuid::Uuid;
