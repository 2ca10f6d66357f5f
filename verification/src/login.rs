//! Password login and session granting.
//!
//! A login locates the identity by email, checks the candidate password
//! against the stored credential, and on success issues a fresh valid
//! session of kind `Login`.  An unknown email and a wrong password are
//! answered identically, so the caller cannot probe which emails are
//! registered.  `grant_session` issues a session of kind `Grant` for an
//! already-authenticated request.

use crate::guard::SessionGuard;
use crate::outcome::Outcome;
use crate::secret::{argon2_verified, Failure};
use crate::session::{Session, SessionKind};
use crate::store::Store;
use crate::uuid::Uuid;
use vstd::prelude::*;

verus! {

/// The credentials the login form carries.
pub struct SessionCreateData {
    pub user: String,
    pub pass: String,
}

/// A login that was refused: the identity is unknown or the password is
/// wrong, and the two are deliberately indistinguishable.
#[derive(Debug, Clone, Copy, PartialEq, Eq, Structural)]
pub enum LoginDenial {
    BadCredentials,
}

/// Attempts a login: on success a fresh valid `Login` session for the
/// matched identity is issued and committed; an unknown email and a
/// non-matching password are both rejected as `BadCredentials`; a stored
/// credential whose encoding cannot be decoded is an infrastructure
/// failure.  Every path but success leaves the store unchanged.
pub fn login(store: &mut Store, data: SessionCreateData, now: i64) -> (r: Outcome<
    Session,
    LoginDenial,
    Failure,
>)
    requires
        old(store).wf(),
        old(store).next_row < u64::MAX,
    ensures
        final(store).wf(),
        !old(store).has_email(data.user@) ==> r == Outcome::<Session, LoginDenial, Failure>::Reject(
            LoginDenial::BadCredentials,
        ) && *final(store) == *old(store),
        old(store).has_email(data.user@) ==> {
            let stored = old(store).user_with_email(data.user@).password@;
            let candidate = crate::register::utf8_bytes(data.pass@);
            match argon2_verified(stored, candidate) {
                None => r is Fail && *final(store) == *old(store),
                Some(false) => r == Outcome::<Session, LoginDenial, Failure>::Reject(
                    LoginDenial::BadCredentials,
                ) && *final(store) == *old(store),
                Some(true) => (r matches Outcome::Commit(s) && {
                    &&& s.id == (Uuid { value: old(store).next_row as u128 })
                    &&& s.kind == SessionKind::Login.code_spec()
                    &&& s.user_id == old(store).user_with_email(data.user@).id
                    &&& s.valid
                    &&& s.created_at == now
                    &&& final(store).sessions@ == old(store).sessions@.push(s)
                    &&& final(store).users@ == old(store).users@
                    &&& final(store).invites@ == old(store).invites@
                    &&& final(store).next_row == old(store).next_row + 1
                }),
            }
        },
{
    let found = store.find_user_by_email(&data.user);
    match found {
        None => Outcome::Reject(LoginDenial::BadCredentials),
        Some(user) => {
            let candidate = data.pass.into_bytes();
            match user.pass().verify(&candidate) {
                Err(failure) => Outcome::Fail(failure),
                Ok(false) => Outcome::Reject(LoginDenial::BadCredentials),
                Ok(true) => {
                    let session = store.create_session(SessionKind::Login, user.id, true, now);
                    Outcome::Commit(session)
                },
            }
        },
    }
}

/// Issues a fresh valid `Grant` session for the identity an authenticated
/// guard carries.
pub fn grant_session(store: &mut Store, guard: &SessionGuard, now: i64) -> (r: Session)
    requires
        old(store).wf(),
        old(store).next_row < u64::MAX,
    ensures
        final(store).wf(),
        r.id == (Uuid { value: old(store).next_row as u128 }),
        r.kind == SessionKind::Grant.code_spec(),
        r.user_id == guard.spec_user().id,
        r.valid,
        r.created_at == now,
        final(store).sessions@ == old(store).sessions@.push(r),
        final(store).users@ == old(store).users@,
        final(store).invites@ == old(store).invites@,
        final(store).next_row == old(store).next_row + 1,
{
    let user_id = guard.user().id;
    store.create_session(SessionKind::Grant, user_id, true, now)
}

} // verus!
