//! The bearer-token authentication guard.
//!
//! A request's authorization evidence is the list of values its
//! `Authorization` header occurrences carry.  The guard demands exactly one
//! occurrence, of the exact form `Bearer ` followed by a canonical
//! lowercase UUID and nothing else, resolves the token to a session and its
//! owning user, and admits the request only when the session is
//! authenticable.  Every deviation but an ambiguous header count and a
//! failed lookup is answered with `Missing`, so that a malformed token, an
//! unknown token and an existing but unusable session are
//! indistinguishable to the caller.

use crate::secret::Failure;
use crate::session::Session;
use crate::store::Store;
use crate::user::User;
use crate::uuid::{is_canonical_uuid, parse_uuid_bytes, uuid_value, Uuid};
use vstd::prelude::*;

verus! {

use vstd::string::StringSliceAdditionalSpecFns;

/// A request's verified session and identity, as the guard yields them to
/// the protected operation.
pub struct SessionGuard(Session, User);

impl SessionGuard {
    pub closed spec fn spec_session(self) -> Session {
        self.0
    }

    pub closed spec fn spec_user(self) -> User {
        self.1
    }

    pub fn session(&self) -> (r: &Session)
        ensures
            *r == self.spec_session(),
    {
        &self.0
    }

    pub fn user(&self) -> (r: &User)
        ensures
            *r == self.spec_user(),
    {
        &self.1
    }
}

#[derive(Debug, Clone, Copy, PartialEq, Eq, Structural)]
pub enum SessionTokenError {
    /// No usable credential: absent, malformed, unknown, or unusable.
    Missing,
    /// A credential of invalid shape.
    Invalid,
    /// More than one credential was presented; none is chosen.
    BadCount,
    /// The store could not be reached.
    BadConnect,
}

/// The bytes of `Bearer ` followed by a space.
pub open spec fn bearer_prefix() -> Seq<u8> {
    seq![0x42u8, 0x65u8, 0x61u8, 0x72u8, 0x65u8, 0x72u8, 0x20u8]
}

/// A well-formed header value: `Bearer `, a canonical UUID, nothing else.
pub open spec fn is_bearer_token(s: Seq<u8>) -> bool {
    &&& s.len() == 43
    &&& s.subrange(0, 7) == bearer_prefix()
    &&& is_canonical_uuid(s.subrange(7, 43))
}

/// The token a well-formed header value carries.
pub open spec fn bearer_value(s: Seq<u8>) -> int {
    uuid_value(s.subrange(7, 43))
}

/// Extracts the token from one header value: `Some` exactly when the value
/// is of the well-formed shape, and then the token is the UUID it spells.
pub fn extract_token(content: &str) -> (r: Option<Uuid>)
    ensures
        r is Some <==> is_bearer_token(content.spec_bytes()),
        r matches Some(u) ==> u.value == bearer_value(content.spec_bytes()),
{
    let b = content.as_bytes();
    if b.len() != 43 {
        return None;
    }
    if !(b[0] == 0x42 && b[1] == 0x65 && b[2] == 0x61 && b[3] == 0x72 && b[4] == 0x65 && b[5]
        == 0x72 && b[6] == 0x20) {
        proof {
            assert(b@.subrange(0, 7) != bearer_prefix());
        }
        return None;
    }
    proof {
        assert(b@.subrange(0, 7) =~= bearer_prefix());
    }
    let rest: &[u8] = &b[7..43];
    match parse_uuid_bytes(rest) {
        Some(u) => Some(u),
        None => None,
    }
}

/// What the guard answers for a given header list and a given lookup
/// answer, before the lookup is made: the decision on the evidence alone.
pub open spec fn token_decision(headers: Seq<Seq<char>>) -> Result<int, SessionTokenError> {
    if headers.len() == 0 {
        Err(SessionTokenError::Missing)
    } else if headers.len() > 1 {
        Err(SessionTokenError::BadCount)
    } else if is_bearer_token(vstd::utf8::encode_utf8(headers[0])) {
        Ok(bearer_value(vstd::utf8::encode_utf8(headers[0])))
    } else {
        Err(SessionTokenError::Missing)
    }
}

pub open spec fn views_of(headers: Seq<String>) -> Seq<Seq<char>> {
    headers.map_values(|h: String| h@)
}

/// Examines the `Authorization` occurrences: zero is `Missing`, more than
/// one is `BadCount` (an ambiguous credential is never resolved by picking
/// one), and a single occurrence yields its token exactly when it is
/// well-formed — any other shape is `Missing`.
pub fn check_authorization(headers: &Vec<String>) -> (r: Result<Uuid, SessionTokenError>)
    ensures
        r matches Err(e) ==> token_decision(views_of(headers@)) == Result::<
            int,
            SessionTokenError,
        >::Err(e),
        r matches Ok(u) ==> token_decision(views_of(headers@)) == Result::<
            int,
            SessionTokenError,
        >::Ok(u.value as int),
    {
    if headers.len() == 0 {
        return Err(SessionTokenError::Missing);
    }
    if headers.len() > 1 {
        return Err(SessionTokenError::BadCount);
    }
    match extract_token(headers[0].as_str()) {
        Some(u) => Ok(u),
        None => Err(SessionTokenError::Missing),
    }
}

/// The guard's verdict on the outcome of the session lookup: a failed
/// lookup is an infrastructure condition (`BadConnect`); no session, a
/// session without its user, and a session that is not authenticable are
/// all `Missing`, indistinguishable from an absent credential; an
/// authenticable session and its user are admitted.
pub fn authorize(lookup: Result<Option<(Session, User)>, Failure>) -> (r: Result<
    SessionGuard,
    SessionTokenError,
>)
    ensures
        lookup is Err ==> r == Result::<SessionGuard, SessionTokenError>::Err(
            SessionTokenError::BadConnect,
        ),
        lookup matches Ok(None) ==> r == Result::<SessionGuard, SessionTokenError>::Err(
            SessionTokenError::Missing,
        ),
        lookup matches Ok(Some(p)) ==> {
            if p.0.authenticable_spec() {
                r matches Ok(g) && g.spec_session() == p.0 && g.spec_user() == p.1
            } else {
                r == Result::<SessionGuard, SessionTokenError>::Err(SessionTokenError::Missing)
            }
        },
{
    match lookup {
        Err(_) => Err(SessionTokenError::BadConnect),
        Ok(None) => Err(SessionTokenError::Missing),
        Ok(Some((session, user))) => {
            if session.authenticable() {
                Ok(SessionGuard(session, user))
            } else {
                Err(SessionTokenError::Missing)
            }
        },
    }
}

/// Evaluates the guard against the store: extracts the single well-formed
/// bearer token, resolves it to a session and user, and admits the request
/// exactly when the session is authenticable.
pub fn authenticate(store: &Store, headers: &Vec<String>) -> (r: Result<
    SessionGuard,
    SessionTokenError,
>)
    requires
        store.wf(),
    ensures
        token_decision(views_of(headers@)) matches Err(e) ==> r == Result::<
            SessionGuard,
            SessionTokenError,
        >::Err(e),
        token_decision(views_of(headers@)) matches Ok(v) ==> {
            let tok = Uuid { value: v as u128 };
            if store.has_session(tok) && store.has_user(store.session_at(tok).user_id)
                && store.session_at(tok).authenticable_spec() {
                r matches Ok(g) && g.spec_session() == store.session_at(tok) && g.spec_user()
                    == store.user_at(store.session_at(tok).user_id)
            } else {
                r == Result::<SessionGuard, SessionTokenError>::Err(SessionTokenError::Missing)
            }
        },
{
    match check_authorization(headers) {
        Err(e) => Err(e),
        Ok(token) => authorize(Ok(store.find_session_with_user(token))),
    }
}

} // verus!
