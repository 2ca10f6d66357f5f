//! Bearer-token sessions.
//!
//! A session row carries its kind as the stored integer; `kind()` decodes it
//! and `authenticable()` decides whether the session may authenticate a
//! request: it holds exactly of a valid session of a recognized kind.

use crate::uuid::Uuid;
use vstd::prelude::*;

verus! {

#[derive(Debug, Clone, Copy, PartialEq, Eq, Structural)]
pub struct Session {
    pub id: Uuid,
    pub kind: u32,
    pub user_id: Uuid,
    pub valid: bool,
    pub created_at: i64,
    pub updated_at: i64,
}

#[derive(Debug, Clone, Copy, PartialEq, Eq, Structural, Hash)]
pub enum SessionKind {
    Invalid,
    Login,
    Grant,
}

impl SessionKind {
    /// The integer under which this kind is stored.
    pub open spec fn code_spec(self) -> u32 {
        match self {
            SessionKind::Invalid => 0,
            SessionKind::Login => 1,
            SessionKind::Grant => 2,
        }
    }

    pub fn code(self) -> (r: u32)
        ensures
            r == self.code_spec(),
    {
        match self {
            SessionKind::Invalid => 0,
            SessionKind::Login => 1,
            SessionKind::Grant => 2,
        }
    }
}

impl Session {
    /// The kind the stored integer denotes; anything unrecognized is
    /// `Invalid`.
    pub open spec fn kind_spec(self) -> SessionKind {
        if self.kind == 1 {
            SessionKind::Login
        } else if self.kind == 2 {
            SessionKind::Grant
        } else {
            SessionKind::Invalid
        }
    }

    pub fn kind(&self) -> (r: SessionKind)
        ensures
            r == self.kind_spec(),
    {
        if self.kind == 1 {
            SessionKind::Login
        } else if self.kind == 2 {
            SessionKind::Grant
        } else {
            SessionKind::Invalid
        }
    }

    /// Whether the session may authenticate a request: valid, and of kind
    /// `Login` or `Grant`.
    pub open spec fn authenticable_spec(self) -> bool {
        self.valid && (self.kind == 1 || self.kind == 2)
    }

    pub fn authenticable(&self) -> (r: bool)
        ensures
            r == self.authenticable_spec(),
    {
        self.valid && match self.kind() {
            SessionKind::Login | SessionKind::Grant => true,
            SessionKind::Invalid => false,
        }
    }
}

/// `authenticable` holds exactly of `(valid, Login)` and `(valid, Grant)`:
/// for every session it is equivalent to the valid flag together with a
/// recognized decoded kind, so it is false for every invalid session and
/// for every session of unrecognized kind.
pub proof fn lemma_authenticable_exactly(s: Session)
    ensures
        s.authenticable_spec() <==> (s.valid && (s.kind_spec() == SessionKind::Login
            || s.kind_spec() == SessionKind::Grant)),
{
}

} // verus!
