//! Single-use invitations.
//!
//! An invite admits exactly one redemption: it is usable while it is active,
//! has a granter, and has not been redeemed by anyone.  `updated` computes
//! the row as a partial update leaves it, each field either replaced or
//! kept.

use crate::uuid::Uuid;
use vstd::prelude::*;

verus! {

#[derive(Debug, Clone, Copy, PartialEq, Eq, Structural)]
pub struct Invite {
    pub id: Uuid,
    pub creator_id: Uuid,
    pub granter_id: Option<Uuid>,
    pub user_id: Option<Uuid>,
    pub active: bool,
    pub created_at: i64,
    pub updated_at: i64,
}

impl Invite {
    /// Usable: active, granted, and not yet redeemed.
    pub open spec fn usable_spec(self) -> bool {
        self.active && self.granter_id is Some && self.user_id is None
    }

    pub fn usable(&self) -> (r: bool)
        ensures
            r == self.usable_spec(),
    {
        self.active && self.granter_id.is_some() && self.user_id.is_none()
    }

    /// The row after a partial update: each `Some` argument replaces the
    /// corresponding field, each `None` keeps it; the id and creation time
    /// never change, and the update time is set to `now`.
    pub fn updated(
        self,
        creator_id: Option<Uuid>,
        granter_id: Option<Option<Uuid>>,
        user_id: Option<Option<Uuid>>,
        active: Option<bool>,
        now: i64,
    ) -> (r: Invite)
        ensures
            r.id == self.id,
            r.creator_id == (match creator_id {
                Some(c) => c,
                None => self.creator_id,
            }),
            r.granter_id == (match granter_id {
                Some(g) => g,
                None => self.granter_id,
            }),
            r.user_id == (match user_id {
                Some(u) => u,
                None => self.user_id,
            }),
            r.active == (match active {
                Some(a) => a,
                None => self.active,
            }),
            r.created_at == self.created_at,
            r.updated_at == now,
    {
        Invite {
            id: self.id,
            creator_id: creator_id.unwrap_or(self.creator_id),
            granter_id: granter_id.unwrap_or(self.granter_id),
            user_id: user_id.unwrap_or(self.user_id),
            active: active.unwrap_or(self.active),
            created_at: self.created_at,
            updated_at: now,
        }
    }
}

} // verus!
