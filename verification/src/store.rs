//! The relational store, modeled.
//!
//! `Store` holds the three tables as plain vectors with the invariants the
//! schema enforces: row ids are unique per table, user emails are unique,
//! and every id the store itself issued is below the issue counter.  A
//! `Transaction` is a private copy of the store; `with_transaction` runs a
//! caller-supplied unit of work on such a copy and installs the copy's
//! final state exactly when the work returns `Commit` — for `Reject` and
//! `Fail` the store is left untouched, so no write of a discarded unit of
//! work is ever visible.

use crate::invite::Invite;
use crate::outcome::Outcome;
use crate::secret::Secret;
use crate::session::{Session, SessionKind};
use crate::user::User;
use crate::uuid::Uuid;
use vstd::prelude::*;

verus! {

pub struct Store {
    pub users: Vec<User>,
    pub sessions: Vec<Session>,
    pub invites: Vec<Invite>,
    /// The next value the store issues as a row id.
    pub next_row: u64,
}

pub open spec fn user_found(users: Seq<User>, id: Uuid) -> bool {
    exists|i: int| 0 <= i < users.len() && (#[trigger] users[i]).id == id
}

pub open spec fn user_pos(users: Seq<User>, id: Uuid) -> int {
    choose|i: int| 0 <= i < users.len() && (#[trigger] users[i]).id == id
}

pub open spec fn email_found(users: Seq<User>, email: Seq<char>) -> bool {
    exists|i: int| 0 <= i < users.len() && (#[trigger] users[i]).email@ =~= email
}

pub open spec fn email_pos(users: Seq<User>, email: Seq<char>) -> int {
    choose|i: int| 0 <= i < users.len() && (#[trigger] users[i]).email@ =~= email
}

pub open spec fn session_found(sessions: Seq<Session>, id: Uuid) -> bool {
    exists|i: int| 0 <= i < sessions.len() && (#[trigger] sessions[i]).id == id
}

pub open spec fn session_pos(sessions: Seq<Session>, id: Uuid) -> int {
    choose|i: int| 0 <= i < sessions.len() && (#[trigger] sessions[i]).id == id
}

pub open spec fn invite_found(invites: Seq<Invite>, id: Uuid) -> bool {
    exists|i: int| 0 <= i < invites.len() && (#[trigger] invites[i]).id == id
}

pub open spec fn invite_pos(invites: Seq<Invite>, id: Uuid) -> int {
    choose|i: int| 0 <= i < invites.len() && (#[trigger] invites[i]).id == id
}

impl Store {
    /// The invariants the schema enforces: unique row ids per table,
    /// unique user emails, and issued ids below the issue counter.
    pub open spec fn wf(self) -> bool {
        &&& forall|i: int, j: int|
            0 <= i < self.users@.len() && 0 <= j < self.users@.len() && (#[trigger] self.users@[i]).id
                == (#[trigger] self.users@[j]).id ==> i == j
        &&& forall|i: int, j: int|
            0 <= i < self.users@.len() && 0 <= j < self.users@.len() && (#[trigger] self.users@[i]).email@
                =~= (#[trigger] self.users@[j]).email@ ==> i == j
        &&& forall|i: int, j: int|
            0 <= i < self.sessions@.len() && 0 <= j < self.sessions@.len() && (
            #[trigger] self.sessions@[i]).id == (#[trigger] self.sessions@[j]).id ==> i == j
        &&& forall|i: int, j: int|
            0 <= i < self.invites@.len() && 0 <= j < self.invites@.len() && (
            #[trigger] self.invites@[i]).id == (#[trigger] self.invites@[j]).id ==> i == j
        &&& forall|i: int|
            0 <= i < self.users@.len() ==> (#[trigger] self.users@[i]).id.value < self.next_row
        &&& forall|i: int|
            0 <= i < self.sessions@.len() ==> (#[trigger] self.sessions@[i]).id.value
                < self.next_row
    }

    /// Two stores hold the same data: their tables and counters agree.
    pub open spec fn same_state(self, other: Store) -> bool {
        &&& self.users@ == other.users@
        &&& self.sessions@ == other.sessions@
        &&& self.invites@ == other.invites@
        &&& self.next_row == other.next_row
    }

    pub open spec fn has_user(self, id: Uuid) -> bool {
        user_found(self.users@, id)
    }

    pub open spec fn user_at(self, id: Uuid) -> User {
        self.users@[user_pos(self.users@, id)]
    }

    pub open spec fn has_email(self, email: Seq<char>) -> bool {
        email_found(self.users@, email)
    }

    pub open spec fn user_with_email(self, email: Seq<char>) -> User {
        self.users@[email_pos(self.users@, email)]
    }

    pub open spec fn has_session(self, id: Uuid) -> bool {
        session_found(self.sessions@, id)
    }

    pub open spec fn session_at(self, id: Uuid) -> Session {
        self.sessions@[session_pos(self.sessions@, id)]
    }

    pub open spec fn has_invite(self, id: Uuid) -> bool {
        invite_found(self.invites@, id)
    }

    pub open spec fn invite_at(self, id: Uuid) -> Invite {
        self.invites@[invite_pos(self.invites@, id)]
    }

    /// An empty store.
    pub fn new() -> (r: Store)
        ensures
            r.users@.len() == 0,
            r.sessions@.len() == 0,
            r.invites@.len() == 0,
            r.next_row == 0,
            r.wf(),
    {
        Store { users: Vec::new(), sessions: Vec::new(), invites: Vec::new(), next_row: 0 }
    }

    /// Looks a user up by id.
    pub fn find_user(&self, id: Uuid) -> (r: Option<User>)
        requires
            self.wf(),
        ensures
            r is Some <==> self.has_user(id),
            r matches Some(u) ==> u == self.user_at(id) && u.id == id,
    {
        let n = self.users.len();
        let mut i: usize = 0;
        while i < n
            invariant
                n == self.users@.len(),
                0 <= i <= n,
                self.wf(),
                forall|j: int| 0 <= j < i ==> (#[trigger] self.users@[j]).id != id,
            decreases n - i,
        {
            if self.users[i].id == id {
                let u = self.users[i].clone();
                proof {
                    assert(self.users@[i as int].id == id);
                    assert(user_pos(self.users@, id) == i);
                }
                return Some(u);
            }
            i = i + 1;
        }
        None
    }

    /// Looks a user up by email.
    pub fn find_user_by_email(&self, email: &String) -> (r: Option<User>)
        requires
            self.wf(),
        ensures
            r is Some <==> self.has_email(email@),
            r matches Some(u) ==> u == self.user_with_email(email@) && u.email@ == email@,
    {
        let n = self.users.len();
        let mut i: usize = 0;
        while i < n
            invariant
                n == self.users@.len(),
                0 <= i <= n,
                self.wf(),
                forall|j: int| 0 <= j < i ==> !((#[trigger] self.users@[j]).email@ =~= email@),
            decreases n - i,
        {
            if self.users[i].email == *email {
                let u = self.users[i].clone();
                proof {
                    assert(self.users@[i as int].email@ =~= email@);
                    assert(email_pos(self.users@, email@) == i);
                }
                return Some(u);
            }
            i = i + 1;
        }
        None
    }

    /// Looks a session up by id.
    pub fn find_session(&self, id: Uuid) -> (r: Option<Session>)
        requires
            self.wf(),
        ensures
            r is Some <==> self.has_session(id),
            r matches Some(s) ==> s == self.session_at(id) && s.id == id,
    {
        let n = self.sessions.len();
        let mut i: usize = 0;
        while i < n
            invariant
                n == self.sessions@.len(),
                0 <= i <= n,
                self.wf(),
                forall|j: int| 0 <= j < i ==> (#[trigger] self.sessions@[j]).id != id,
            decreases n - i,
        {
            if self.sessions[i].id == id {
                let s = self.sessions[i];
                proof {
                    assert(self.sessions@[i as int].id == id);
                    assert(session_pos(self.sessions@, id) == i);
                }
                return Some(s);
            }
            i = i + 1;
        }
        None
    }

    /// Resolves a session id to the session and its owning user.
    pub fn find_session_with_user(&self, id: Uuid) -> (r: Option<(Session, User)>)
        requires
            self.wf(),
        ensures
            r is Some <==> (self.has_session(id) && self.has_user(self.session_at(id).user_id)),
            r matches Some(p) ==> p.0 == self.session_at(id) && p.1 == self.user_at(p.0.user_id),
    {
        match self.find_session(id) {
            None => None,
            Some(session) => match self.find_user(session.user_id) {
                None => None,
                Some(user) => Some((session, user)),
            },
        }
    }

    /// Looks an invite up by id.
    pub fn find_invite(&self, id: Uuid) -> (r: Option<Invite>)
        requires
            self.wf(),
        ensures
            r is Some <==> self.has_invite(id),
            r matches Some(v) ==> v == self.invite_at(id) && v.id == id,
    {
        let n = self.invites.len();
        let mut i: usize = 0;
        while i < n
            invariant
                n == self.invites@.len(),
                0 <= i <= n,
                self.wf(),
                forall|j: int| 0 <= j < i ==> (#[trigger] self.invites@[j]).id != id,
            decreases n - i,
        {
            if self.invites[i].id == id {
                let v = self.invites[i];
                proof {
                    assert(self.invites@[i as int].id == id);
                    assert(invite_pos(self.invites@, id) == i);
                }
                return Some(v);
            }
            i = i + 1;
        }
        None
    }

    /// Inserts a new user row under a freshly issued id; refuses an email
    /// that is already taken, leaving the store unchanged.
    pub fn insert_user(&mut self, email: String, password: Secret, now: i64) -> (r: Option<User>)
        requires
            old(self).wf(),
            old(self).next_row < u64::MAX,
        ensures
            final(self).wf(),
            r is Some <==> !old(self).has_email(email@),
            r matches Some(u) ==> {
                &&& u == (User {
                    id: Uuid { value: old(self).next_row as u128 },
                    email: email,
                    password: password,
                    created_at: now,
                    updated_at: now,
                })
                &&& final(self).users@ == old(self).users@.push(u)
                &&& final(self).sessions@ == old(self).sessions@
                &&& final(self).invites@ == old(self).invites@
                &&& final(self).next_row == old(self).next_row + 1
            },
            r is None ==> *final(self) == *old(self),
    {
        if self.find_user_by_email(&email).is_some() {
            return None;
        }
        let id = Uuid { value: self.next_row as u128 };
        let user = User { id, email, password, created_at: now, updated_at: now };
        let copy = user.clone();
        self.users.push(user);
        self.next_row = self.next_row + 1;
        Some(copy)
    }

    /// Inserts a new session row under a freshly issued id.
    pub fn create_session(&mut self, kind: SessionKind, user_id: Uuid, valid: bool, now: i64) -> (r:
        Session)
        requires
            old(self).wf(),
            old(self).next_row < u64::MAX,
        ensures
            final(self).wf(),
            r == (Session {
                id: Uuid { value: old(self).next_row as u128 },
                kind: kind.code_spec(),
                user_id: user_id,
                valid: valid,
                created_at: now,
                updated_at: now,
            }),
            final(self).sessions@ == old(self).sessions@.push(r),
            final(self).users@ == old(self).users@,
            final(self).invites@ == old(self).invites@,
            final(self).next_row == old(self).next_row + 1,
    {
        let session = Session {
            id: Uuid { value: self.next_row as u128 },
            kind: kind.code(),
            user_id,
            valid,
            created_at: now,
            updated_at: now,
        };
        self.sessions.push(session);
        self.next_row = self.next_row + 1;
        session
    }

    /// Inserts an invite row, as the administrative action that issues
    /// invitations; refuses an id that is already taken.
    pub fn insert_invite(&mut self, invite: Invite) -> (r: bool)
        requires
            old(self).wf(),
        ensures
            final(self).wf(),
            r <==> !old(self).has_invite(invite.id),
            r ==> {
                &&& final(self).invites@ == old(self).invites@.push(invite)
                &&& final(self).users@ == old(self).users@
                &&& final(self).sessions@ == old(self).sessions@
                &&& final(self).next_row == old(self).next_row
            },
            !r ==> *final(self) == *old(self),
    {
        if self.find_invite(invite.id).is_some() {
            return false;
        }
        self.invites.push(invite);
        true
    }

    /// Replaces the invite row that has the id of `invite`; reports
    /// whether such a row existed, and changes nothing when none did.
    pub fn update_invite(&mut self, invite: Invite) -> (r: bool)
        requires
            old(self).wf(),
        ensures
            final(self).wf(),
            r <==> old(self).has_invite(invite.id),
            r ==> {
                &&& final(self).invites@ == old(self).invites@.update(
                    invite_pos(old(self).invites@, invite.id),
                    invite,
                )
                &&& final(self).users@ == old(self).users@
                &&& final(self).sessions@ == old(self).sessions@
                &&& final(self).next_row == old(self).next_row
            },
            !r ==> *final(self) == *old(self),
    {
        let n = self.invites.len();
        let mut i: usize = 0;
        while i < n
            invariant
                *self == *old(self),
                n == self.invites@.len(),
                0 <= i <= n,
                self.wf(),
                forall|j: int| 0 <= j < i ==> (#[trigger] self.invites@[j]).id != invite.id,
            decreases n - i,
        {
            if self.invites[i].id == invite.id {
                proof {
                    assert(self.invites@[i as int].id == invite.id);
                    assert(invite_pos(self.invites@, invite.id) == i);
                }
                self.invites[i] = invite;
                return true;
            }
            i = i + 1;
        }
        false
    }
}

impl Clone for Store {
    /// Cloning yields a store that holds the same data.
    fn clone(&self) -> (r: Self)
        ensures
            r.same_state(*self),
    {
        Store {
            users: clone_users(&self.users),
            sessions: copy_sessions(&self.sessions),
            invites: copy_invites(&self.invites),
            next_row: self.next_row,
        }
    }
}

fn clone_users(v: &Vec<User>) -> (r: Vec<User>)
    ensures
        r@ == v@,
{
    let n = v.len();
    let mut r: Vec<User> = Vec::new();
    let mut i: usize = 0;
    while i < n
        invariant
            n == v@.len(),
            0 <= i <= n,
            r@ =~= v@.subrange(0, i as int),
        decreases n - i,
    {
        r.push(v[i].clone());
        i = i + 1;
    }
    proof {
        assert(r@ =~= v@);
    }
    r
}

fn copy_sessions(v: &Vec<Session>) -> (r: Vec<Session>)
    ensures
        r@ == v@,
{
    let n = v.len();
    let mut r: Vec<Session> = Vec::new();
    let mut i: usize = 0;
    while i < n
        invariant
            n == v@.len(),
            0 <= i <= n,
            r@ =~= v@.subrange(0, i as int),
        decreases n - i,
    {
        r.push(v[i]);
        i = i + 1;
    }
    proof {
        assert(r@ =~= v@);
    }
    r
}

fn copy_invites(v: &Vec<Invite>) -> (r: Vec<Invite>)
    ensures
        r@ == v@,
{
    let n = v.len();
    let mut r: Vec<Invite> = Vec::new();
    let mut i: usize = 0;
    while i < n
        invariant
            n == v@.len(),
            0 <= i <= n,
            r@ =~= v@.subrange(0, i as int),
        decreases n - i,
    {
        r.push(v[i]);
        i = i + 1;
    }
    proof {
        assert(r@ =~= v@);
    }
    r
}

/// A transaction-scoped copy of the store: a unit of work reads and writes
/// this copy, and the copy becomes the store exactly when the work commits.
pub struct Transaction {
    pub st: Store,
}

impl Store {
    /// Runs a unit of work inside a transaction.  The work receives a
    /// transaction holding the store's data, and its outcome decides the
    /// transaction's fate: the transaction state is committed if and only
    /// if the work returns `Commit`; on `Reject` and `Fail` the store is
    /// exactly as before, so no row written by the discarded unit of work
    /// remains visible.
    pub fn with_transaction<C, R, E, F: FnOnce(Transaction) -> (Transaction, Outcome<C, R, E>)>(
        &mut self,
        work: F,
    ) -> (r: Outcome<C, R, E>)
        requires
            forall|t: Transaction|
                t.st.same_state(*old(self)) ==> #[trigger] call_requires(work, (t,)),
        ensures
            exists|t0: Transaction, fin: Transaction|
                {
                    &&& t0.st.same_state(*old(self))
                    &&& #[trigger] call_ensures(work, (t0,), (fin, r))
                    &&& (r is Commit ==> *final(self) == fin.st)
                    &&& (!(r is Commit) ==> *final(self) == *old(self))
                },
    {
        let snapshot = self.clone();
        let (fin, out) = work(Transaction { st: snapshot });
        match &out {
            Outcome::Commit(_) => {
                *self = fin.st;
            },
            Outcome::Reject(_) => {},
            Outcome::Fail(_) => {},
        }
        out
    }
}

/// The fate of a unit of work once the store's own commit step has had its
/// say, for stores whose commit can fail: a failed commit replaces the
/// work's `Commit` by that failure, while a `Reject` or `Fail` stands as it
/// is — rollback trouble is logged by the caller and never turns a
/// rejection into anything else.
pub fn settle<C, R, E>(work: Outcome<C, R, E>, commit_error: Option<E>) -> (r: Outcome<C, R, E>)
    ensures
        work is Commit && commit_error is None ==> r == work,
        work is Commit ==> (commit_error matches Some(e) ==> r == Outcome::<C, R, E>::Fail(e)),
        work is Reject ==> r == work,
        work is Fail ==> r == work,
{
    match work {
        Outcome::Commit(c) => match commit_error {
            None => Outcome::Commit(c),
            Some(e) => Outcome::Fail(e),
        },
        Outcome::Reject(v) => Outcome::Reject(v),
        Outcome::Fail(e) => Outcome::Fail(e),
    }
}

} // verus!
