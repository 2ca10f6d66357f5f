//! The invite-redemption workflow: the one protocol that exercises the
//! whole core.
//!
//! Inside a single transaction it locates the invite, validates the new
//! account's fields, hashes the password (erasing the plaintext), inserts
//! the identity and consumes the invite — the identity row and the
//! consumed invite become visible together, or not at all.  Every step
//! yields an `Outcome`, and the first `Reject` or `Fail` aborts the whole
//! sequence.

use crate::invite::Invite;
use crate::outcome::{Outcome, OutcomeExt};
use crate::secret::{Failure, HashConfig, Secret};
use crate::store::{invite_pos, Store, Transaction};
use crate::user::User;
use crate::uuid::Uuid;
use vstd::prelude::*;

verus! {

/// The validated-shape input the presentation layer hands over.
pub struct UserCreateData {
    pub email: String,
    pub password: String,
    pub password_confirmation: String,
    pub invite: Uuid,
}

/// Why a registration was rejected.  Every case is caller-fixable except
/// `DatabaseError`, which reports a store anomaly inside the unit of work.
pub enum UpdateError {
    MismatchConfirmation,
    ShortPassword,
    InsecurePassword(Vec<String>),
    InvalidInvite,
    InvalidEmail,
    EmailInUse,
    DatabaseError,
}

/// Relies on zxcvbn::zxcvbn: estimates the password's strength with the
/// email as a user input.  Only what holds of every outcome is stated: the
/// score is 0 to 4, and a score under 3 comes with feedback holding at
/// least one suggestion (the warning text, when present, placed first).
/// The estimate is not a function of the two strings alone — guesses for
/// year and date matches are counted relative to the machine's current
/// year — so no more is assumed of it.
#[verifier::external_body]
fn password_strength(password: &String, email: &String) -> (r: (u8, Vec<String>))
    ensures
        r.0 <= 4,
        r.0 < 3 ==> r.1@.len() >= 1,
{
    let entropy = zxcvbn::zxcvbn(password.as_str(), &[email.as_str()]);
    let mut hints: Vec<String> = Vec::new();
    if let Some(feedback) = entropy.feedback() {
        if let Some(warning) = feedback.warning() {
            hints.push(format!("{}", warning));
        }
        for suggestion in feedback.suggestions() {
            hints.push(format!("{}", suggestion));
        }
    }
    (u8::from(entropy.score()), hints)
}

/// The UTF-8 bytes of a string value.
pub open spec fn utf8_bytes(s: Seq<char>) -> Seq<u8> {
    vstd::utf8::encode_utf8(s)
}

/// The password does not equal its confirmation.
pub open spec fn mismatched(data: UserCreateData) -> bool {
    data.password@ != data.password_confirmation@
}

/// The password is under the minimum length of 3 bytes.
pub open spec fn too_short(data: UserCreateData) -> bool {
    utf8_bytes(data.password@).len() < 3
}

/// A rejection for want of strength, carrying at least one improvement
/// hint.
pub open spec fn weak_rejection(r: Outcome<User, UpdateError, Failure>) -> bool {
    r matches Outcome::Reject(UpdateError::InsecurePassword(hints)) && hints@.len() >= 1
}

/// The store holds a usable invite under this id.
pub open spec fn invite_ok(st: Store, id: Uuid) -> bool {
    st.has_invite(id) && st.invite_at(id).usable_spec()
}

/// The invite as redemption leaves it: consumed by the new identity.
pub open spec fn consumed(invite: Invite, redeemer: Uuid, now: i64) -> Invite {
    Invite { user_id: Some(redeemer), active: false, updated_at: now, ..invite }
}

/// The decision on what the estimator returned: a score under the minimum
/// of 3 rejects the password, carrying the estimator's hints as they were
/// handed in; any other score accepts it.
pub fn assess_strength(score: u8, hints: Vec<String>) -> (r: Outcome<(), UpdateError, Failure>)
    ensures
        score >= 3 ==> r == Outcome::<(), UpdateError, Failure>::Commit(()),
        score < 3 ==> (r matches Outcome::Reject(UpdateError::InsecurePassword(h)) && h == hints),
{
    if score < 3 {
        Outcome::Reject(UpdateError::InsecurePassword(hints))
    } else {
        Outcome::Commit(())
    }
}

/// Checks the password's strength: the estimator has the last word, and
/// whichever way it falls, a rejection carries at least one improvement
/// hint.
pub fn validate_password(data: &UserCreateData) -> (r: Outcome<(), UpdateError, Failure>)
    ensures
        ({
            ||| r == Outcome::<(), UpdateError, Failure>::Commit(())
            ||| (r matches Outcome::Reject(UpdateError::InsecurePassword(hints)) && hints@.len()
                >= 1)
        }),
{
    let (score, hints) = password_strength(&data.password, &data.email);
    assess_strength(score, hints)
}

/// Locates the invite: a missing or unusable invite is a rejection.
pub fn find_invite(st: &Store, id: Uuid) -> (r: Outcome<Invite, UpdateError, Failure>)
    requires
        st.wf(),
    ensures
        invite_ok(*st, id) ==> r == Outcome::<Invite, UpdateError, Failure>::Commit(
            st.invite_at(id),
        ),
        !invite_ok(*st, id) ==> r == Outcome::<Invite, UpdateError, Failure>::Reject(
            UpdateError::InvalidInvite,
        ),
{
    match st.find_invite(id) {
        None => Outcome::Reject(UpdateError::InvalidInvite),
        Some(invite) => {
            if invite.usable() {
                Outcome::Commit(invite)
            } else {
                Outcome::Reject(UpdateError::InvalidInvite)
            }
        },
    }
}

/// What `create_user` leaves behind and returns, given the store it ran
/// against.
pub open spec fn create_user_post(
    pre: Store,
    fin: Store,
    r: Outcome<User, UpdateError, Failure>,
    data: UserCreateData,
    cfg: HashConfig,
    now: i64,
) -> bool {
    &&& (mismatched(data) ==> r == Outcome::<User, UpdateError, Failure>::Reject(
        UpdateError::MismatchConfirmation,
    ) && fin == pre)
    &&& (!mismatched(data) && too_short(data) ==> r == Outcome::<
        User,
        UpdateError,
        Failure,
    >::Reject(UpdateError::ShortPassword) && fin == pre)
    &&& (!mismatched(data) && !too_short(data) ==> ({
        ||| (weak_rejection(r) && fin == pre)
        ||| ({
            &&& (pre.has_email(data.email@) ==> r == Outcome::<
                User,
                UpdateError,
                Failure,
            >::Reject(UpdateError::EmailInUse) && fin == pre)
            &&& (!pre.has_email(data.email@) ==> (r matches Outcome::Commit(u) && {
                &&& u.id == (Uuid { value: pre.next_row as u128 })
                &&& u.email == data.email
                &&& u.created_at == now
                &&& u.updated_at == now
                &&& crate::secret::argon2_verified(u.password@, utf8_bytes(data.password@))
                    == Some(true)
                &&& fin.users@ == pre.users@.push(u)
                &&& fin.sessions@ == pre.sessions@
                &&& fin.invites@ == pre.invites@
                &&& fin.next_row == pre.next_row + 1
            }))
        })
    }))
}

/// Validates the account fields and inserts the identity row: password
/// must equal its confirmation, meet the minimum length, and meet the
/// minimum strength; the email must be free.  The plaintext buffer is
/// erased by the hashing step.
pub fn create_user(st: &mut Store, data: UserCreateData, cfg: &HashConfig, now: i64) -> (r: Outcome<
    User,
    UpdateError,
    Failure,
>)
    requires
        old(st).wf(),
        old(st).next_row < u64::MAX,
        cfg.wf(),
        utf8_bytes(data.password@).len() <= 0xFFFF_FFFF,
    ensures
        create_user_post(*old(st), *final(st), r, data, *cfg, now),
        final(st).wf(),
{
    if data.password != data.password_confirmation {
        return Outcome::Reject(UpdateError::MismatchConfirmation);
    }
    if data.password.as_str().len() < 3 {
        return Outcome::Reject(UpdateError::ShortPassword);
    }
    match validate_password(&data) {
        Outcome::Reject(e) => {
            return Outcome::Reject(e);
        },
        Outcome::Fail(e) => {
            return Outcome::Fail(e);
        },
        Outcome::Commit(_) => {},
    }
    let mut plaintext = data.password.into_bytes();
    let secret = Secret::hash(&mut plaintext, cfg);
    st.insert_user(data.email, secret, now).unwrap_outcome_or(
        Outcome::Reject(UpdateError::EmailInUse),
    )
}

/// What redemption leaves behind and returns: the first failing check
/// rejects the whole unit of work and the store keeps the same data; when
/// every check passes, the new identity and the consumed invite appear
/// together.
pub open spec fn redeem_post(
    pre: Store,
    fin: Store,
    r: Outcome<User, UpdateError, Failure>,
    data: UserCreateData,
    cfg: HashConfig,
    now: i64,
) -> bool {
    &&& (!invite_ok(pre, data.invite) ==> r == Outcome::<User, UpdateError, Failure>::Reject(
        UpdateError::InvalidInvite,
    ) && fin.same_state(pre))
    &&& (invite_ok(pre, data.invite) && mismatched(data) ==> r == Outcome::<
        User,
        UpdateError,
        Failure,
    >::Reject(UpdateError::MismatchConfirmation) && fin.same_state(pre))
    &&& (invite_ok(pre, data.invite) && !mismatched(data) && too_short(data) ==> r == Outcome::<
        User,
        UpdateError,
        Failure,
    >::Reject(UpdateError::ShortPassword) && fin.same_state(pre))
    &&& (invite_ok(pre, data.invite) && !mismatched(data) && !too_short(data) ==> ({
        ||| (weak_rejection(r) && fin.same_state(pre))
        ||| ({
            &&& (pre.has_email(data.email@) ==> r == Outcome::<
                User,
                UpdateError,
                Failure,
            >::Reject(UpdateError::EmailInUse) && fin.same_state(pre))
            &&& (!pre.has_email(data.email@) ==> (r matches Outcome::Commit(u) && {
                &&& u.id == (Uuid { value: pre.next_row as u128 })
                &&& u.email == data.email
                &&& u.created_at == now
                &&& crate::secret::argon2_verified(u.password@, utf8_bytes(data.password@))
                    == Some(true)
                &&& fin.users@ == pre.users@.push(u)
                &&& fin.sessions@ == pre.sessions@
                &&& fin.invites@ == pre.invites@.update(
                    invite_pos(pre.invites@, data.invite),
                    consumed(pre.invite_at(data.invite), u.id, now),
                )
                &&& fin.next_row == pre.next_row + 1
                &&& fin.has_invite(data.invite)
                &&& !fin.invite_at(data.invite).usable_spec()
                &&& fin.has_email(data.email@)
            }))
        })
    }))
}

/// An invite is consumed exactly once: when a redemption has committed, a
/// second redemption of the same invite id — whatever account data it
/// carries — is rejected as an invalid invite and leaves the store's data
/// unchanged, so no second identity is created.
pub proof fn lemma_invite_single_use(
    pre: Store,
    mid: Store,
    fin: Store,
    r1: Outcome<User, UpdateError, Failure>,
    r2: Outcome<User, UpdateError, Failure>,
    data1: UserCreateData,
    data2: UserCreateData,
    cfg1: HashConfig,
    cfg2: HashConfig,
    now1: i64,
    now2: i64,
)
    requires
        redeem_post(pre, mid, r1, data1, cfg1, now1),
        r1 is Commit,
        redeem_post(mid, fin, r2, data2, cfg2, now2),
        data2.invite == data1.invite,
    ensures
        r2 == Outcome::<User, UpdateError, Failure>::Reject(UpdateError::InvalidInvite),
        fin.same_state(mid),
{
}

/// The unit of work of one redemption, against the transaction's state.
fn redeem_work(t: Transaction, data: UserCreateData, cfg: HashConfig, now: i64) -> (res: (
    Transaction,
    Outcome<User, UpdateError, Failure>,
))
    requires
        t.st.wf(),
        t.st.next_row < u64::MAX,
        cfg.wf(),
        utf8_bytes(data.password@).len() <= 0xFFFF_FFFF,
    ensures
        redeem_post(t.st, res.0.st, res.1, data, cfg, now),
        res.0.st.wf(),
{
    let mut t = t;
    let ghost pre = t.st;
    let invite = match find_invite(&t.st, data.invite) {
        Outcome::Commit(invite) => invite,
        Outcome::Reject(e) => {
            return (t, Outcome::Reject(e));
        },
        Outcome::Fail(e) => {
            return (t, Outcome::Fail(e));
        },
    };
    let ghost invite_id = data.invite;
    let ghost email_view = data.email@;
    let user = match create_user(&mut t.st, data, &cfg, now) {
        Outcome::Commit(user) => user,
        Outcome::Reject(e) => {
            return (t, Outcome::Reject(e));
        },
        Outcome::Fail(e) => {
            return (t, Outcome::Fail(e));
        },
    };
    let consumed_invite = invite.updated(None, None, Some(Some(user.id)), Some(false), now);
    let updated = t.st.update_invite(consumed_invite);
    proof {
        assert(updated);
        let p = invite_pos(pre.invites@, invite_id);
        assert(pre.invites@[p].id == invite_id);
        assert(t.st.invites@ == pre.invites@.update(p, consumed_invite));
        assert(t.st.invites@[p].id == invite_id);
        assert(t.st.has_invite(invite_id));
        let q = invite_pos(t.st.invites@, invite_id);
        assert(t.st.invites@[q].id == invite_id);
        assert(q == p);
        assert(t.st.invite_at(invite_id) == consumed_invite);
        assert(t.st.users@[t.st.users@.len() - 1].email@ =~= email_view);
        assert(t.st.has_email(email_view));
    }
    (t, Outcome::Commit(user))
}

/// Redeems an invite: runs the whole sequence inside one transaction, so
/// that no partial write — an identity without a consumed invite, or the
/// reverse — is ever visible outside it.
pub fn redeem_invite(store: &mut Store, data: UserCreateData, cfg: &HashConfig, now: i64) -> (r:
    Outcome<User, UpdateError, Failure>)
    requires
        old(store).wf(),
        old(store).next_row < u64::MAX,
        cfg.wf(),
        utf8_bytes(data.password@).len() <= 0xFFFF_FFFF,
    ensures
        redeem_post(*old(store), *final(store), r, data, *cfg, now),
        final(store).wf(),
{
    let cfg_val = *cfg;
    let work = |t: Transaction| -> (res: (Transaction, Outcome<User, UpdateError, Failure>))
        requires
            t.st.wf(),
            t.st.next_row < u64::MAX,
            utf8_bytes(data.password@).len() <= 0xFFFF_FFFF,
            cfg_val.wf(),
        ensures
            redeem_post(t.st, res.0.st, res.1, data, cfg_val, now),
            res.0.st.wf(),
        { redeem_work(t, data, cfg_val, now) };
    let out = store.with_transaction(work);
    proof {
        let (t0, fin) = choose|t0: Transaction, fin: Transaction|
            {
                &&& t0.st.same_state(*old(store))
                &&& #[trigger] call_ensures(work, (t0,), (fin, out))
                &&& (out is Commit ==> *store == fin.st)
                &&& (!(out is Commit) ==> *store == *old(store))
            };
        assert(redeem_post(t0.st, fin.st, out, data, cfg_val, now));
        assert(redeem_post(*old(store), *store, out, data, cfg_val, now));
        assert(store.wf());
    }
    out
}

} // verus!
