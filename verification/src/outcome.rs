//! The tri-state result of a unit of transactional work.
//!
//! `Commit` means the work succeeded and its writes should persist, `Reject`
//! means a business rule refused the operation and the writes must be
//! discarded, and `Fail` means an infrastructure error occurred and the
//! writes must be discarded as well.  The combinators short-circuit: once a
//! `Reject` or `Fail` has occurred, no later step runs.

use vstd::prelude::*;

verus! {

pub enum Outcome<C, R, E> {
    Commit(C),
    Reject(R),
    Fail(E),
}

impl<C, R, E> Outcome<C, R, E> {
    /// Replaces a `Commit` by `other`; a `Reject` or `Fail` passes through
    /// unchanged and `other` is discarded.
    pub fn and<C2>(self, other: Outcome<C2, R, E>) -> (r: Outcome<C2, R, E>)
        ensures
            self is Commit ==> r == other,
            self matches Outcome::Reject(v) ==> r == Outcome::<C2, R, E>::Reject(v),
            self matches Outcome::Fail(e) ==> r == Outcome::<C2, R, E>::Fail(e),
    {
        match self {
            Outcome::Commit(_) => other,
            Outcome::Reject(v) => Outcome::Reject(v),
            Outcome::Fail(e) => Outcome::Fail(e),
        }
    }

    /// On `Commit(c)` runs `then(c)`; a `Reject` or `Fail` short-circuits
    /// and `then` is never invoked.
    pub fn and_then<C2, F: FnOnce(C) -> Outcome<C2, R, E>>(self, then: F) -> (r: Outcome<
        C2,
        R,
        E,
    >)
        requires
            self matches Outcome::Commit(c) ==> call_requires(then, (c,)),
        ensures
            self matches Outcome::Commit(c) ==> call_ensures(then, (c,), r),
            self matches Outcome::Reject(v) ==> r == Outcome::<C2, R, E>::Reject(v),
            self matches Outcome::Fail(e) ==> r == Outcome::<C2, R, E>::Fail(e),
    {
        match self {
            Outcome::Commit(c) => then(c),
            Outcome::Reject(v) => Outcome::Reject(v),
            Outcome::Fail(e) => Outcome::Fail(e),
        }
    }

    /// Transforms the `Fail` payload only; `then` is never invoked on a
    /// `Commit` or `Reject`.
    pub fn map_err<E2, F: FnOnce(E) -> E2>(self, map: F) -> (r: Outcome<C, R, E2>)
        requires
            self matches Outcome::Fail(e) ==> call_requires(map, (e,)),
        ensures
            self matches Outcome::Commit(c) ==> r == Outcome::<C, R, E2>::Commit(c),
            self matches Outcome::Reject(v) ==> r == Outcome::<C, R, E2>::Reject(v),
            self matches Outcome::Fail(e) ==> (r matches Outcome::Fail(e2) && call_ensures(
                map,
                (e,),
                e2,
            )),
    {
        match self {
            Outcome::Commit(c) => Outcome::Commit(c),
            Outcome::Reject(v) => Outcome::Reject(v),
            Outcome::Fail(e) => Outcome::Fail(map(e)),
        }
    }

    /// Transforms the `Reject` payload only; `map` is never invoked on a
    /// `Commit` or `Fail`.
    pub fn map_rollback<R2, F: FnOnce(R) -> R2>(self, map: F) -> (r: Outcome<C, R2, E>)
        requires
            self matches Outcome::Reject(v) ==> call_requires(map, (v,)),
        ensures
            self matches Outcome::Commit(c) ==> r == Outcome::<C, R2, E>::Commit(c),
            self matches Outcome::Reject(v) ==> (r matches Outcome::Reject(v2) && call_ensures(
                map,
                (v,),
                v2,
            )),
            self matches Outcome::Fail(e) ==> r == Outcome::<C, R2, E>::Fail(e),
    {
        match self {
            Outcome::Commit(c) => Outcome::Commit(c),
            Outcome::Reject(v) => Outcome::Reject(map(v)),
            Outcome::Fail(e) => Outcome::Fail(e),
        }
    }

    /// Transforms the `Commit` payload only; `map` is never invoked on a
    /// `Reject` or `Fail`.
    pub fn map<C2, F: FnOnce(C) -> C2>(self, map: F) -> (r: Outcome<C2, R, E>)
        requires
            self matches Outcome::Commit(c) ==> call_requires(map, (c,)),
        ensures
            self matches Outcome::Commit(c) ==> (r matches Outcome::Commit(c2) && call_ensures(
                map,
                (c,),
                c2,
            )),
            self matches Outcome::Reject(v) ==> r == Outcome::<C2, R, E>::Reject(v),
            self matches Outcome::Fail(e) ==> r == Outcome::<C2, R, E>::Fail(e),
    {
        match self {
            Outcome::Commit(c) => Outcome::Commit(map(c)),
            Outcome::Reject(v) => Outcome::Reject(v),
            Outcome::Fail(e) => Outcome::Fail(e),
        }
    }

    /// Collapses the outcome into a two-state result: `Commit` carries its
    /// value, `Reject` is flattened to `Ok(None)`, `Fail` propagates.
    pub fn into_result(self) -> (r: Result<Option<C>, E>)
        ensures
            self matches Outcome::Commit(c) ==> r == Result::<Option<C>, E>::Ok(Some(c)),
            self is Reject ==> r == Result::<Option<C>, E>::Ok(Option::<C>::None),
            self matches Outcome::Fail(e) ==> r == Result::<Option<C>, E>::Err(e),
    {
        match self {
            Outcome::Commit(c) => Ok(Some(c)),
            Outcome::Reject(_) => Ok(None),
            Outcome::Fail(e) => Err(e),
        }
    }

    /// Lifts a two-state result: `Ok` becomes `Commit` and `Err` becomes
    /// `Fail`, for store calls that cannot express a business rejection.
    pub fn from_result(res: Result<C, E>) -> (r: Outcome<C, R, E>)
        ensures
            res matches Ok(c) ==> r == Outcome::<C, R, E>::Commit(c),
            res matches Err(e) ==> r == Outcome::<C, R, E>::Fail(e),
    {
        match res {
            Ok(c) => Outcome::Commit(c),
            Err(e) => Outcome::Fail(e),
        }
    }
}

/// Extension that turns an optional value into an `Outcome`, supplying a
/// fallback outcome when the value is absent.
pub trait OutcomeExt<C, R, E>: Sized {
    /// The value that becomes a `Commit`, if the receiver holds one.
    spec fn commit_part(self) -> Option<C>;

    /// A present value becomes `Commit`; an absent one yields `default`.
    fn unwrap_outcome_or(self, default: Outcome<C, R, E>) -> (r: Outcome<C, R, E>)
        ensures
            self.commit_part() matches Some(c) ==> r == Outcome::<C, R, E>::Commit(c),
            self.commit_part() is None ==> r == default,
    ;

    /// A present value becomes `Commit`; an absent one yields `default()`,
    /// which is invoked only in that case.
    fn unwrap_outcome_or_else<F: FnOnce() -> Outcome<C, R, E>>(self, default: F) -> (r: Outcome<
        C,
        R,
        E,
    >)
        requires
            self.commit_part() is None ==> call_requires(default, ()),
        ensures
            self.commit_part() matches Some(c) ==> r == Outcome::<C, R, E>::Commit(c),
            self.commit_part() is None ==> call_ensures(default, (), r),
    ;
}

impl<C, R, E> OutcomeExt<C, R, E> for Option<C> {
    open spec fn commit_part(self) -> Option<C> {
        self
    }

    fn unwrap_outcome_or(self, default: Outcome<C, R, E>) -> (r: Outcome<C, R, E>) {
        match self {
            Some(c) => Outcome::Commit(c),
            None => default,
        }
    }

    fn unwrap_outcome_or_else<F: FnOnce() -> Outcome<C, R, E>>(self, default: F) -> (r: Outcome<
        C,
        R,
        E,
    >) {
        match self {
            Some(c) => Outcome::Commit(c),
            None => default(),
        }
    }
}

} // verus!
