//! A slot for a value that is fetched remotely.
//!
//! Every request carries a token. The slot remembers the token of the latest
//! request and takes an outcome only while it waits for that very token, so
//! the outcome of a superseded request never reaches the slot. Issuing a new
//! request is the only way to cancel an old one.

use vstd::laws_eq::obeys_view_eq;
use vstd::prelude::*;

verus! {

/// The state of one slot: nothing requested yet, a request in flight, or the
/// outcome of the latest request.
#[derive(Debug, PartialEq, Eq)]
pub enum Promise<T, D, E> {
    Empty,
    Pending { token: D },
    Resolved { token: D, value: T },
    Rejected { token: D, error: E },
}

/// What a view of the slot shows: nothing, or one of three sub-views with the
/// data that this sub-view draws.
#[derive(Debug, PartialEq, Eq)]
pub enum Shown<'a, T, D, E> {
    Nothing,
    Pending(&'a D),
    Resolved(&'a T),
    Rejected(&'a E),
}

impl<T: Clone, D: Clone, E: Clone> Clone for Promise<T, D, E> {
    /// A copy in the same state, which holds copies of what the slot holds.
    fn clone(&self) -> (copy: Self)
        ensures
            match *self {
                Promise::Empty => copy is Empty,
                Promise::Pending { token } => copy is Pending && cloned(token, copy->Pending_token),
                Promise::Resolved { token, value } => copy is Resolved && cloned(
                    token,
                    copy->Resolved_token,
                ) && cloned(value, copy->value),
                Promise::Rejected { token, error } => copy is Rejected && cloned(
                    token,
                    copy->Rejected_token,
                ) && cloned(error, copy->error),
            },
    {
        match self {
            Promise::Empty => Promise::Empty,
            Promise::Pending { token } => Promise::Pending { token: token.clone() },
            Promise::Resolved { token, value } => Promise::Resolved {
                token: token.clone(),
                value: value.clone(),
            },
            Promise::Rejected { token, error } => Promise::Rejected {
                token: token.clone(),
                error: error.clone(),
            },
        }
    }
}

impl<T, D: PartialEq + View, E> Promise<T, D, E> {
    /// Whether the slot waits for the outcome of the request `token`.
    pub open spec fn awaits(self, token: D) -> bool {
        self matches Promise::Pending { token: pending } && pending@ == token@
    }

    /// The slot after a request with `token` was issued.
    pub open spec fn deferred(token: D) -> Self {
        Promise::Pending { token }
    }

    /// The slot after the outcome `result` of the request `token` arrived.
    pub open spec fn updated(self, token: D, result: Result<T, E>) -> Self {
        if self.awaits(token) {
            match result {
                Ok(value) => Promise::Resolved { token, value },
                Err(error) => Promise::Rejected { token, error },
            }
        } else {
            self
        }
    }

    /// A slot for which nothing was requested yet.
    pub fn new() -> (slot: Self)
        ensures
            slot == Promise::<T, D, E>::Empty,
    {
        Promise::Empty
    }

    /// Marks the slot as waiting for `token`, whatever it held before.
    pub fn defer(&mut self, token: D)
        ensures
            *final(self) == Self::deferred(token),
    {
        *self = Promise::Pending { token };
    }

    /// Takes the outcome of the request `token` if the slot waits for it, and
    /// says whether it did. Any other outcome leaves the slot as it was: one
    /// under another token, and one that arrives when the slot holds an
    /// outcome already or was never asked for anything.
    pub fn update(&mut self, token: D, result: Result<T, E>) -> (applied: bool)
        requires
            obeys_view_eq::<D>(),
        ensures
            applied == old(self).awaits(token),
            *final(self) == old(self).updated(token, result),
    {
        proof {
            reveal(obeys_view_eq);
        }
        let awaited = match &*self {
            Promise::Pending { token: pending } => *pending == token,
            _ => false,
        };
        if awaited {
            *self = match result {
                Ok(value) => Promise::Resolved { token, value },
                Err(error) => Promise::Rejected { token, error },
            };
        }
        awaited
    }

    /// Whether a request is in flight.
    pub fn is_pending(&self) -> (pending: bool)
        ensures
            pending == (*self is Pending),
    {
        matches!(self, Promise::Pending { .. })
    }

    /// Whether the latest request succeeded.
    pub fn is_resolved(&self) -> (resolved: bool)
        ensures
            resolved == (*self is Resolved),
    {
        matches!(self, Promise::Resolved { .. })
    }

    /// Whether the latest request failed.
    pub fn is_rejected(&self) -> (rejected: bool)
        ensures
            rejected == (*self is Rejected),
    {
        matches!(self, Promise::Rejected { .. })
    }

    /// The value that the latest request brought, if it succeeded.
    pub fn value(&self) -> (value: Option<&T>)
        ensures
            match *self {
                Promise::Resolved { value: held, .. } => value == Some(&held),
                _ => value is None,
            },
    {
        match self {
            Promise::Resolved { value, .. } => Some(value),
            _ => None,
        }
    }

    /// The sub-view that a view of the slot shows, with its data. The choice
    /// depends on the state of the slot and on nothing else.
    pub fn shown(&self) -> (shown: Shown<'_, T, D, E>)
        ensures
            match *self {
                Promise::Empty => shown == Shown::<T, D, E>::Nothing,
                Promise::Pending { token } => shown == Shown::<T, D, E>::Pending(&token),
                Promise::Resolved { value, .. } => shown == Shown::<T, D, E>::Resolved(&value),
                Promise::Rejected { error, .. } => shown == Shown::<T, D, E>::Rejected(&error),
            },
    {
        match self {
            Promise::Empty => Shown::Nothing,
            Promise::Pending { token } => Shown::Pending(token),
            Promise::Resolved { value, .. } => Shown::Resolved(value),
            Promise::Rejected { error, .. } => Shown::Rejected(error),
        }
    }

    /// A pending slot ignores the outcome of any request but the one it waits
    /// for.
    pub proof fn law_stale_outcome_is_dropped(first: D, second: D, result: Result<T, E>)
        requires
            first@ != second@,
        ensures
            Self::deferred(first).updated(second, result) == Self::deferred(first),
    {
    }

    /// A pending slot takes the outcome of the request it waits for: a value
    /// resolves it, an error rejects it, and either is held under the token.
    pub proof fn law_awaited_outcome_is_taken(token: D, result: Result<T, E>)
        ensures
            Self::deferred(token).updated(token, result) == match result {
                Ok(value) => Promise::<T, D, E>::Resolved { token, value },
                Err(error) => Promise::<T, D, E>::Rejected { token, error },
            },
    {
    }

    /// Only a pending slot takes an outcome: once a request has its outcome,
    /// and before any request, every further outcome is ignored, under the
    /// same token too, until the next request is issued.
    pub proof fn law_outcome_is_taken_once(slot: Self, token: D, result: Result<T, E>)
        requires
            !(slot is Pending),
        ensures
            slot.updated(token, result) == slot,
    {
    }

    /// A new request supersedes whatever went before: after it only its own
    /// outcome is taken.
    pub proof fn law_request_supersedes(
        first: D,
        second: D,
        late: Result<T, E>,
        current: Result<T, E>,
    )
        requires
            first@ != second@,
        ensures
            Self::deferred(second).updated(first, late) == Self::deferred(second),
            Self::deferred(second).updated(first, late).updated(second, current)
                == Self::deferred(second).updated(second, current),
    {
    }
}

} // verus!
