//! The shared session context and the binding of it to decoded values.
//!
//! The wire format carries no session, so every value that can make follow-up
//! requests gets the context bound to it right after it is decoded.
use std::sync::Arc;
use vstd::prelude::*;

use crate::locale::Locale;

verus! {

/// Session details that follow-up requests are built from. Shared read-only by
/// every value that a session produced.
#[derive(Clone, Debug, PartialEq, Eq, Default)]
pub struct Executor {
    /// The content bucket that catalogue endpoints live under.
    pub bucket: String,
    pub account_id: String,
    /// The locale that responses are requested in.
    pub locale: Locale,
    /// Whether the account may watch premium content.
    pub premium: bool,
}

/// A value that takes a session context after it has been decoded.
pub trait Request {
    /// Whether every place of this value that holds a context holds `executor`.
    /// Values that hold no context are bound to every context.
    spec fn bound_to(&self, executor: Executor) -> bool;

    /// Binds `executor` to this value and to every nested value that takes one.
    fn __set_executor(&mut self, executor: Arc<Executor>)
        ensures
            final(self).bound_to(*executor),
    ;
}

/// Relies on `Arc::clone`: the new handle points at the same context.
#[verifier::external_body]
pub(crate) fn share(executor: &Arc<Executor>) -> (r: Arc<Executor>)
    ensures
        *r == **executor,
{
    Arc::clone(executor)
}

/// Whether an optional handle holds `executor`.
pub open spec fn holds(slot: Option<Arc<Executor>>, executor: Executor) -> bool {
    match slot {
        Some(e) => *e == executor,
        None => false,
    }
}

impl Request for () {
    open spec fn bound_to(&self, executor: Executor) -> bool {
        true
    }

    fn __set_executor(&mut self, executor: Arc<Executor>) {
    }
}

/// Binds `executor` to every item, in place.
pub fn bind_all<T: Request>(items: &mut Vec<T>, executor: &Arc<Executor>)
    ensures
        final(items)@.len() == old(items)@.len(),
        forall|i: int| 0 <= i < final(items)@.len() ==> (#[trigger] final(items)@[i]).bound_to(**executor),
{
    let n = items.len();
    let mut i: usize = 0;
    while i < n
        invariant
            n == items@.len(),
            0 <= i <= n,
            forall|j: int| 0 <= j < i ==> (#[trigger] items@[j]).bound_to(**executor),
        decreases n - i,
    {
        items[i].__set_executor(share(executor));
        i = i + 1;
    }
}

} // verus!
