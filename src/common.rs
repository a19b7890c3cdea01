//! Page-shaped envelopes and shared record shapes.
use std::sync::Arc;
use vstd::prelude::*;

use crate::context::{bind_all, Executor, Request};

verus! {

/// Whether every item is bound to `executor`.
pub open spec fn all_bound<T: Request>(items: Seq<T>, executor: Executor) -> bool {
    forall|i: int| 0 <= i < items.len() ==> (#[trigger] items[i]).bound_to(executor)
}

/// A page of items and the total number of items that the listing holds.
/// The total sizes the listing; it does not bound the page.
pub struct BulkResult<T> {
    pub items: Vec<T>,
    pub total: u32,
}

/// A page of items where the service declares no total.
pub struct CrappyBulkResult<T> {
    pub items: Vec<T>,
}

/// A page of items in the second envelope shape, with its extra metadata.
pub struct V2BulkResult<T> {
    pub data: Vec<T>,
    pub total: u32,
    pub meta: serde_json::Map<String, serde_json::Value>,
}

impl<T: Request> Request for BulkResult<T> {
    open spec fn bound_to(&self, executor: Executor) -> bool {
        all_bound(self.items@, executor)
    }

    /// Every item takes the context; the page keeps its items, in order, and its total.
    fn __set_executor(&mut self, executor: Arc<Executor>)
        ensures
            final(self).items@.len() == old(self).items@.len(),
            final(self).total == old(self).total,
    {
        bind_all(&mut self.items, &executor);
    }
}

impl<T: Request> Request for CrappyBulkResult<T> {
    open spec fn bound_to(&self, executor: Executor) -> bool {
        all_bound(self.items@, executor)
    }

    fn __set_executor(&mut self, executor: Arc<Executor>)
        ensures
            final(self).items@.len() == old(self).items@.len(),
    {
        bind_all(&mut self.items, &executor);
    }
}

impl<T: Request> Request for V2BulkResult<T> {
    open spec fn bound_to(&self, executor: Executor) -> bool {
        all_bound(self.data@, executor)
    }

    fn __set_executor(&mut self, executor: Arc<Executor>)
        ensures
            final(self).data@.len() == old(self).data@.len(),
            final(self).total == old(self).total,
    {
        bind_all(&mut self.data, &executor);
    }
}

/// Binding a context to a page binds that same context to each of its items:
/// after it, every one of the page's items holds the context that the page took.
pub proof fn lemma_page_binds_items<T: Request>(page: BulkResult<T>, executor: Executor, i: int)
    requires
        page.bound_to(executor),
        0 <= i < page.items@.len(),
    ensures
        page.items@[i].bound_to(executor),
{
}

/// An image as the service lists it.
#[derive(Clone, Debug, Default, PartialEq, Eq)]
pub struct Image {
    pub source: String,
    pub image_type: String,
    pub height: u32,
    pub width: u32,
}

} // verus!
