use vstd::prelude::*;
use vstd::std_specs::cmp::PartialEqSpecImpl;

verus! {

/// A subscription to an event stream: an id, the handler that receives the
/// events, an optional filter, and whether it is active.  Subscriptions are
/// equal when their ids are.
///
/// A subscription owns its activation flag and is not cloned: every holder
/// that must see the flag change shares the one subscription value (behind
/// a lock, say), so activating or deactivating it is seen by all of them.
#[derive(Debug)]
pub struct Subscription<H, P> {
    id: i32,
    handler: H,
    predicate: Option<P>,
    active: bool,
}

impl<H, P> Subscription<H, P> {
    /// The id.
    pub closed spec fn spec_id(&self) -> i32 {
        self.id
    }

    /// The handler.
    pub closed spec fn spec_handler(&self) -> H {
        self.handler
    }

    /// The filter.
    pub closed spec fn spec_predicate(&self) -> Option<P> {
        self.predicate
    }

    /// Whether the subscription is active.
    pub closed spec fn spec_active(&self) -> bool {
        self.active
    }

    /// An active subscription.
    pub fn new(id: i32, handler: H, predicate: Option<P>) -> (s: Self)
        ensures
            s.spec_id() == id,
            s.spec_handler() == handler,
            s.spec_predicate() == predicate,
            s.spec_active(),
    {
        Subscription { id, handler, predicate, active: true }
    }

    /// The id.
    pub fn id(&self) -> (r: i32)
        ensures
            r == self.spec_id(),
    {
        self.id
    }

    /// The handler.
    pub fn handler(&self) -> (r: &H)
        ensures
            *r == self.spec_handler(),
    {
        &self.handler
    }

    /// The filter.
    pub fn predicate(&self) -> (r: &Option<P>)
        ensures
            *r == self.spec_predicate(),
    {
        &self.predicate
    }

    /// Activates an inactive subscription; returns whether it was inactive.
    pub fn activate(&mut self) -> (r: bool)
        ensures
            r == !old(self).spec_active(),
            final(self).spec_active(),
            final(self).spec_id() == old(self).spec_id(),
            final(self).spec_handler() == old(self).spec_handler(),
            final(self).spec_predicate() == old(self).spec_predicate(),
    {
        if self.active {
            false
        } else {
            self.active = true;
            true
        }
    }

    /// Deactivates an active subscription; returns whether it was active.
    pub fn deactivate(&mut self) -> (r: bool)
        ensures
            r == old(self).spec_active(),
            !final(self).spec_active(),
            final(self).spec_id() == old(self).spec_id(),
            final(self).spec_handler() == old(self).spec_handler(),
            final(self).spec_predicate() == old(self).spec_predicate(),
    {
        if self.active {
            self.active = false;
            true
        } else {
            false
        }
    }

    /// Whether the subscription is active.
    pub fn is_active(&self) -> (r: bool)
        ensures
            r == self.spec_active(),
    {
        self.active
    }
}

impl<H, P> PartialEq for Subscription<H, P> {
    fn eq(&self, other: &Self) -> (r: bool) {
        self.id == other.id
    }
}

impl<H, P> PartialEqSpecImpl for Subscription<H, P> {
    open spec fn obeys_eq_spec() -> bool {
        true
    }

    open spec fn eq_spec(&self, other: &Self) -> bool {
        self.spec_id() == other.spec_id()
    }
}

impl<H, P> Eq for Subscription<H, P> {
}

} // verus!
