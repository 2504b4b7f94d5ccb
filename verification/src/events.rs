use vstd::prelude::*;

verus! {

/// One event binding: the event name it listens for, and the message the
/// binding produces when the event fires.
pub struct EventHandler<Ms> {
    pub trigger: String,
    pub msg: Ms,
}

/// The ordered collection of event bindings tied to one node. Bound
/// listeners are resources of one native handle, so a structural clone of a
/// node yields an empty collection; the reconciler re-creates bindings from
/// the new tree.
pub struct EventHandlerManager<Ms> {
    pub handlers: Vec<EventHandler<Ms>>,
}

impl<Ms> EventHandlerManager<Ms> {
    pub fn new() -> (r: EventHandlerManager<Ms>)
        ensures
            r.handlers@.len() == 0,
    {
        EventHandlerManager { handlers: Vec::new() }
    }

    /// Append the given bindings, in order, after the ones already held.
    pub fn add_event_handlers(&mut self, mut handlers: Vec<EventHandler<Ms>>)
        ensures
            final(self).handlers@ == old(self).handlers@ + handlers@,
    {
        self.handlers.append(&mut handlers);
    }
}

/// A one-shot post-insertion callback: when the element is first attached to
/// the native tree it produces the held message, or nothing.
pub struct InsertEventHandler<Ms> {
    pub msg: Option<Ms>,
}

/// Make a post-insertion callback that will produce the given message (or
/// none) when the element is inserted into the native tree.
pub fn on_insert<Ms>(msg: Option<Ms>) -> (r: InsertEventHandler<Ms>)
    ensures
        r.msg == msg,
{
    InsertEventHandler { msg }
}

} // verus!
