//! Event controllers: a trait that storage back ends implement, and stubs of them.
use vstd::prelude::*;

verus! {

/// Stores event ids and hands them back.
pub trait Controller {
    /// Records the event `event_id`.
    fn save_event(&mut self, event_id: u32);

    /// The events recorded so far.
    fn get_events(&self) -> Vec<u32>;
}

/// A controller meant to keep events on disk; this stub keeps none.
#[derive(Debug, Clone, Copy)]
pub struct DiskBasedController {}

impl Controller for DiskBasedController {
    fn save_event(&mut self, _event_id: u32) {
    }

    fn get_events(&self) -> Vec<u32> {
        Vec::new()
    }
}

/// A machine that records its events through a controller.
pub struct VM<C: Controller> {
    pub controller: Box<C>,
}

impl<C: Controller> VM<C> {
    /// Hands `event_id` to the controller to record.
    pub fn save_event(&mut self, event_id: u32) {
        self.controller.save_event(event_id);
    }

    /// The events that the controller reports.
    pub fn get_events(&self) -> Vec<u32> {
        self.controller.get_events()
    }
}

/// A stub controller for a hard disk; it records nothing.
#[derive(Debug, Clone, Copy)]
pub struct HDBasedController {
    pub inner: u8,
}

impl HDBasedController {
    pub fn new(inner: u8) -> (r: Self)
        ensures
            r.inner == inner,
    {
        Self { inner }
    }

    /// Accepts an event and keeps nothing of it.
    pub fn save_event(&mut self, event_id: u32)
        ensures
            *final(self) == *old(self),
    {
        self.save_event_inner(event_id)
    }

    fn save_event_inner(&mut self, _event_id: u32)
        ensures
            *final(self) == *old(self),
    {
    }

    /// The recorded events: none.
    pub fn get_events(&self) -> (r: Vec<u32>)
        ensures
            r@ == Seq::<u32>::empty(),
    {
        Vec::new()
    }
}

/// A second stub controller for a hard disk; it records nothing.
#[derive(Debug, Clone, Copy)]
pub struct HDBasedController2 {
    pub inner: u8,
}

impl HDBasedController2 {
    pub fn new(inner: u8) -> (r: Self)
        ensures
            r.inner == inner,
    {
        Self { inner }
    }

    /// Accepts an event and keeps nothing of it.
    pub fn save_event(&mut self, event_id: u32)
        ensures
            *final(self) == *old(self),
    {
        self.save_event_inner(event_id)
    }

    fn save_event_inner(&mut self, _event_id: u32)
        ensures
            *final(self) == *old(self),
    {
    }

    /// The recorded events: none.
    pub fn get_events(&self) -> (r: Vec<u32>)
        ensures
            r@ == Seq::<u32>::empty(),
    {
        Vec::new()
    }

    /// The recorded events, to be walked one by one: none.
    pub fn get_events_it(&self) -> (r: Vec<u32>)
        ensures
            r@ == Seq::<u32>::empty(),
    {
        Vec::new()
    }
}

} // verus!
