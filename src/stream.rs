//! The state behind a counting stream and a buffering sink.
use vstd::prelude::*;

verus! {

/// Counts from 1 up to `max`, one value per step.
#[derive(Debug)]
pub struct MyStream {
    pub current: u32,
    pub max: u32,
}

impl MyStream {
    pub fn new(max: u32) -> (r: MyStream)
        ensures
            r.current == 0,
            r.max == max,
    {
        MyStream { current: 0, max: max }
    }

    /// The next value, or `None` once `max` has been given.
    pub fn next_value(&mut self) -> (r: Option<u32>)
        ensures
            old(self).current < old(self).max ==> r == Some((old(self).current + 1) as u32)
                && final(self).current == old(self).current + 1 && final(self).max == old(
                self,
            ).max,
            old(self).current >= old(self).max ==> r is None && *final(self) == *old(self),
    {
        if self.current < self.max {
            self.current = self.current + 1;
            Some(self.current)
        } else {
            None
        }
    }
}

/// Takes values one at a time and keeps each once it is flushed.
#[derive(Debug)]
pub struct MySink {
    pub data: Vec<u32>,
    pub temp: u32,
}

impl MySink {
    pub fn new() -> (r: MySink)
        ensures
            r.data@ == Seq::<u32>::empty(),
            r.temp == 0,
    {
        MySink { data: vec![], temp: 0 }
    }

    /// Holds `item` until the next flush, in place of any item held before.
    pub fn start_send(&mut self, item: u32)
        ensures
            final(self).temp == item,
            final(self).data@ == old(self).data@,
    {
        self.temp = item;
    }

    /// Keeps the held item.
    pub fn flush(&mut self)
        ensures
            final(self).data@ == old(self).data@.push(old(self).temp),
            final(self).temp == old(self).temp,
    {
        let v = self.temp;
        self.data.push(v);
    }
}

} // verus!
