//! A message that becomes ready once a deadline has passed, counting the polls that
//! came too early.
use vstd::prelude::*;
use vstd::string::StringExecFns;
use crate::text::{decimal, decimal_text};

verus! {

/// A message held back until a deadline, in milliseconds since the Unix epoch.
#[derive(Debug)]
pub struct WaitForIt {
    pub message: String,
    pub until: i64,
    pub polls: u64,
}

/// The text handed out once the deadline has passed.
pub open spec fn ready_text(message: Seq<char>, polls: u64) -> Seq<char> {
    message + " after "@ + decimal_text(polls as nat) + " polls!"@
}

/// The deadline `delay` milliseconds after `now`, held at the latest time there is
/// where it lies beyond.
pub open spec fn deadline(now: int, delay: int) -> int {
    if now + delay > i64::MAX {
        i64::MAX as int
    } else {
        now + delay
    }
}

impl WaitForIt {
    /// `message`, held back until `delay` milliseconds after `now`.
    pub fn new(message: String, now: i64, delay: i64) -> (r: Self)
        requires
            now >= 0,
            delay >= 0,
        ensures
            r.message@ == message@,
            r.until == deadline(now as int, delay as int),
            r.polls == 0,
    {
        let until = if now > i64::MAX - delay {
            i64::MAX
        } else {
            now + delay
        };
        Self { message, until, polls: 0 }
    }

    /// One poll at time `now`: the ready text once `now` is past the deadline, else
    /// `None`, and the poll is counted.
    pub fn poll_at(&mut self, now: i64) -> (r: Option<String>)
        requires
            old(self).polls < u64::MAX,
        ensures
            final(self).message@ == old(self).message@,
            final(self).until == old(self).until,
            old(self).until < now ==> r is Some && r->Some_0@ == ready_text(
                old(self).message@,
                old(self).polls,
            ) && final(self).polls == old(self).polls,
            old(self).until >= now ==> r is None && final(self).polls == old(self).polls + 1,
    {
        if self.until < now {
            let mut s = self.message.clone();
            s.append(" after ");
            let n = decimal(self.polls);
            s.append(n.as_str());
            s.append(" polls!");
            Some(s)
        } else {
            self.polls = self.polls + 1;
            None
        }
    }
}

} // verus!
