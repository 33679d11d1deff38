use vstd::prelude::*;
use std::collections::VecDeque;

verus! {

/// An in-memory message ring for the terminal front-end: at most
/// `max_messages` entries, the oldest dropped first.
pub struct Logger {
    pub messages: VecDeque<String>,
    pub max_messages: usize,
    pub enabled: bool,
}

impl Logger {
    /// A fresh, disabled logger keeping up to a hundred messages.
    pub fn new() -> (r: Logger)
        ensures
            r.messages@ == Seq::<String>::empty(),
            r.max_messages == 100,
            !r.enabled,
    {
        Logger { messages: VecDeque::new(), max_messages: 100, enabled: false }
    }

    pub fn enable(&mut self)
        ensures
            *final(self) == (Logger { enabled: true, ..*old(self) }),
    {
        self.enabled = true;
    }

    pub fn disable(&mut self)
        ensures
            *final(self) == (Logger { enabled: false, ..*old(self) }),
    {
        self.enabled = false;
    }

    /// Record a message, dropping the oldest once the ring is full.
    pub fn log(&mut self, message: String)
        ensures
            final(self).max_messages == old(self).max_messages,
            final(self).enabled == old(self).enabled,
            final(self).messages@ == (if old(self).messages@.len() >= old(self).max_messages
                && old(self).messages@.len() > 0 {
                old(self).messages@.drop_first().push(message)
            } else {
                old(self).messages@.push(message)
            }),
    {
        if self.messages.len() >= self.max_messages {
            let _ = self.messages.pop_front();
            proof {
                if old(self).messages@.len() > 0 {
                    assert(self.messages@ =~= old(self).messages@.drop_first());
                }
            }
        }
        self.messages.push_back(message);
    }

    /// The recorded messages, oldest first.
    pub fn get_messages(&self) -> (r: Vec<String>)
        ensures
            r@.len() == self.messages@.len(),
            forall|i: int| 0 <= i < r@.len() ==> r@[i]@ == self.messages@[i]@,
    {
        let n = self.messages.len();
        let mut r: Vec<String> = Vec::new();
        let mut i: usize = 0;
        while i < n
            invariant
                n == self.messages@.len(),
                i <= n,
                r@.len() == i,
                forall|j: int| 0 <= j < i ==> r@[j]@ == self.messages@[j]@,
            decreases n - i,
        {
            r.push(self.messages[i].clone());
            i = i + 1;
        }
        r
    }

    pub fn clear(&mut self)
        ensures
            final(self).messages@ == Seq::<String>::empty(),
            final(self).max_messages == old(self).max_messages,
            final(self).enabled == old(self).enabled,
    {
        self.messages.clear();
    }
}

} // verus!
