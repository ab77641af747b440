//! The mathematical model of the broadcast bus.
//!
//! The bus totally orders every message it accepts in one log. A subscriber
//! is a position in that log: what lies between its position and the end of
//! the log is its pending queue, which never holds more than the capacity.

use vstd::prelude::*;

verus! {

/// One subscriber, as the contracts see it.
pub struct SubView {
    /// Index in the log of the next message this subscriber will be handed.
    pub cursor: nat,
    /// Whether a message was discarded from its queue since its last receive.
    pub lagged: bool,
}

/// The bus, as the contracts see it.
pub struct BusView {
    /// The most that one pending queue holds.
    pub capacity: nat,
    /// Every message accepted so far, oldest first.
    pub log: Seq<Seq<char>>,
    /// The live subscribers, by identifier.
    pub subs: Map<usize, SubView>,
}

/// One subscriber after a publish to a log of `log_len` messages: where its
/// queue was full the cursor steps over the oldest unread message and the
/// lag is marked; otherwise it stays, and the queue grows by one.
pub open spec fn after_publish(s: SubView, log_len: nat, capacity: nat) -> SubView {
    if log_len - s.cursor >= capacity {
        SubView { cursor: s.cursor + 1, lagged: true }
    } else {
        s
    }
}

/// A queue after one more message under the overwrite-oldest policy.
pub open spec fn push_bounded(queue: Seq<Seq<char>>, message: Seq<char>, capacity: nat) -> Seq<
    Seq<char>,
> {
    if queue.len() < capacity {
        queue.push(message)
    } else {
        queue.drop_first().push(message)
    }
}

impl BusView {
    /// The subscribers are finitely many, and every queue is within the log
    /// and within the capacity.
    pub open spec fn wf(self) -> bool {
        &&& self.capacity >= 1
        &&& self.subs.dom().finite()
        &&& forall|id: usize| #[trigger]
            self.subs.contains_key(id) ==> self.subs[id].cursor <= self.log.len()
                && self.log.len() - self.subs[id].cursor <= self.capacity
    }

    /// A bus that has seen nothing yet.
    pub open spec fn empty(capacity: nat) -> BusView {
        BusView { capacity, log: Seq::empty(), subs: Map::empty() }
    }

    pub open spec fn is_live(self, id: usize) -> bool {
        self.subs.contains_key(id)
    }

    /// How many subscriptions are live.
    pub open spec fn subscriber_count(self) -> nat {
        self.subs.dom().len()
    }

    pub open spec fn has_subscribers(self) -> bool {
        exists|id: usize| self.subs.contains_key(id)
    }

    /// The messages that `id` has still to receive, oldest first; empty for
    /// an identifier that is not subscribed.
    pub open spec fn pending(self, id: usize) -> Seq<Seq<char>> {
        if self.subs.contains_key(id) {
            self.log.subrange(self.subs[id].cursor as int, self.log.len() as int)
        } else {
            Seq::empty()
        }
    }

    /// The identifier that the next subscription gets: the least one not in use.
    pub open spec fn is_next_id(self, id: usize) -> bool {
        &&& !self.subs.contains_key(id)
        &&& forall|j: usize| j < id ==> self.subs.contains_key(j)
    }

    /// The bus after `id` subscribed: it starts at the end of the log, so it
    /// sees nothing that was published before.
    pub open spec fn subscribe(self, id: usize) -> BusView {
        BusView {
            subs: self.subs.insert(id, SubView { cursor: self.log.len(), lagged: false }),
            ..self
        }
    }

    pub open spec fn unsubscribe(self, id: usize) -> BusView {
        BusView { subs: self.subs.remove(id), ..self }
    }

    /// The bus after `message` was published. With no subscriber nothing is
    /// kept; otherwise the message ends the log and every queue takes it.
    pub open spec fn publish(self, message: Seq<char>) -> BusView {
        if !self.has_subscribers() {
            self
        } else {
            BusView {
                capacity: self.capacity,
                log: self.log.push(message),
                subs: Map::new(
                    |id: usize| self.subs.contains_key(id),
                    |id: usize| after_publish(self.subs[id], self.log.len(), self.capacity),
                ),
            }
        }
    }

    /// Whether a receive by `id` yields a message now.
    pub open spec fn can_receive(self, id: usize) -> bool {
        self.subs.contains_key(id) && self.subs[id].cursor < self.log.len()
    }

    /// The message that a receive by `id` yields.
    pub open spec fn next_message(self, id: usize) -> Seq<char>
        recommends
            self.can_receive(id),
    {
        self.log[self.subs[id].cursor as int]
    }

    /// The bus after `id` received: its cursor moves past the message and
    /// its lag mark is cleared. Where nothing is pending, nothing changes.
    pub open spec fn receive(self, id: usize) -> BusView {
        if self.can_receive(id) {
            BusView {
                subs: self.subs.insert(
                    id,
                    SubView { cursor: self.subs[id].cursor + 1, lagged: false },
                ),
                ..self
            }
        } else {
            self
        }
    }
}

} // verus!
