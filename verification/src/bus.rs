//! The broadcast bus: a bounded ring of the most recent messages that every
//! subscription reads from independently.

use crate::model::{BusView, SubView};
use std::collections::VecDeque;
use vstd::prelude::*;

verus! {

/// Where one subscriber stands in the ring.
#[derive(Clone, Copy)]
struct Cursor {
    /// How many of the ring's newest messages it has not received yet.
    behind: usize,
    /// Whether a message it had not received was discarded.
    lagged: bool,
}

/// The handle of one subscription. It is not `Clone`: one task owns it.
pub struct Subscription {
    slot: usize,
}

/// Why a publish was not delivered.
#[derive(Clone, Copy, Debug, PartialEq, Eq)]
pub enum PublishError {
    /// Nobody is subscribed; the message was dropped.
    NoSubscribers,
}

/// One message handed to a subscriber.
#[derive(Debug)]
pub struct Delivery {
    pub text: String,
    /// Whether older messages were discarded before this one was read.
    pub skipped: bool,
}

/// The bus shared by all connections of one relay run.
pub struct BroadcastBus {
    capacity: usize,
    ring: VecDeque<String>,
    slots: Vec<Option<Cursor>>,
    log: Ghost<Seq<Seq<char>>>,
}

impl View for Subscription {
    type V = usize;

    closed spec fn view(&self) -> usize {
        self.slot
    }
}

impl Subscription {
    /// The identifier under which the bus knows this subscription.
    pub fn id(&self) -> (id: usize)
        ensures
            id == self@,
    {
        self.slot
    }
}

impl View for BroadcastBus {
    type V = BusView;

    closed spec fn view(&self) -> BusView {
        BusView {
            capacity: self.capacity as nat,
            log: self.log@,
            subs: Map::new(
                |id: usize| id < self.slots@.len() && self.slots@[id as int] is Some,
                |id: usize|
                    SubView {
                        cursor: (self.log@.len() - self.slots@[id as int].unwrap().behind) as nat,
                        lagged: self.slots@[id as int].unwrap().lagged,
                    },
            ),
        }
    }
}

/// One slot after a publish to a ring of the given capacity.
spec fn bump(entry: Option<Cursor>, capacity: usize) -> Option<Cursor> {
    match entry {
        Some(c) => if c.behind >= capacity {
            Some(Cursor { behind: c.behind, lagged: true })
        } else {
            Some(Cursor { behind: (c.behind + 1) as usize, lagged: c.lagged })
        },
        None => None,
    }
}

impl BroadcastBus {
    /// The ring holds the newest messages of the log, and no subscriber is
    /// further behind than the ring reaches.
    pub closed spec fn wf(&self) -> bool {
        &&& self.capacity >= 1
        &&& self@.subs.dom().finite()
        &&& self.ring@.len() <= self.capacity
        &&& self.ring@.len() <= self.log@.len()
        &&& forall|i: int|
            0 <= i < self.ring@.len() ==> (#[trigger] self.ring@[i])@ == self.log@[self.log@.len()
                - self.ring@.len() + i]
        &&& forall|j: int|
            0 <= j < self.slots@.len() ==> match #[trigger] self.slots@[j] {
                Some(c) => c.behind <= self.ring@.len(),
                None => true,
            }
    }

    /// A well-formed bus has a well-formed model.
    pub proof fn lemma_view_wf(&self)
        requires
            self.wf(),
        ensures
            self@.wf(),
            self@.capacity <= usize::MAX,
    {
    }

    /// A bus with no subscriber and no message, whose queues hold at most
    /// `capacity` messages each.
    pub fn new(capacity: usize) -> (bus: BroadcastBus)
        requires
            capacity >= 1,
        ensures
            bus.wf(),
            bus@ == BusView::empty(capacity as nat),
    {
        let bus = BroadcastBus {
            capacity,
            ring: VecDeque::new(),
            slots: Vec::new(),
            log: Ghost(Seq::empty()),
        };
        assert(bus@.subs =~= Map::empty());
        bus
    }

    /// Whether `sub` is one of this bus's live subscriptions.
    pub fn is_subscribed(&self, sub: &Subscription) -> (live: bool)
        ensures
            live == self@.is_live(sub@),
    {
        sub.slot < self.slots.len() && self.slots[sub.slot].is_some()
    }

    /// Whether anybody is subscribed.
    pub fn has_subscribers(&self) -> (any: bool)
        ensures
            any == self@.has_subscribers(),
    {
        let n = self.slots.len();
        let mut i: usize = 0;
        while i < n
            invariant
                i <= n,
                n == self.slots@.len(),
                forall|j: int| 0 <= j < i ==> self.slots@[j] is None,
            decreases n - i,
        {
            if self.slots[i].is_some() {
                assert(self@.subs.contains_key(i));
                return true;
            }
            i += 1;
        }
        false
    }

    /// How many messages `sub` has still to receive.
    pub fn pending_len(&self, sub: &Subscription) -> (n: usize)
        requires
            self.wf(),
        ensures
            n == self@.pending(sub@).len(),
    {
        if sub.slot < self.slots.len() {
            match self.slots[sub.slot] {
                Some(c) => c.behind,
                None => 0,
            }
        } else {
            0
        }
    }

    /// Adds a subscriber. It gets the least identifier not in use and an
    /// empty queue: it will see what is published from now on, and nothing
    /// older.
    pub fn subscribe(&mut self) -> (sub: Subscription)
        requires
            old(self).wf(),
        ensures
            final(self).wf(),
            old(self)@.is_next_id(sub@),
            final(self)@ == old(self)@.subscribe(sub@),
    {
        let n = self.slots.len();
        let mut i: usize = 0;
        while i < n && self.slots[i].is_some()
            invariant
                i <= n,
                n == self.slots@.len(),
                forall|j: int| 0 <= j < i ==> self.slots@[j] is Some,
            decreases n - i,
        {
            i += 1;
        }
        let fresh = Cursor { behind: 0, lagged: false };
        if i < n {
            self.slots.set(i, Some(fresh));
        } else {
            self.slots.push(Some(fresh));
        }
        proof {
            assert(final(self)@.subs =~= old(self)@.subscribe(i).subs);
        }
        Subscription { slot: i }
    }

    /// Ends a subscription. The other subscribers and the log are untouched;
    /// ending one that is not live changes nothing.
    pub fn unsubscribe(&mut self, sub: Subscription)
        requires
            old(self).wf(),
        ensures
            final(self).wf(),
            final(self)@ == old(self)@.unsubscribe(sub@),
    {
        if sub.slot < self.slots.len() {
            self.slots.set(sub.slot, None);
        }
        proof {
            assert(final(self)@.subs =~= old(self)@.unsubscribe(sub@).subs);
        }
    }

    /// Publishes one message to every live subscriber, without waiting for
    /// any of them. A subscriber whose queue is full loses its oldest unread
    /// message and is marked as lagged. Fails exactly when nobody is
    /// subscribed, and then keeps nothing.
    #[verifier::loop_isolation(false)]
    pub fn publish(&mut self, message: String) -> (res: Result<(), PublishError>)
        requires
            old(self).wf(),
        ensures
            final(self).wf(),
            final(self)@ == old(self)@.publish(message@),
            res is Ok <==> old(self)@.has_subscribers(),
    {
        if !self.has_subscribers() {
            return Err(PublishError::NoSubscribers);
        }
        let ghost before = *self;
        if self.ring.len() >= self.capacity {
            self.ring.pop_front();
        }
        self.log = Ghost(self.log@.push(message@));
        self.ring.push_back(message);
        let ghost filled = *self;
        let n = self.slots.len();
        let mut i: usize = 0;
        while i < n
            invariant
                i <= n,
                n == self.slots@.len(),
                self.capacity == filled.capacity,
                self.ring == filled.ring,
                self.log == filled.log,
                forall|j: int|
                    0 <= j < i ==> #[trigger] self.slots@[j] == bump(
                        before.slots@[j],
                        self.capacity,
                    ),
                forall|j: int| i <= j < n ==> #[trigger] self.slots@[j] == before.slots@[j],
            decreases n - i,
        {
            let entry: Option<Cursor> = self.slots[i];
            match entry {
                Some(c) => {
                    if c.behind >= self.capacity {
                        self.slots.set(i, Some(Cursor { behind: c.behind, lagged: true }));
                    } else {
                        self.slots.set(i, Some(Cursor { behind: c.behind + 1, lagged: c.lagged }));
                    }
                },
                None => {},
            }
            i += 1;
        }
        proof {
            assert(final(self)@.subs =~= old(self)@.publish(message@).subs);
            assert(final(self)@.subs.dom() =~= old(self)@.subs.dom());
        }
        Ok(())
    }

    /// Hands `sub` its oldest pending message, if it has one, and says
    /// whether older ones were discarded since its last receive. `None`
    /// means that nothing is pending: the caller waits for the next publish.
    pub fn try_receive(&mut self, sub: &Subscription) -> (res: Option<Delivery>)
        requires
            old(self).wf(),
        ensures
            final(self).wf(),
            final(self)@ == old(self)@.receive(sub@),
            res is Some <==> old(self)@.can_receive(sub@),
            res matches Some(d) ==> d.text@ == old(self)@.next_message(sub@) && d.skipped == old(
                self,
            )@.subs[sub@].lagged,
    {
        let slot = sub.slot;
        if slot >= self.slots.len() {
            return None;
        }
        let entry: Option<Cursor> = self.slots[slot];
        match entry {
            None => None,
            Some(c) => {
                if c.behind == 0 {
                    None
                } else {
                    let at: usize = self.ring.len() - c.behind;
                    let text = self.ring[at].clone();
                    self.slots.set(slot, Some(Cursor { behind: c.behind - 1, lagged: false }));
                    proof {
                        assert(final(self)@.subs =~= old(self)@.receive(sub@).subs);
                    }
                    Some(Delivery { text, skipped: c.lagged })
                }
            },
        }
    }

    pub fn capacity(&self) -> (n: usize)
        ensures
            n == self@.capacity,
    {
        self.capacity
    }
}

} // verus!
