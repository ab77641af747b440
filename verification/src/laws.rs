//! What holds of the bus over whole runs: fan-out, self-echo, delivery in
//! publish order, tolerance of lag, and isolation between subscribers.

use crate::conn::{after_read, message_of, ReadEvent};
use crate::model::{push_bounded, BusView};
use vstd::prelude::*;

verus! {

/// One operation on the bus.
pub enum Op {
    Publish(Seq<char>),
    Receive(usize),
    /// A new subscription; it takes effect where the identifier is the one
    /// that the bus hands out next.
    Subscribe(usize),
    Unsubscribe(usize),
}

/// The bus after one operation.
pub open spec fn apply(bus: BusView, op: Op) -> BusView {
    match op {
        Op::Publish(message) => bus.publish(message),
        Op::Receive(id) => bus.receive(id),
        Op::Subscribe(id) => if bus.is_next_id(id) {
            bus.subscribe(id)
        } else {
            bus
        },
        Op::Unsubscribe(id) => bus.unsubscribe(id),
    }
}

/// The bus after a sequence of operations, first to last.
pub open spec fn run(bus: BusView, ops: Seq<Op>) -> BusView
    decreases ops.len(),
{
    if ops.len() == 0 {
        bus
    } else {
        apply(run(bus, ops.drop_last()), ops.last())
    }
}

/// The bus after publishing each of `messages`, first to last.
pub open spec fn publish_all(bus: BusView, messages: Seq<Seq<char>>) -> BusView
    decreases messages.len(),
{
    if messages.len() == 0 {
        bus
    } else {
        publish_all(bus, messages.drop_last()).publish(messages.last())
    }
}

/// `older` is the beginning of `newer`.
pub open spec fn extends(newer: Seq<Seq<char>>, older: Seq<Seq<char>>) -> bool {
    older.len() <= newer.len() && newer.subrange(0, older.len() as int) == older
}

/// One operation keeps the bus well formed and its capacity, only ever
/// appends to the log, and moves no subscriber's cursor back.
pub proof fn law_step(bus: BusView, op: Op, id: usize)
    requires
        bus.wf(),
    ensures
        apply(bus, op).wf(),
        apply(bus, op).capacity == bus.capacity,
        extends(apply(bus, op).log, bus.log),
        apply(bus, op).is_live(id) && bus.is_live(id) ==> apply(bus, op).subs[id].cursor
            >= bus.subs[id].cursor,
        apply(bus, op).is_live(id) && !bus.is_live(id) ==> apply(bus, op).subs[id].cursor
            == bus.log.len(),
{
    let next = apply(bus, op);
    assert(next.log.subrange(0, bus.log.len() as int) =~= bus.log);
    match op {
        Op::Publish(_) => {
            assert(next.subs.dom() =~= bus.subs.dom());
        },
        _ => {},
    }
    assert forall|k: usize| #[trigger] next.subs.contains_key(k) implies next.subs[k].cursor
        <= next.log.len() && next.log.len() - next.subs[k].cursor <= next.capacity by {
        if bus.subs.contains_key(k) {
        }
    }
}

/// Over any run the bus stays well formed, the log only grows at its end
/// (the bus totally orders what it accepts), and no cursor moves back.
pub proof fn law_run_monotone(bus: BusView, ops: Seq<Op>, id: usize)
    requires
        bus.wf(),
    ensures
        run(bus, ops).wf(),
        run(bus, ops).capacity == bus.capacity,
        extends(run(bus, ops).log, bus.log),
        run(bus, ops).is_live(id) && bus.is_live(id) ==> run(bus, ops).subs[id].cursor
            >= bus.subs[id].cursor,
    decreases ops.len(),
{
    if ops.len() > 0 {
        let prev = run(bus, ops.drop_last());
        law_run_monotone(bus, ops.drop_last(), id);
        law_step(prev, ops.last(), id);
        let next = run(bus, ops);
        assert(next.log.subrange(0, bus.log.len() as int) =~= next.log.subrange(
            0,
            prev.log.len() as int,
        ).subrange(0, bus.log.len() as int));
    } else {
        assert(bus.log.subrange(0, bus.log.len() as int) =~= bus.log);
    }
}

/// Fan-out: a message published while `b` is subscribed is added to `b`'s
/// queue, whoever published it, at the cost of `b`'s oldest unread message
/// where the queue was full. So the message is the newest that `b` has
/// pending.
pub proof fn law_fan_out(bus: BusView, message: Seq<char>, b: usize)
    requires
        bus.wf(),
        bus.is_live(b),
    ensures
        bus.publish(message).wf(),
        bus.publish(message).is_live(b),
        bus.publish(message).pending(b) == push_bounded(bus.pending(b), message, bus.capacity),
        bus.publish(message).pending(b).last() == message,
{
    let next = bus.publish(message);
    law_step(bus, Op::Publish(message), b);
    assert(next.pending(b) =~= push_bounded(bus.pending(b), message, bus.capacity));
}

/// Fan-out, later: a published message stays pending for `b`, at the place
/// in the log where it was published, through any run that leaves `b`'s
/// cursor at or before it. Only `b`'s own receives, its leaving, or lag
/// move the cursor past it.
pub proof fn law_fan_out_until_read(bus: BusView, message: Seq<char>, b: usize, ops: Seq<Op>)
    requires
        bus.wf(),
        bus.is_live(b),
        run(bus.publish(message), ops).is_live(b),
        run(bus.publish(message), ops).subs[b].cursor <= bus.log.len(),
    ensures
        run(bus.publish(message), ops).log[bus.log.len() as int] == message,
        run(bus.publish(message), ops).pending(b).contains(message),
{
    let published = bus.publish(message);
    let later = run(published, ops);
    law_fan_out(bus, message, b);
    law_run_monotone(published, ops, b);
    let at = bus.log.len() as int;
    assert(later.log.subrange(0, published.log.len() as int)[at] == published.log[at]);
    let from = later.subs[b].cursor as int;
    assert(later.pending(b)[at - from] == message);
}

/// Fan-out from a connection: where the reader of any connection is handed
/// a text frame that decodes, the decoded text becomes the newest pending
/// message of every subscriber, the sender's own writer among them.
pub proof fn law_reader_fans_out(bus: BusView, event: ReadEvent, b: usize)
    requires
        bus.wf(),
        bus.is_live(b),
        message_of(event) is Some,
    ensures
        after_read(bus, event).is_live(b),
        after_read(bus, event).pending(b).last() == message_of(event).unwrap(),
{
    law_fan_out(bus, message_of(event).unwrap(), b);
}

/// Self-echo: a subscriber with nothing pending that publishes a message
/// receives that very message next.
pub proof fn law_self_echo(bus: BusView, message: Seq<char>, a: usize)
    requires
        bus.wf(),
        bus.is_live(a),
        !bus.can_receive(a),
    ensures
        bus.publish(message).can_receive(a),
        bus.publish(message).next_message(a) == message,
{
}

/// Order preservation: after `id` received one message, whatever happens
/// next, the message it receives after that stands later in the log, in
/// which the first message keeps its place. So what one subscriber is
/// handed comes in the order in which it was published.
pub proof fn law_order_preserved(bus: BusView, id: usize, ops: Seq<Op>)
    requires
        bus.wf(),
        bus.can_receive(id),
        run(bus.receive(id), ops).can_receive(id),
    ensures
        bus.subs[id].cursor < run(bus.receive(id), ops).subs[id].cursor,
        run(bus.receive(id), ops).log[bus.subs[id].cursor as int] == bus.next_message(id),
{
    let first = bus.receive(id);
    let later = run(first, ops);
    law_step(bus, Op::Receive(id), id);
    law_run_monotone(first, ops, id);
    let at = bus.subs[id].cursor as int;
    assert(later.log.subrange(0, first.log.len() as int)[at] == first.log[at]);
}

/// What a receive yields is the oldest message of the subscriber's queue,
/// and it is never older than the newest `capacity` messages of the log,
/// however long the subscriber has been idle.
pub proof fn law_receive_oldest_buffered(bus: BusView, id: usize)
    requires
        bus.wf(),
        bus.can_receive(id),
    ensures
        bus.next_message(id) == bus.pending(id).first(),
        bus.subs[id].cursor + bus.capacity >= bus.log.len(),
        bus.receive(id).pending(id) == bus.pending(id).drop_first(),
        bus.receive(id).wf(),
{
    law_step(bus, Op::Receive(id), id);
    assert(bus.receive(id).pending(id) =~= bus.pending(id).drop_first());
}

/// What a burst of publishes does to a subscriber that receives nothing
/// meanwhile: the log takes every message, and the cursor is pushed just
/// far enough to keep the queue within the capacity.
pub proof fn lemma_publish_all(bus: BusView, id: usize, messages: Seq<Seq<char>>)
    requires
        bus.wf(),
        bus.is_live(id),
    ensures
        publish_all(bus, messages).wf(),
        publish_all(bus, messages).capacity == bus.capacity,
        publish_all(bus, messages).is_live(id),
        publish_all(bus, messages).log == bus.log + messages,
        publish_all(bus, messages).subs[id].cursor == if bus.log.len() + messages.len()
            - bus.subs[id].cursor > bus.capacity {
            bus.log.len() + messages.len() - bus.capacity
        } else {
            bus.subs[id].cursor as int
        },
        publish_all(bus, messages).subs[id].lagged == (bus.subs[id].lagged || bus.log.len()
            + messages.len() - bus.subs[id].cursor > bus.capacity),
    decreases messages.len(),
{
    if messages.len() > 0 {
        let prev = publish_all(bus, messages.drop_last());
        lemma_publish_all(bus, id, messages.drop_last());
        law_step(prev, Op::Publish(messages.last()), id);
        assert(prev.log.push(messages.last()) =~= bus.log + messages);
    } else {
        assert(bus.log =~= bus.log + messages);
    }
}

/// Lag tolerance: where more messages are published than the capacity while
/// `id` receives nothing, every publish is accepted, `id` is marked as
/// lagged, and its queue holds exactly the newest `capacity` messages: its
/// next receive yields the oldest of those.
pub proof fn law_lag_tolerance(bus: BusView, id: usize, messages: Seq<Seq<char>>)
    requires
        bus.wf(),
        bus.is_live(id),
        messages.len() > bus.capacity,
    ensures
        publish_all(bus, messages).wf(),
        publish_all(bus, messages).log == bus.log + messages,
        publish_all(bus, messages).subs[id].lagged,
        publish_all(bus, messages).can_receive(id),
        publish_all(bus, messages).pending(id) == messages.subrange(
            messages.len() - bus.capacity,
            messages.len() as int,
        ),
        publish_all(bus, messages).next_message(id) == messages[messages.len() - bus.capacity],
{
    lemma_publish_all(bus, id, messages);
    let after = publish_all(bus, messages);
    assert(after.pending(id) =~= messages.subrange(
        messages.len() - bus.capacity,
        messages.len() as int,
    ));
}

/// Each subscription counts once: subscribing adds one live subscription,
/// ending a live one removes one, and publishing and receiving change
/// nothing in who is subscribed. So as long as every writer task holds the
/// one subscription it started with, there are as many subscriptions as
/// writers.
pub proof fn law_subscriber_count(bus: BusView, id: usize, message: Seq<char>)
    requires
        bus.wf(),
    ensures
        bus.is_next_id(id) ==> bus.subscribe(id).subscriber_count() == bus.subscriber_count() + 1,
        bus.is_live(id) ==> bus.unsubscribe(id).subscriber_count() == bus.subscriber_count() - 1,
        !bus.is_live(id) ==> bus.unsubscribe(id) == bus,
        bus.publish(message).subs.dom() == bus.subs.dom(),
        bus.receive(id).subs.dom() == bus.subs.dom(),
        bus.has_subscribers() <==> bus.subscriber_count() > 0,
{
    assert(bus.publish(message).subs.dom() =~= bus.subs.dom());
    assert(bus.receive(id).subs.dom() =~= bus.subs.dom());
    if !bus.is_live(id) {
        assert(bus.unsubscribe(id).subs =~= bus.subs);
    }
    if bus.has_subscribers() {
        let k = choose|k: usize| bus.subs.contains_key(k);
        assert(bus.subs.dom().contains(k));
        if bus.subs.dom().len() == 0 {
            bus.subs.dom().lemma_len0_is_empty();
        }
    }
    if bus.subscriber_count() > 0 {
        let k = bus.subs.dom().choose();
        assert(bus.subs.contains_key(k));
    }
}

/// Disconnection isolation: when `a` leaves, every other subscriber keeps
/// its place and its queue, and a message published afterwards still
/// reaches each of them.
pub proof fn law_disconnect_isolated(bus: BusView, a: usize, b: usize, message: Seq<char>)
    requires
        bus.wf(),
        bus.is_live(b),
        a != b,
    ensures
        bus.unsubscribe(a).wf(),
        !bus.unsubscribe(a).is_live(a),
        bus.unsubscribe(a).is_live(b),
        bus.unsubscribe(a).subs[b] == bus.subs[b],
        bus.unsubscribe(a).pending(b) == bus.pending(b),
        bus.unsubscribe(a).has_subscribers(),
        bus.unsubscribe(a).publish(message).pending(b).last() == message,
        bus.unsubscribe(a).publish(message).pending(b) == bus.publish(message).pending(b),
{
    let rest = bus.unsubscribe(a);
    law_step(bus, Op::Unsubscribe(a), b);
    law_fan_out(rest, message, b);
    law_fan_out(bus, message, b);
}

} // verus!
