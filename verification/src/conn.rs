//! The two tasks of one connection, as decisions: the reader publishes what
//! arrives, the writer forwards what its subscription yields. Whoever runs
//! them does the waiting and the socket work, and reports back.

use crate::bus::{BroadcastBus, Subscription};
use crate::model::BusView;
use vstd::prelude::*;
use vstd::utf8::{decode_utf8, valid_utf8};

verus! {

/// One frame read from a connection.
pub enum Frame {
    /// A text frame, with its payload as it came off the wire.
    Text(Vec<u8>),
    Binary(Vec<u8>),
    Ping,
    Pong,
    Close,
}

/// What the read half of a connection reported.
pub enum ReadEvent {
    Frame(Frame),
    /// A protocol or I/O error.
    Failed,
    /// The stream has ended.
    Ended,
}

/// What the reader task does next.
#[derive(Clone, Copy, Debug, PartialEq, Eq, Structural)]
pub enum ReaderAction {
    /// Wait for the next frame.
    Continue,
    /// End the task. The paired writer is left alone.
    Stop,
}

/// What the writer task does next.
#[derive(Debug)]
pub enum WriterAction {
    /// Write a text frame with this payload.
    Write(String),
    /// Nothing is pending: wait for the next publish.
    Wait,
}

/// The message that an event carries: the decoded payload of a text frame
/// that is valid UTF-8. Anything else carries none.
pub open spec fn message_of(event: ReadEvent) -> Option<Seq<char>> {
    match event {
        ReadEvent::Frame(Frame::Text(bytes)) => if valid_utf8(bytes@) {
            Some(decode_utf8(bytes@))
        } else {
            None
        },
        _ => None,
    }
}

/// Whether an event ends the reader: a close frame, an error, or the end
/// of the stream.
pub open spec fn ends_reader(event: ReadEvent) -> bool {
    match event {
        ReadEvent::Frame(Frame::Close) => true,
        ReadEvent::Failed => true,
        ReadEvent::Ended => true,
        _ => false,
    }
}

/// The bus after the reader handled an event.
pub open spec fn after_read(bus: BusView, event: ReadEvent) -> BusView {
    match message_of(event) {
        Some(message) => bus.publish(message),
        None => bus,
    }
}

/// `String::from_utf8` of std: `Some` with the decoded text exactly when the
/// bytes are valid UTF-8, and `None` otherwise. Trusted, not proved.
#[verifier::external_body]
fn decode_text(bytes: Vec<u8>) -> (res: Option<String>)
    ensures
        res is Some <==> valid_utf8(bytes@),
        res matches Some(text) ==> text@ == decode_utf8(bytes@),
{
    match String::from_utf8(bytes) {
        Ok(text) => Some(text),
        Err(_) => None,
    }
}

/// Handles one event of a connection's read half. A text frame that
/// decodes is published, and a publish that finds no subscriber is let
/// pass; a frame that does not decode, or is not text, is dropped. A close
/// frame, an error or the end of the stream ends the reader.
pub fn reader_step(bus: &mut BroadcastBus, event: ReadEvent) -> (action: ReaderAction)
    requires
        old(bus).wf(),
    ensures
        final(bus).wf(),
        final(bus)@ == after_read(old(bus)@, event),
        action == if ends_reader(event) {
            ReaderAction::Stop
        } else {
            ReaderAction::Continue
        },
{
    match event {
        ReadEvent::Frame(Frame::Text(bytes)) => {
            match decode_text(bytes) {
                Some(text) => {
                    let _ = bus.publish(text);
                },
                None => {},
            }
            ReaderAction::Continue
        },
        ReadEvent::Frame(Frame::Close) => ReaderAction::Stop,
        ReadEvent::Frame(_) => ReaderAction::Continue,
        ReadEvent::Failed => ReaderAction::Stop,
        ReadEvent::Ended => ReaderAction::Stop,
    }
}

/// The writer task of one connection. It owns its subscription.
pub struct ConnectionWriter {
    sub: Subscription,
}

impl ConnectionWriter {
    /// The identifier of the subscription that this writer owns.
    pub closed spec fn id(&self) -> usize {
        self.sub@
    }

    /// Starts a writer on a fresh subscription, which sees nothing that
    /// was published before.
    pub fn start(bus: &mut BroadcastBus) -> (writer: ConnectionWriter)
        requires
            old(bus).wf(),
        ensures
            final(bus).wf(),
            old(bus)@.is_next_id(writer.id()),
            final(bus)@ == old(bus)@.subscribe(writer.id()),
    {
        ConnectionWriter { sub: bus.subscribe() }
    }

    /// The identifier of the subscription that this writer owns.
    pub fn subscription_id(&self) -> (id: usize)
        ensures
            id == self.id(),
    {
        self.sub.id()
    }

    /// Takes the next pending message, if there is one, to be written as a
    /// text frame. A message that comes after a lag is forwarded like any
    /// other.
    pub fn step(&self, bus: &mut BroadcastBus) -> (action: WriterAction)
        requires
            old(bus).wf(),
        ensures
            final(bus).wf(),
            final(bus)@ == old(bus)@.receive(self.id()),
            action matches WriterAction::Write(_) <==> old(bus)@.can_receive(self.id()),
            action matches WriterAction::Write(text) ==> text@ == old(bus)@.next_message(
                self.id(),
            ),
    {
        match bus.try_receive(&self.sub) {
            Some(delivery) => WriterAction::Write(delivery.text),
            None => WriterAction::Wait,
        }
    }

    /// Takes note of how a write ended. After a write that succeeded the
    /// writer goes on, and the bus is untouched. After one that failed the
    /// writer ends, without a retry, and its subscription ends with it.
    pub fn after_write(self, bus: &mut BroadcastBus, written: bool) -> (next: Option<
        ConnectionWriter,
    >)
        requires
            old(bus).wf(),
        ensures
            final(bus).wf(),
            next is Some <==> written,
            next matches Some(writer) ==> writer.id() == self.id(),
            final(bus)@ == if written {
                old(bus)@
            } else {
                old(bus)@.unsubscribe(self.id())
            },
    {
        if written {
            Some(self)
        } else {
            bus.unsubscribe(self.sub);
            None
        }
    }
}

} // verus!
