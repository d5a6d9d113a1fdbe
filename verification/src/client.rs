//! The protocol client's ordered message plumbing: the connection handshake,
//! the FIFO buffer of messages read but not yet consumed, request/reply
//! correlation that defers unrelated messages without reordering them, and
//! the split into send and receive halves. The transport itself hands whole
//! decoded batches in and takes request values out; everything here is the
//! order- and correlation-critical logic between the two.

use vstd::prelude::*;

use crate::message::{kind_of, message_kind, ClientMessage, Error, Message, MessageKind, RoomInfo};

verus! {

/// A connected client: the FIFO buffer of messages already read from the
/// transport but not yet consumed. Index 0 is the oldest.
#[derive(Debug)]
pub struct Client {
    buffer: Vec<Message>,
}

impl View for Client {
    type V = Seq<Message>;

    closed spec fn view(&self) -> Seq<Message> {
        self.buffer@
    }
}

/// The send half after a split; correlation needs reading, so only
/// fire-and-forget requests remain to it, and it carries no buffer.
#[derive(Debug)]
pub struct ClientSender {}

/// The receive half after a split: the buffer moves here whole.
#[derive(Debug)]
pub struct ClientReceiver {
    buffer: Vec<Message>,
}

impl View for ClientReceiver {
    type V = Seq<Message>;

    closed spec fn view(&self) -> Seq<Message> {
        self.buffer@
    }
}

impl Client {
    /// Complete the handshake on the first decoded batch: it must open with
    /// the room information. Succeeds exactly when it does; an empty first
    /// batch means the server closed, any other first message is a protocol
    /// violation and produces no client. The rest of the batch is retained
    /// in the buffer in order.
    pub fn connect(first_batch: Vec<Message>) -> (r: Result<(Client, RoomInfo), Error>)
        ensures
            ({
                let b = first_batch@;
                match r {
                    Ok((client, info)) => b.len() > 0 && b[0] == Message::RoomInfo(info)
                        && client@ == b.skip(1),
                    Err(e) => match e {
                        Error::ConnectionClosed => b.len() == 0,
                        Error::IllegalResponse { received, expected } => b.len() > 0 && !(b[0]
                            is RoomInfo) && received == b[0] && expected == MessageKind::RoomInfo,
                    },
                }
            }),
    {
        let mut batch = first_batch;
        if batch.len() == 0 {
            return Err(Error::ConnectionClosed);
        }
        let first = batch.remove(0);
        proof {
            assert(batch@ =~= first_batch@.skip(1));
        }
        match first {
            Message::RoomInfo(info) => Ok((Client { buffer: batch }, info)),
            other => Err(Error::IllegalResponse { received: other, expected: MessageKind::RoomInfo }),
        }
    }

    /// Consume the oldest buffered message, if any. When the buffer is
    /// empty the transport must be read for another batch first; a quiet
    /// shutdown surfaces as an empty buffer with no further batches.
    pub fn recv(&mut self) -> (r: Option<Message>)
        ensures
            match r {
                Some(m) => old(self)@.len() > 0 && m == old(self)@[0] && final(self)@ == old(
                    self,
                )@.skip(1),
                None => old(self)@.len() == 0 && final(self)@ == old(self)@,
            },
    {
        if self.buffer.len() == 0 {
            None
        } else {
            let m = self.buffer.remove(0);
            proof {
                assert(self.buffer@ =~= old(self)@.skip(1));
            }
            Some(m)
        }
    }

    /// Append one decoded batch to the buffer, preserving order: buffering
    /// never reorders, only defers.
    pub fn accept_batch(&mut self, batch: Vec<Message>)
        ensures
            final(self)@ == old(self)@ + batch@,
    {
        let mut incoming = batch;
        self.buffer.append(&mut incoming);
    }

    /// Take the oldest buffered message of the wanted kind, leaving every
    /// other message in place and in order; the correlated helpers call this
    /// after each batch until the reply arrives. Returns nothing when no
    /// buffered message matches.
    pub fn take_reply(&mut self, kind: MessageKind) -> (r: Option<Message>)
        ensures
            ({
                let b = old(self)@;
                match r {
                    Some(m) => exists|i: int|
                        #![auto]
                        0 <= i < b.len() && kind_of(b[i]) == kind && m == b[i] && final(self)@
                            == b.remove(i) && (forall|j: int| 0 <= j < i ==> kind_of(b[j]) != kind),
                    None => final(self)@ == b && (forall|i: int|
                        0 <= i < b.len() ==> kind_of(b[i]) != kind),
                }
            }),
    {
        let mut i: usize = 0;
        while i < self.buffer.len()
            invariant
                i <= self.buffer@.len(),
                self.buffer@ == old(self)@,
                forall|j: int| 0 <= j < i ==> kind_of(old(self)@[j]) != kind,
            decreases self.buffer@.len() - i,
        {
            if message_kind(&self.buffer[i]) == kind {
                let m = self.buffer.remove(i);
                return Some(m);
            }
            i = i + 1;
        }
        None
    }

    /// Partition the client into a write-only and a read-only half that
    /// share no further state; the buffer moves whole to the receive half.
    /// Correlation requires reading, so the send half keeps only
    /// fire-and-forget sending.
    pub fn split(self) -> (r: (ClientSender, ClientReceiver))
        ensures
            r.1@ == self@,
    {
        let Client { buffer } = self;
        (ClientSender {  }, ClientReceiver { buffer })
    }
}

impl ClientSender {
    /// The chat request for one line of text.
    pub fn say(&self, text: String) -> (m: ClientMessage)
        ensures
            m == ClientMessage::Say(text),
    {
        ClientMessage::Say(text)
    }

    /// The request reporting a batch of checked location ids.
    pub fn location_checks(&self, locations: Vec<i64>) -> (m: ClientMessage)
        ensures
            m == ClientMessage::LocationChecks(locations),
    {
        ClientMessage::LocationChecks(locations)
    }

    /// The request announcing this client's status.
    pub fn status_update(&self, status: i64) -> (m: ClientMessage)
        ensures
            m == ClientMessage::StatusUpdate(status),
    {
        ClientMessage::StatusUpdate(status)
    }

    /// The broadcast request targeting games, slots or tags.
    pub fn bounce(
        &self,
        games: Vec<String>,
        slots: Vec<String>,
        tags: Vec<String>,
        data: String,
    ) -> (m: ClientMessage)
        ensures
            m == (ClientMessage::Bounce { games, slots, tags, data }),
    {
        ClientMessage::Bounce { games, slots, tags, data }
    }
}

impl ClientReceiver {
    /// Consume the oldest buffered message, if any; the read half's buffer
    /// behaves exactly as the unsplit client's.
    pub fn recv(&mut self) -> (r: Option<Message>)
        ensures
            match r {
                Some(m) => old(self)@.len() > 0 && m == old(self)@[0] && final(self)@ == old(
                    self,
                )@.skip(1),
                None => old(self)@.len() == 0 && final(self)@ == old(self)@,
            },
    {
        if self.buffer.len() == 0 {
            None
        } else {
            let m = self.buffer.remove(0);
            proof {
                assert(self.buffer@ =~= old(self)@.skip(1));
            }
            Some(m)
        }
    }

    /// Append one decoded batch to the buffer, preserving order.
    pub fn accept_batch(&mut self, batch: Vec<Message>)
        ensures
            final(self)@ == old(self)@ + batch@,
    {
        let mut incoming = batch;
        self.buffer.append(&mut incoming);
    }
}

/// The in-order concatenation of a sequence of batches.
pub open spec fn flatten_batches(batches: Seq<Seq<Message>>) -> Seq<Message>
    decreases batches.len(),
{
    if batches.len() == 0 {
        Seq::empty()
    } else {
        batches[0] + flatten_batches(batches.skip(1))
    }
}

/// The buffer contents after accepting a sequence of batches one by one.
pub open spec fn buffer_after_batches(init: Seq<Message>, batches: Seq<Seq<Message>>) -> Seq<
    Message,
>
    decreases batches.len(),
{
    if batches.len() == 0 {
        init
    } else {
        buffer_after_batches(init + batches[0], batches.skip(1))
    }
}

/// Message order is preserved end to end: accepting any sequence of batches
/// leaves the buffer holding their flattened, in-order concatenation after
/// whatever it already held, and `recv` drains the buffer strictly from the
/// front — so successive `recv` calls return exactly that concatenation.
pub proof fn lemma_message_order_preserved(init: Seq<Message>, batches: Seq<Seq<Message>>)
    ensures
        buffer_after_batches(init, batches) == init + flatten_batches(batches),
    decreases batches.len(),
{
    if batches.len() == 0 {
        assert(init + flatten_batches(batches) =~= init);
    } else {
        lemma_message_order_preserved(init + batches[0], batches.skip(1));
        assert((init + batches[0]) + flatten_batches(batches.skip(1)) =~= init + (batches[0]
            + flatten_batches(batches.skip(1))));
    }
}

} // verus!
