//! The attach hub: the one routing point between a container's standard
//! streams and every attached client.
//!
//! It holds two broadcast channels. Every read loop publishes client input
//! into the inbound one, which the hub reads; every write loop subscribes to
//! the outbound one, into which the hub writes container output.
use vstd::prelude::*;
use tokio::sync::broadcast::{Receiver, Sender};
use crate::error::AttachError;
use crate::frame::Pipe;

verus! {

#[verifier::external_type_specification]
#[verifier::external_body]
#[verifier::reject_recursive_types(T)]
pub struct ExSender<T>(tokio::sync::broadcast::Sender<T>);

#[verifier::external_type_specification]
#[verifier::external_body]
#[verifier::reject_recursive_types(T)]
pub struct ExReceiver<T>(tokio::sync::broadcast::Receiver<T>);

/// How many buffers each channel of the hub holds for a receiver that lags.
pub const CHANNEL_CAPACITY: usize = 1000;

/// The channel that an inbound sender sends into.
pub uninterp spec fn inbound_id(tx: Sender<Vec<u8>>) -> int;

/// The channel that an inbound receiver receives from.
pub uninterp spec fn inbound_rx_id(rx: Receiver<Vec<u8>>) -> int;

/// How many buffers the channel of an inbound sender holds for a receiver
/// that lags.
pub uninterp spec fn inbound_bound(tx: Sender<Vec<u8>>) -> nat;

/// The channel that an outbound sender sends into.
pub uninterp spec fn outbound_id(tx: Sender<(Pipe, Vec<u8>)>) -> int;

/// The channel that an outbound receiver receives from.
pub uninterp spec fn outbound_rx_id(rx: Receiver<(Pipe, Vec<u8>)>) -> int;

/// How many buffers the channel of an outbound sender holds for a receiver
/// that lags.
pub uninterp spec fn outbound_bound(tx: Sender<(Pipe, Vec<u8>)>) -> nat;

/// Relies on tokio::sync::broadcast::channel: a sender and a receiver of one
/// new channel, whose capacity is `capacity` rounded up to a power of two. It
/// panics only on a capacity of zero or above `usize::MAX / 2`.
#[verifier::external_body]
fn open_inbound_channel(capacity: usize) -> (r: (Sender<Vec<u8>>, Receiver<Vec<u8>>))
    requires
        0 < capacity <= usize::MAX / 2,
    ensures
        inbound_rx_id(r.1) == inbound_id(r.0),
        inbound_bound(r.0) >= capacity,
{
    tokio::sync::broadcast::channel(capacity)
}

/// Relies on tokio::sync::broadcast::channel, as `open_inbound_channel` does,
/// for the outbound channel.
#[verifier::external_body]
fn open_outbound_channel(capacity: usize) -> (r: (
    Sender<(Pipe, Vec<u8>)>,
    Receiver<(Pipe, Vec<u8>)>,
))
    requires
        0 < capacity <= usize::MAX / 2,
    ensures
        outbound_rx_id(r.1) == outbound_id(r.0),
        outbound_bound(r.0) >= capacity,
{
    tokio::sync::broadcast::channel(capacity)
}

/// Relies on tokio::sync::broadcast::Sender::subscribe: a new receiver on the
/// sender's own channel, of what is sent from now on.
#[verifier::external_body]
fn subscribe_inbound(tx: &Sender<Vec<u8>>) -> (r: Receiver<Vec<u8>>)
    ensures
        inbound_rx_id(r) == inbound_id(*tx),
{
    tx.subscribe()
}

/// Relies on tokio::sync::broadcast::Sender::subscribe, as
/// `subscribe_inbound` does, for the outbound channel.
#[verifier::external_body]
fn subscribe_outbound_rx(tx: &Sender<(Pipe, Vec<u8>)>) -> (r: Receiver<(Pipe, Vec<u8>)>)
    ensures
        outbound_rx_id(r) == outbound_id(*tx),
{
    tx.subscribe()
}

/// Relies on the Clone impl of tokio::sync::broadcast::Sender: a new handle
/// on the same channel.
#[verifier::external_body]
fn clone_inbound_sender(tx: &Sender<Vec<u8>>) -> (r: Sender<Vec<u8>>)
    ensures
        inbound_id(r) == inbound_id(*tx),
        inbound_bound(r) == inbound_bound(*tx),
{
    tx.clone()
}

/// Relies on the Clone impl of tokio::sync::broadcast::Sender, as
/// `clone_inbound_sender` does, for the outbound channel.
#[verifier::external_body]
fn clone_outbound_sender(tx: &Sender<(Pipe, Vec<u8>)>) -> (r: Sender<(Pipe, Vec<u8>)>)
    ensures
        outbound_id(r) == outbound_id(*tx),
        outbound_bound(r) == outbound_bound(*tx),
{
    tx.clone()
}

/// Relies on tokio::sync::broadcast::Sender::receiver_count: how many
/// receivers the channel has at this moment.
#[verifier::external_body]
fn receiver_count<T>(tx: &Sender<T>) -> usize {
    tx.receiver_count()
}

/// Relies on tokio::sync::broadcast::Sender::send on the publisher's channel:
/// it hands `msg` to the channel, and hands it back when the channel has no
/// receiver; otherwise it returns how many receivers it reached, at least
/// one. The publisher's record of what it handed over grows by `msg`.
#[verifier::external_body]
fn send_inbound(p: &mut Publisher, msg: Vec<u8>) -> (r: Result<usize, Vec<u8>>)
    ensures
        final(p).tx == old(p).tx,
        final(p).handed@ == old(p).handed@.push(msg@),
        r is Ok ==> r->Ok_0 >= 1,
        r is Err ==> r->Err_0 == msg,
{
    p.tx.send(msg).map_err(|e| e.0)
}

/// Relies on tokio::sync::broadcast::Sender::send on the hub's outbound
/// channel: it hands `(pipe, buf)` to the channel, and hands it back when the
/// channel has no receiver; otherwise it returns how many receivers it
/// reached, at least one. The hub's record of what it handed over grows by
/// that message; its channel handles stay as they are.
#[verifier::external_body]
fn send_outbound(hub: &mut SharedContainerAttach, pipe: Pipe, buf: Vec<u8>) -> (r: Result<
    usize,
    (Pipe, Vec<u8>),
>)
    ensures
        final(hub).read_half_rx == old(hub).read_half_rx,
        final(hub).read_half_tx == old(hub).read_half_tx,
        final(hub).write_half_tx == old(hub).write_half_tx,
        final(hub).handed@ == old(hub).handed@.push((pipe, buf@)),
        r is Ok ==> r->Ok_0 >= 1,
        r is Err ==> r->Err_0 == (pipe, buf),
{
    hub.write_half_tx.send((pipe, buf)).map_err(|e| e.0)
}

/// What a send into a channel comes to: success where it reached a
/// receiver, else `failure`.
pub fn send_outcome<T>(sent: Result<usize, T>, failure: AttachError) -> (r: Result<(), AttachError>)
    ensures
        r is Ok <==> sent is Ok,
        sent is Err ==> r == Err::<(), AttachError>(failure),
{
    match sent {
        Ok(_) => Ok(()),
        Err(_) => Err(failure),
    }
}

/// A handle that a read loop publishes client input through, into the
/// inbound channel of a hub.
pub struct Publisher {
    tx: Sender<Vec<u8>>,
    handed: Ghost<Seq<Seq<u8>>>,
}

impl Publisher {
    /// The channel that this publisher sends into.
    pub closed spec fn channel(&self) -> int {
        inbound_id(self.tx)
    }

    /// Every input handed to the channel through this handle, in order.
    pub closed spec fn handed(&self) -> Seq<Seq<u8>> {
        self.handed@
    }

    /// Hands client input `msg` to every reader of the hub. It fails with
    /// `PublishFailed` exactly where the channel has no receiver left, which
    /// `send_outcome` decides.
    pub fn publish(&mut self, msg: Vec<u8>) -> (r: Result<(), AttachError>)
        ensures
            final(self).channel() == old(self).channel(),
            final(self).handed() == old(self).handed().push(msg@),
            r is Err ==> r == Err::<(), AttachError>(AttachError::PublishFailed),
    {
        let sent = send_inbound(self, msg);
        send_outcome(sent, AttachError::PublishFailed)
    }
}

impl Clone for Publisher {
    /// A handle on the same channel, with nothing handed over yet.
    fn clone(&self) -> (r: Self)
        ensures
            r.channel() == self.channel(),
            r.handed() == Seq::<Seq<u8>>::empty(),
    {
        Publisher { tx: clone_inbound_sender(&self.tx), handed: Ghost(Seq::empty()) }
    }
}

/// A shared container attach: the hub of one container's attach endpoints.
/// A clone reads all inbound input on a subscription of its own and writes
/// into the same outbound channel.
pub struct SharedContainerAttach {
    read_half_rx: Receiver<Vec<u8>>,
    read_half_tx: Sender<Vec<u8>>,
    write_half_tx: Sender<(Pipe, Vec<u8>)>,
    handed: Ghost<Seq<(Pipe, Seq<u8>)>>,
}

/// `b` is on the same channels as `a`, with the same capacities.
pub open spec fn channels_kept(a: &SharedContainerAttach, b: &SharedContainerAttach) -> bool {
    &&& b.inbound_channel() == a.inbound_channel()
    &&& b.inbound_reader_channel() == a.inbound_reader_channel()
    &&& b.outbound_channel() == a.outbound_channel()
    &&& b.inbound_capacity() == a.inbound_capacity()
    &&& b.outbound_capacity() == a.outbound_capacity()
}

impl SharedContainerAttach {
    /// The channel that this hub's input comes through.
    pub closed spec fn inbound_channel(&self) -> int {
        inbound_id(self.read_half_tx)
    }

    /// The channel that this hub's own receiver of input reads.
    pub closed spec fn inbound_reader_channel(&self) -> int {
        inbound_rx_id(self.read_half_rx)
    }

    /// The channel that this hub's output goes through.
    pub closed spec fn outbound_channel(&self) -> int {
        outbound_id(self.write_half_tx)
    }

    /// How many buffers the input channel holds for a lagging receiver.
    pub closed spec fn inbound_capacity(&self) -> nat {
        inbound_bound(self.read_half_tx)
    }

    /// How many buffers the output channel holds for a lagging receiver.
    pub closed spec fn outbound_capacity(&self) -> nat {
        outbound_bound(self.write_half_tx)
    }

    /// Every buffer, with its stream, that this hub handed to its output
    /// channel, in order.
    pub closed spec fn handed(&self) -> Seq<(Pipe, Seq<u8>)> {
        self.handed@
    }

    /// A hub with fresh channels of at least `CHANNEL_CAPACITY` buffers each,
    /// whose own receiver reads its input channel.
    pub fn new() -> (r: Self)
        ensures
            r.inbound_reader_channel() == r.inbound_channel(),
            r.inbound_capacity() >= CHANNEL_CAPACITY,
            r.outbound_capacity() >= CHANNEL_CAPACITY,
            r.handed() == Seq::<(Pipe, Seq<u8>)>::empty(),
    {
        let (read_half_tx, read_half_rx) = open_inbound_channel(CHANNEL_CAPACITY);
        let (write_half_tx, _unused) = open_outbound_channel(CHANNEL_CAPACITY);
        SharedContainerAttach { read_half_rx, read_half_tx, write_half_tx, handed: Ghost(Seq::empty()) }
    }

    /// A handle on the inbound channel, for a read loop to publish into.
    pub fn inbound_publisher(&self) -> (r: Publisher)
        ensures
            r.channel() == self.inbound_channel(),
            r.handed() == Seq::<Seq<u8>>::empty(),
    {
        Publisher { tx: clone_inbound_sender(&self.read_half_tx), handed: Ghost(Seq::empty()) }
    }

    /// A handle on the outbound channel, for an endpoint to subscribe its
    /// write loops to.
    pub fn outbound_sender(&self) -> (r: Sender<(Pipe, Vec<u8>)>)
        ensures
            outbound_id(r) == self.outbound_channel(),
            outbound_bound(r) == self.outbound_capacity(),
    {
        clone_outbound_sender(&self.write_half_tx)
    }

    /// A new receiver of every buffer written from now on.
    pub fn subscribe_outbound(&self) -> (r: Receiver<(Pipe, Vec<u8>)>)
        ensures
            outbound_rx_id(r) == self.outbound_channel(),
    {
        subscribe_outbound_rx(&self.write_half_tx)
    }

    /// This hub's own receiver of client input.
    pub fn inbound(&mut self) -> (r: &mut Receiver<Vec<u8>>)
        ensures
            inbound_rx_id(*r) == old(self).inbound_reader_channel(),
    {
        &mut self.read_half_rx
    }

    /// Hands the buffer `buf` of `pipe` to the output channel, which has
    /// `receivers` receivers: nothing is handed over, and nothing can fail,
    /// where there are none.
    pub fn send_to_subscribers(&mut self, receivers: usize, pipe: Pipe, buf: Vec<u8>) -> (r: Result<
        (),
        AttachError,
    >)
        ensures
            channels_kept(old(self), final(self)),
            receivers > 0 ==> final(self).handed() == old(self).handed().push((pipe, buf@)),
            receivers == 0 ==> final(self).handed() == old(self).handed() && r is Ok,
            r is Err ==> r == Err::<(), AttachError>(AttachError::SendFailed),
    {
        if receivers > 0 {
            let sent = send_outbound(self, pipe, buf);
            send_outcome(sent, AttachError::SendFailed)
        } else {
            Ok(())
        }
    }

    /// Writes the buffer `buf` of `pipe` to every attached client: it is
    /// handed to the output channel once, or, with no client attached,
    /// nothing is done and the write succeeds.
    pub fn write(&mut self, pipe: Pipe, buf: Vec<u8>) -> (r: Result<(), AttachError>)
        ensures
            channels_kept(old(self), final(self)),
            final(self).handed() == old(self).handed().push((pipe, buf@)) || (final(self).handed()
                == old(self).handed() && r is Ok),
            r is Err ==> r == Err::<(), AttachError>(AttachError::SendFailed),
    {
        let receivers = receiver_count(&self.write_half_tx);
        self.send_to_subscribers(receivers, pipe, buf)
    }
}

impl Default for SharedContainerAttach {
    fn default() -> (r: Self)
        ensures
            r.inbound_reader_channel() == r.inbound_channel(),
            r.inbound_capacity() >= CHANNEL_CAPACITY,
            r.outbound_capacity() >= CHANNEL_CAPACITY,
            r.handed() == Seq::<(Pipe, Seq<u8>)>::empty(),
    {
        SharedContainerAttach::new()
    }
}

impl Clone for SharedContainerAttach {
    /// A hub on the same two channels, with a receiver of its own on the
    /// input channel.
    fn clone(&self) -> (r: Self)
        ensures
            r.inbound_channel() == self.inbound_channel(),
            r.inbound_reader_channel() == self.inbound_channel(),
            r.outbound_channel() == self.outbound_channel(),
            r.inbound_capacity() == self.inbound_capacity(),
            r.outbound_capacity() == self.outbound_capacity(),
            r.handed() == Seq::<(Pipe, Seq<u8>)>::empty(),
    {
        SharedContainerAttach {
            read_half_rx: subscribe_inbound(&self.read_half_tx),
            read_half_tx: clone_inbound_sender(&self.read_half_tx),
            write_half_tx: clone_outbound_sender(&self.write_half_tx),
            handed: Ghost(Seq::empty()),
        }
    }
}

} // verus!
