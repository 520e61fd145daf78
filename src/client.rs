//! The client's side of one connection: the liveness flag, the outbound and
//! inbound queues, and the decisions of the writer, reader and pinger loops.

use crate::transport::Frame;
use vstd::prelude::*;

verus! {

/// How often, in milliseconds, the pinger enqueues a ping.
pub const PING_INTERVAL_MS: u64 = 2000;

/// Why a client operation failed.
#[derive(Clone, Copy, Debug, PartialEq, Eq, Structural)]
pub enum ClientError {
    /// The connection is not live: the flag is clear or the writer is gone.
    NotConnected,
    /// The inbound queue is empty and closed: nothing more will arrive.
    Closed,
}

/// What the writer loop does next.
#[derive(Debug)]
pub enum WriterStep {
    /// Write this frame to the transport.
    Write(Frame),
    /// The queue is empty and the connection live: wait for more.
    Wait,
    /// The connection is over and the queue drained: close the transport.
    Stop,
}

/// What the reader loop does after a frame arrived.
#[derive(Clone, Copy, Debug, PartialEq, Eq, Structural)]
pub enum ReaderStep {
    /// Answer the ping with a pong, straight to the transport.
    ReplyPong,
    /// The frame was queued for the caller.
    Queued,
    /// The inbound queue is closed: stop reading.
    Stop,
}

/// The model of a client connection.
pub struct ClientView {
    pub connected: bool,
    pub outbound: Seq<Frame>,
    pub outbound_closed: bool,
    pub inbound: Seq<Frame>,
    pub inbound_closed: bool,
}

/// The state shared by a client connection and its three loops.
pub struct WsClient {
    connected: bool,
    outbound: Vec<Frame>,
    outbound_closed: bool,
    inbound: Vec<Frame>,
    inbound_closed: bool,
}

impl View for WsClient {
    type V = ClientView;

    closed spec fn view(&self) -> ClientView {
        ClientView {
            connected: self.connected,
            outbound: self.outbound@,
            outbound_closed: self.outbound_closed,
            inbound: self.inbound@,
            inbound_closed: self.inbound_closed,
        }
    }
}

/// True when a send is accepted.
pub open spec fn can_send(v: ClientView) -> bool {
    v.connected && !v.outbound_closed
}

/// The liveness flag is never set again once clear.
pub open spec fn flag_kept(before: ClientView, after: ClientView) -> bool {
    after.connected ==> before.connected
}

/// What `disconnect` leaves behind, and what it returns.
pub open spec fn disconnect_post(before: ClientView, after: ClientView, r: Result<(), ClientError>) -> bool {
    &&& !after.connected
    &&& after.outbound_closed == before.outbound_closed
    &&& after.inbound == before.inbound
    &&& after.inbound_closed == before.inbound_closed
    &&& if !before.connected {
        after == before && r is Ok
    } else if can_send(before) {
        after.outbound == before.outbound.push(Frame::Close) && r is Ok
    } else {
        after.outbound == before.outbound && r == Err::<(), ClientError>(ClientError::NotConnected)
    }
}

impl WsClient {
    /// A live connection with empty queues.
    pub fn new() -> (r: Self)
        ensures
            r@ == (ClientView {
                connected: true,
                outbound: Seq::empty(),
                outbound_closed: false,
                inbound: Seq::empty(),
                inbound_closed: false,
            }),
    {
        WsClient {
            connected: true,
            outbound: Vec::new(),
            outbound_closed: false,
            inbound: Vec::new(),
            inbound_closed: false,
        }
    }

    pub fn is_connected(&self) -> (r: bool)
        ensures
            r == self@.connected,
    {
        self.connected
    }

    /// Clears the liveness flag when `connected` is false. The flag cannot be
    /// set again once clear.
    pub fn set_connected(&mut self, connected: bool)
        ensures
            final(self)@ == (ClientView { connected: old(self)@.connected && connected, ..old(self)@ }),
    {
        self.connected = self.connected && connected;
    }

    /// Queues a frame for the writer, or fails with `NotConnected`.
    pub fn send(&mut self, msg: Frame) -> (r: Result<(), ClientError>)
        ensures
            can_send(old(self)@) <==> r is Ok,
            r is Ok ==> final(self)@ == (ClientView {
                outbound: old(self)@.outbound.push(msg),
                ..old(self)@
            }),
            r is Err ==> final(self)@ == old(self)@ && r == Err::<(), ClientError>(
                ClientError::NotConnected,
            ),
    {
        if !self.connected || self.outbound_closed {
            return Err(ClientError::NotConnected);
        }
        self.outbound.push(msg);
        Ok(())
    }

    /// Takes the oldest received frame without waiting: `None` when nothing
    /// waits, `Closed` when nothing waits and nothing more will arrive.
    pub fn recv(&mut self) -> (r: Result<Option<Frame>, ClientError>)
        ensures
            old(self)@.inbound.len() > 0 ==> r == Ok::<Option<Frame>, ClientError>(
                Some(old(self)@.inbound[0]),
            ) && final(self)@ == (ClientView {
                inbound: old(self)@.inbound.drop_first(),
                ..old(self)@
            }),
            old(self)@.inbound.len() == 0 ==> final(self)@ == old(self)@ && r == (if old(self)@.inbound_closed {
                Err::<Option<Frame>, ClientError>(ClientError::Closed)
            } else {
                Ok(None)
            }),
    {
        if self.inbound.len() == 0 {
            if self.inbound_closed {
                return Err(ClientError::Closed);
            }
            return Ok(None);
        }
        let f = self.inbound.remove(0);
        assert(self.inbound@ =~= old(self)@.inbound.drop_first());
        Ok(Some(f))
    }

    /// Sends a protocol close and clears the liveness flag; succeeds at once
    /// when the flag is already clear.
    pub fn disconnect(&mut self) -> (r: Result<(), ClientError>)
        ensures
            disconnect_post(old(self)@, final(self)@, r),
    {
        if !self.connected {
            return Ok(());
        }
        let r = self.send(Frame::Close);
        self.connected = false;
        r
    }

    /// The writer loop's next step: the oldest queued frame, else wait while
    /// the connection is live, else stop for good.
    pub fn next_outbound(&mut self) -> (r: WriterStep)
        ensures
            flag_kept(old(self)@, final(self)@),
            old(self)@.outbound.len() > 0 ==> r is Write && r->Write_0 == old(self)@.outbound[0]
                && final(self)@ == (ClientView {
                outbound: old(self)@.outbound.drop_first(),
                ..old(self)@
            }),
            old(self)@.outbound.len() == 0 && old(self)@.connected ==> r is Wait && final(self)@
                == old(self)@,
            old(self)@.outbound.len() == 0 && !old(self)@.connected ==> r is Stop && final(self)@
                == (ClientView { outbound_closed: true, ..old(self)@ }),
    {
        if self.outbound.len() > 0 {
            let f = self.outbound.remove(0);
            assert(self.outbound@ =~= old(self)@.outbound.drop_first());
            WriterStep::Write(f)
        } else if self.connected {
            WriterStep::Wait
        } else {
            self.outbound_closed = true;
            WriterStep::Stop
        }
    }

    /// The reader loop hands over a frame that arrived: a ping is answered
    /// at once, anything else is queued for the caller.
    pub fn received(&mut self, frame: Frame) -> (r: ReaderStep)
        ensures
            flag_kept(old(self)@, final(self)@),
            old(self)@.inbound_closed ==> r == ReaderStep::Stop && final(self)@ == old(self)@,
            !old(self)@.inbound_closed && frame is Ping ==> r == ReaderStep::ReplyPong && final(self)@ == old(self)@,
            !old(self)@.inbound_closed && !(frame is Ping) ==> r == ReaderStep::Queued && final(self)@ == (ClientView { inbound: old(self)@.inbound.push(frame), ..old(self)@ }),
    {
        if self.inbound_closed {
            return ReaderStep::Stop;
        }
        match frame {
            Frame::Ping(_) => ReaderStep::ReplyPong,
            _ => {
                self.inbound.push(frame);
                ReaderStep::Queued
            },
        }
    }

    /// The transport closed or failed: the flag is cleared and the inbound
    /// queue closed, so the caller sees the end of the stream.
    pub fn transport_closed(&mut self)
        ensures
            final(self)@ == (ClientView { connected: false, inbound_closed: true, ..old(self)@ }),
    {
        self.connected = false;
        self.inbound_closed = true;
    }

    /// One tick of the pinger: queues a ping and answers true while the
    /// connection is live; answers false once the pinger should exit.
    pub fn ping_tick(&mut self) -> (r: bool)
        ensures
            r == can_send(old(self)@),
            r ==> final(self)@ == (ClientView { outbound: final(self)@.outbound, ..old(self)@ })
                && final(self)@.outbound.len() == old(self)@.outbound.len() + 1
                && final(self)@.outbound.drop_last() == old(self)@.outbound && (final(self)@.outbound.last() matches Frame::Ping(p) && p@.len() == 0),
            !r ==> final(self)@ == old(self)@,
    {
        if !self.connected || self.outbound_closed {
            return false;
        }
        self.outbound.push(Frame::Ping(Vec::new()));
        assert(self.outbound@.drop_last() =~= old(self)@.outbound);
        true
    }
}

/// After `disconnect`, every `send` fails with `NotConnected`; and since no
/// operation sets the flag again, this holds of every later state, whichever
/// caller comes next.
pub proof fn lemma_send_fails_after_disconnect(
    before: ClientView,
    after: ClientView,
    r: Result<(), ClientError>,
    later: ClientView,
)
    requires
        disconnect_post(before, after, r),
        flag_kept(after, later),
    ensures
        !can_send(after),
        !can_send(later),
{
}

} // verus!
