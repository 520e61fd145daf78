//! One accepted connection on the server: its state machine, the handling of
//! inbound frames, and its heartbeat watchdog.

use crate::codec::{decode_frame, ChatPacket, ChatPacketType};
use crate::registry::{disconnected, lemma_no_delivery_after_disconnect, Registry, RegistryError};
use crate::text::{chat_line, chat_text, login_line, login_text, opt_view};
use crate::transport::Frame;
use vstd::prelude::*;

verus! {

/// How often, in milliseconds, a liveness probe goes to the peer.
pub const HEARTBEAT_INTERVAL_MS: u64 = 5000;

/// How long, in milliseconds, a session may stay silent before it is evicted.
pub const CLIENT_TIMEOUT_MS: u64 = 10000;

/// Where a session stands in its life.
#[derive(Clone, Copy, Debug, PartialEq, Eq, Structural)]
pub enum SessionState {
    /// Accepted, not yet registered.
    Connecting,
    /// Registered; inbound frames are handled.
    Active,
    /// The transport is being closed and the session deregistered.
    Closing,
    /// Nothing more happens.
    Closed,
}

/// What the connection's driver is asked to do after an inbound frame.
#[derive(Debug)]
pub enum SessionAction {
    /// Nothing.
    Nothing,
    /// Answer a ping with a pong.
    Pong,
    /// Ask the registry to send this packet to every session.
    Broadcast(ChatPacket),
    /// Close the transport and deregister the session.
    Close,
}

/// What the heartbeat watchdog asks for at one of its ticks.
#[derive(Clone, Copy, Debug, PartialEq, Eq, Structural)]
pub enum HeartbeatAction {
    /// The session is not active: nothing to do.
    Idle,
    /// Send a liveness probe.
    Probe,
    /// The session was silent too long: close it and deregister this id.
    Evict(u64),
}

/// The server's side of one connection.
#[derive(Debug)]
pub struct WsSession {
    /// The id the registry assigned; 0 until registration.
    pub id: u64,
    /// When, in milliseconds, the session last showed activity.
    pub heartbeat: u64,
    /// The display name, unset until the first login.
    pub name: Option<String>,
    pub state: SessionState,
}

/// True when a session last active at `last` is silent too long at `now`.
pub open spec fn timed_out(last: u64, now: u64) -> bool {
    now > last && now - last > CLIENT_TIMEOUT_MS
}

/// What the watchdog decides at `now` for a session in `state`, last active
/// at `last`.
pub open spec fn heartbeat_decision(state: SessionState, last: u64, id: u64, now: u64) -> HeartbeatAction {
    if state != SessionState::Active {
        HeartbeatAction::Idle
    } else if timed_out(last, now) {
        HeartbeatAction::Evict(id)
    } else {
        HeartbeatAction::Probe
    }
}

impl WsSession {
    /// A session for a transport accepted at `now`.
    pub fn new(now: u64) -> (r: Self)
        ensures
            r.id == 0,
            r.heartbeat == now,
            r.name is None,
            r.state == SessionState::Connecting,
    {
        WsSession { id: 0, heartbeat: now, name: None, state: SessionState::Connecting }
    }

    /// Takes the registry's answer to the registration: an id makes the
    /// session active, a refusal closes it.
    pub fn registered(&mut self, result: Result<u64, RegistryError>)
        requires
            old(self).state == SessionState::Connecting,
        ensures
            final(self).heartbeat == old(self).heartbeat,
            final(self).name == old(self).name,
            match result {
                Ok(id) => final(self).id == id && final(self).state == SessionState::Active,
                Err(_) => final(self).id == old(self).id && final(self).state == SessionState::Closed,
            },
    {
        match result {
            Ok(id) => {
                self.id = id;
                self.state = SessionState::Active;
            },
            Err(_) => {
                self.state = SessionState::Closed;
            },
        }
    }

    /// Handles one inbound frame at `now`; `time` is the text timestamp that
    /// relayed lines carry.
    pub fn handle(&mut self, frame: Frame, now: u64, time: &str) -> (r: SessionAction)
        ensures
            final(self).id == old(self).id,
            old(self).state != SessionState::Active ==> *final(self) == *old(self) && r is Nothing,
            old(self).state == SessionState::Active ==> match frame {
                Frame::Ping(_) => {
                    &&& r is Pong
                    &&& final(self).heartbeat == now
                    &&& final(self).name == old(self).name
                    &&& final(self).state == SessionState::Active
                },
                Frame::Pong(_) => {
                    &&& r is Nothing
                    &&& final(self).heartbeat == now
                    &&& final(self).name == old(self).name
                    &&& final(self).state == SessionState::Active
                },
                Frame::Text(_) => *final(self) == *old(self) && r is Nothing,
                Frame::Close => {
                    &&& r is Close
                    &&& final(self).heartbeat == old(self).heartbeat
                    &&& final(self).name == old(self).name
                    &&& final(self).state == SessionState::Closing
                },
                Frame::Binary(b) => {
                    &&& final(self).heartbeat == now
                    &&& match decode_frame(b@) {
                        Ok(p) => if p.0 == ChatPacketType::Login {
                            &&& r is Broadcast
                            &&& r->Broadcast_0@ == (
                                ChatPacketType::Login,
                                login_line(time@, old(self).id, opt_view(old(self).name), p.1),
                            )
                            &&& opt_view(final(self).name) == Some(p.1)
                            &&& final(self).state == SessionState::Active
                        } else if p.0 == ChatPacketType::Chat {
                            &&& r is Broadcast
                            &&& r->Broadcast_0@ == (
                                ChatPacketType::Chat,
                                chat_line(time@, old(self).id, opt_view(old(self).name), p.1),
                            )
                            &&& final(self).name == old(self).name
                            &&& final(self).state == SessionState::Active
                        } else {
                            &&& r is Close
                            &&& final(self).name == old(self).name
                            &&& final(self).state == SessionState::Closing
                        },
                        Err(_) => {
                            &&& r is Close
                            &&& final(self).name == old(self).name
                            &&& final(self).state == SessionState::Closing
                        },
                    }
                },
            },
    {
        if self.state != SessionState::Active {
            return SessionAction::Nothing;
        }
        match frame {
            Frame::Ping(_) => {
                self.heartbeat = now;
                SessionAction::Pong
            },
            Frame::Pong(_) => {
                self.heartbeat = now;
                SessionAction::Nothing
            },
            Frame::Text(_) => SessionAction::Nothing,
            Frame::Close => {
                self.state = SessionState::Closing;
                SessionAction::Close
            },
            Frame::Binary(bytes) => {
                self.heartbeat = now;
                match ChatPacket::deserialize(bytes) {
                    Ok(packet) => match packet.packet_type {
                        ChatPacketType::Login => {
                            let line = login_text(time, self.id, &self.name, packet.packet_message.as_str());
                            self.name = Some(packet.packet_message);
                            SessionAction::Broadcast(ChatPacket::new(ChatPacketType::Login, line))
                        },
                        ChatPacketType::Chat => {
                            let line = chat_text(time, self.id, &self.name, packet.packet_message.as_str());
                            SessionAction::Broadcast(ChatPacket::new(ChatPacketType::Chat, line))
                        },
                        _ => {
                            self.state = SessionState::Closing;
                            SessionAction::Close
                        },
                    },
                    Err(_) => {
                        self.state = SessionState::Closing;
                        SessionAction::Close
                    },
                }
            },
        }
    }

    /// Takes the encoded bytes of a broadcast at `now` and gives the frame to
    /// write to this session's transport. Outbound activity counts as
    /// liveness.
    pub fn deliver(&mut self, bytes: Vec<u8>, now: u64) -> (r: Frame)
        ensures
            r matches Frame::Binary(b) && b@ == bytes@,
            final(self).heartbeat == now,
            final(self).id == old(self).id,
            final(self).name == old(self).name,
            final(self).state == old(self).state,
    {
        self.heartbeat = now;
        Frame::Binary(bytes)
    }

    /// One tick of the heartbeat watchdog at `now`: an active session silent
    /// for longer than the timeout is closed and its id handed back for
    /// deregistration; any other active session is probed.
    pub fn heartbeat_tick(&mut self, now: u64) -> (r: HeartbeatAction)
        ensures
            final(self).id == old(self).id,
            final(self).heartbeat == old(self).heartbeat,
            final(self).name == old(self).name,
            r == heartbeat_decision(old(self).state, old(self).heartbeat, old(self).id, now),
            final(self).state == (if r is Evict {
                SessionState::Closing
            } else {
                old(self).state
            }),
    {
        if self.state != SessionState::Active {
            return HeartbeatAction::Idle;
        }
        if now > self.heartbeat && now - self.heartbeat > CLIENT_TIMEOUT_MS {
            self.state = SessionState::Closing;
            HeartbeatAction::Evict(self.id)
        } else {
            HeartbeatAction::Probe
        }
    }

    /// Ends the session once its transport is closed: the id to deregister,
    /// if it was registered.
    pub fn stopping(&mut self) -> (r: Option<u64>)
        ensures
            final(self).state == SessionState::Closed,
            final(self).id == old(self).id,
            final(self).name == old(self).name,
            final(self).heartbeat == old(self).heartbeat,
            r == (if old(self).state == SessionState::Active || old(self).state
                == SessionState::Closing {
                Some(old(self).id)
            } else {
                None::<u64>
            }),
    {
        let r = if self.state == SessionState::Active || self.state == SessionState::Closing {
            Some(self.id)
        } else {
            None
        };
        self.state = SessionState::Closed;
        r
    }
}

/// An active session that showed no activity for longer than the timeout is
/// evicted at the watchdog's next tick, and once the registry has forgotten its
/// id it is no longer registered, though its transport was never closed.
pub proof fn lemma_silent_session_evicted<H>(
    last: u64,
    now: u64,
    id: u64,
    before: Registry<H>,
    after: Registry<H>,
)
    requires
        timed_out(last, now),
        before.wf(),
        after.wf(),
        disconnected(before, after, id),
    ensures
        heartbeat_decision(SessionState::Active, last, id, now) == HeartbeatAction::Evict(id),
        !after.has_id(id),
{
    lemma_no_delivery_after_disconnect(before, after, id);
}

} // verus!
