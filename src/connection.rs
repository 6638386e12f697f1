//! The life of one client connection: handshake, the steady state that
//! reacts to frames and timer ticks, and teardown.
//!
//! The host owns the socket, the timer and the clock. It feeds each frame or
//! tick to [`Connection::step`] with the current time in milliseconds and
//! carries out the [`Reaction`] it gets back.

use crate::protocol::WsMessage;
use crate::registry::ChatServer;
use vstd::prelude::*;

verus! {

/// How often the host's timer ticks, in milliseconds.
pub const HEARTBEAT_INTERVAL_MS: u64 = 5000;

/// How long a connection may stay silent before it is dropped, in milliseconds.
pub const CLIENT_TIMEOUT_MS: u64 = 10000;

/// The phase of a connection after its handshake.
#[derive(Debug, PartialEq, Eq, Structural)]
pub enum ConnState {
    /// Registered, reading frames.
    Active,
    /// Deregistered; the transport is being closed.
    Closing,
    /// Over.
    Closed,
}

/// Why a connection is being closed.
#[derive(Debug, PartialEq, Eq, Structural)]
pub enum CloseCause {
    PeerClosed,
    ReadError,
    StreamEnded,
    HeartbeatTimeout,
}

/// What happened on a connection.
#[derive(Debug)]
pub enum Event {
    /// A data frame; `None` when it could not be decoded.
    Text { message: Option<WsMessage> },
    /// A liveness probe from the peer.
    Ping { payload: Vec<u8> },
    /// The peer's answer to a probe.
    Pong,
    /// The peer closed the connection.
    Close,
    /// Reading from the transport failed.
    ReadError,
    /// The transport's stream ended.
    Ended,
    /// The heartbeat timer fired.
    Tick,
    /// Any other frame.
    Other,
}

/// What the host is to do about an event.
#[derive(Debug)]
pub enum Reaction {
    /// Hand the event to the dispatcher.
    Dispatch { message: WsMessage },
    /// Drop an undecodable frame (and log it); the connection goes on.
    Discard,
    /// Answer a probe with this payload.
    Pong { payload: Vec<u8> },
    /// Send a liveness probe to the peer.
    Probe,
    /// Close the transport, then call [`Connection::finish`].
    Close { cause: CloseCause },
    /// Nothing to do.
    Nothing,
}

/// A connection past its handshake.
pub struct Connection {
    user_id: i32,
    state: ConnState,
    last_heartbeat: u64,
}

/// The parts of a connection that its behaviour depends on.
pub struct ConnectionView {
    pub user_id: i32,
    pub state: ConnState,
    pub last_heartbeat: u64,
}

impl View for Connection {
    type V = ConnectionView;

    closed spec fn view(&self) -> ConnectionView {
        ConnectionView {
            user_id: self.user_id,
            state: self.state,
            last_heartbeat: self.last_heartbeat,
        }
    }
}

/// The time from `since` to `now`; zero if the clock reads earlier than `since`.
pub open spec fn elapsed(now: u64, since: u64) -> int {
    if now >= since {
        now - since
    } else {
        0
    }
}

/// A connection last heard from at `since` has been silent for too long at `now`.
pub open spec fn timed_out(now: u64, since: u64) -> bool {
    elapsed(now, since) > CLIENT_TIMEOUT_MS
}

/// An identity a connection may be opened for: present and not zero.
pub open spec fn valid_identity(user_id: Option<i32>) -> bool {
    user_id matches Some(u) && u != 0
}

/// The timeout leaves room for at least one probe and its answer.
pub proof fn lemma_timeout_exceeds_interval()
    ensures
        CLIENT_TIMEOUT_MS > HEARTBEAT_INTERVAL_MS,
{
}

/// Deregistering one user leaves every other user's entry as it was.
pub proof fn lemma_leave_spares_others<H>(m: Map<i32, H>, user_id: i32, other: i32)
    requires
        other != user_id,
    ensures
        m.remove(user_id).contains_key(other) == m.contains_key(other),
        m.contains_key(other) ==> m.remove(user_id)[other] == m[other],
{
}

/// Opens a connection for `user_id` at time `now` and registers `session` for it.
///
/// Without a valid identity nothing is registered and no connection exists.
pub fn start_connection<H>(
    user_id: Option<i32>,
    session: H,
    registry: &mut ChatServer<H>,
    now: u64,
) -> (r: Option<Connection>)
    ensures
        valid_identity(user_id) ==> {
            &&& r matches Some(c)
            &&& c@ == (ConnectionView {
                user_id: user_id.unwrap(),
                state: ConnState::Active,
                last_heartbeat: now,
            })
            &&& final(registry)@ == old(registry)@.insert(user_id.unwrap(), session)
        },
        !valid_identity(user_id) ==> r is None && final(registry)@ == old(registry)@,
{
    match user_id {
        Some(u) => {
            if u == 0 {
                None
            } else {
                registry.join(u, session);
                Some(Connection { user_id: u, state: ConnState::Active, last_heartbeat: now })
            }
        },
        None => None,
    }
}

impl Connection {
    /// The user this connection belongs to.
    pub fn user_id(&self) -> (r: i32)
        ensures
            r == self@.user_id,
    {
        self.user_id
    }

    /// The phase the connection is in.
    pub fn state(&self) -> (r: &ConnState)
        ensures
            *r == self@.state,
    {
        &self.state
    }

    /// When the peer was last heard from.
    pub fn last_heartbeat(&self) -> (r: u64)
        ensures
            r == self@.last_heartbeat,
    {
        self.last_heartbeat
    }

    fn begin_close<H>(&mut self, registry: &mut ChatServer<H>, cause: CloseCause) -> (r: Reaction)
        requires
            old(self)@.state == ConnState::Active,
        ensures
            final(self)@ == (ConnectionView { state: ConnState::Closing, ..old(self)@ }),
            final(registry)@ == old(registry)@.remove(old(self)@.user_id),
            r == (Reaction::Close { cause }),
    {
        registry.leave(self.user_id);
        self.state = ConnState::Closing;
        Reaction::Close { cause }
    }

    /// Handles `event`, which arrived at time `now`.
    ///
    /// Only an active connection reacts. Every data frame and every probe or
    /// answer from the peer counts as a sign of life. The connection leaves the
    /// registry exactly when it moves from active to closing, which happens at
    /// most once.
    pub fn step<H>(&mut self, registry: &mut ChatServer<H>, event: Event, now: u64) -> (r: Reaction)
        ensures
            final(self)@.user_id == old(self)@.user_id,
            old(self)@.state != ConnState::Active ==> {
                &&& r is Nothing
                &&& final(self)@ == old(self)@
                &&& final(registry)@ == old(registry)@
            },
            old(self)@.state == ConnState::Active ==> {
                let closing = ConnectionView { state: ConnState::Closing, ..old(self)@ };
                let alive = ConnectionView { last_heartbeat: now, ..old(self)@ };
                &&& final(self)@.state == ConnState::Closing ==> final(registry)@ == old(
                    registry,
                )@.remove(old(self)@.user_id)
                &&& final(self)@.state == ConnState::Active ==> final(registry)@ == old(
                    registry,
                )@
                &&& match event {
                    Event::Text { message: Some(m) } => r == (Reaction::Dispatch { message: m })
                        && final(self)@ == alive,
                    Event::Text { message: None } => r is Discard && final(self)@ == alive,
                    Event::Ping { payload } => r == (Reaction::Pong { payload })
                        && final(self)@ == alive,
                    Event::Pong => r is Nothing && final(self)@ == alive,
                    Event::Close => r == (Reaction::Close { cause: CloseCause::PeerClosed })
                        && final(self)@ == closing,
                    Event::ReadError => r == (Reaction::Close { cause: CloseCause::ReadError })
                        && final(self)@ == closing,
                    Event::Ended => r == (Reaction::Close { cause: CloseCause::StreamEnded })
                        && final(self)@ == closing,
                    Event::Tick => if timed_out(now, old(self)@.last_heartbeat) {
                        r == (Reaction::Close { cause: CloseCause::HeartbeatTimeout })
                            && final(self)@ == closing
                    } else {
                        r is Probe && final(self)@ == old(self)@
                    },
                    Event::Other => r is Nothing && final(self)@ == old(self)@,
                }
            },
    {
        if self.state != ConnState::Active {
            return Reaction::Nothing;
        }
        match event {
            Event::Text { message } => {
                self.last_heartbeat = now;
                match message {
                    Some(m) => Reaction::Dispatch { message: m },
                    None => Reaction::Discard,
                }
            },
            Event::Ping { payload } => {
                self.last_heartbeat = now;
                Reaction::Pong { payload }
            },
            Event::Pong => {
                self.last_heartbeat = now;
                Reaction::Nothing
            },
            Event::Close => self.begin_close(registry, CloseCause::PeerClosed),
            Event::ReadError => self.begin_close(registry, CloseCause::ReadError),
            Event::Ended => self.begin_close(registry, CloseCause::StreamEnded),
            Event::Tick => {
                let silent: u64 = if now >= self.last_heartbeat {
                    now - self.last_heartbeat
                } else {
                    0
                };
                if silent > CLIENT_TIMEOUT_MS {
                    self.begin_close(registry, CloseCause::HeartbeatTimeout)
                } else {
                    Reaction::Probe
                }
            },
            Event::Other => Reaction::Nothing,
        }
    }

    /// Marks the connection over once its transport has been closed.
    pub fn finish(&mut self)
        requires
            old(self)@.state == ConnState::Closing,
        ensures
            final(self)@ == (ConnectionView { state: ConnState::Closed, ..old(self)@ }),
    {
        self.state = ConnState::Closed;
    }
}

} // verus!
