//! The CCUS websocket session: heartbeats, registration with the CCUS
//! server, and the messages passed between the peer and the server.

use vstd::prelude::*;
use crate::text::{concat, trim, trimmed};

verus! {

/// How often the session pings the peer, in milliseconds: every second.
pub const HEARTBEAT_INTERVAL_MS: u64 = 1000;

/// How long the peer may stay silent, in milliseconds.
pub const CLIENT_TIMEOUT_MS: u64 = 10000;

/// The settings that the CCUS service reads.
#[derive(Clone, Debug)]
pub struct CcusConfig {
    /// `ccus_port`.
    pub port: String,
    /// `ro_storage_url`, empty when absent.
    pub ro_storage_url: String,
}

/// The address that the HTTP server binds to.
pub open spec fn bind_addr_text(port: Seq<char>) -> Seq<char> {
    "[::]:"@ + port
}

impl CcusConfig {
    /// The settings from the values read: the port is required.
    pub fn from_values(ccus_port: Option<&str>, ro_storage_url: Option<&str>) -> (r: Option<CcusConfig>)
        ensures
            ccus_port is None ==> r is None,
            ccus_port matches Some(p) ==> (r matches Some(c) && c.port@ == p@ && c.ro_storage_url@ == match ro_storage_url {
                Some(u) => u@,
                None => Seq::<char>::empty(),
            }),
    {
        let port = match ccus_port {
            Some(p) => p.to_owned(),
            None => return None,
        };
        let ro = match ro_storage_url {
            Some(u) => u.to_owned(),
            None => String::new(),
        };
        Some(CcusConfig { port, ro_storage_url: ro })
    }

    /// The address that the HTTP server binds to.
    pub fn bind_addr(&self) -> (a: String)
        ensures
            a@ == bind_addr_text(self.port@),
    {
        concat("[::]:", self.port.as_str())
    }
}

/// A websocket message from the peer.
#[derive(Clone, Debug)]
pub enum WsMessage {
    Ping(Vec<u8>),
    Pong(Vec<u8>),
    Text(String),
    Binary(Vec<u8>),
    Close,
    Nop,
}

/// What the session does with a peer message.
#[derive(Clone, Debug)]
pub enum SessionAction {
    /// Answer a ping with these bytes.
    Pong(Vec<u8>),
    /// Pass the text to the CCUS server as a message of the session.
    Forward { id: usize, msg: String },
    /// Report a binary message, which the protocol does not use.
    UnexpectedBinary,
    /// Stop the session.
    Stop,
    Nothing,
}

/// What the heartbeat timer does.
#[derive(PartialEq, Eq, Structural, Clone, Copy, Debug)]
pub enum HeartbeatAction {
    /// Ping the peer.
    Ping,
    /// The peer is silent too long: tell the server that the session is
    /// gone, and stop.
    DisconnectAndStop { id: usize },
}

/// One websocket session; times are in milliseconds on a monotonic clock.
pub struct WsCCUSSession {
    id: usize,
    hb: u64,
}

/// Time elapsed from `from` to `now`, zero when `now` is earlier.
pub open spec fn elapsed(from: u64, now: u64) -> int {
    if now >= from { now - from } else { 0 }
}

/// When the peer was last heard of, after a message that arrives at `now`
/// to a session that last heard of it at `last`: a ping or a pong counts.
pub open spec fn heard_after(last: u64, msg: WsMessage, now: u64) -> u64 {
    match msg {
        WsMessage::Ping(_) | WsMessage::Pong(_) => now,
        _ => last,
    }
}

/// What the heartbeat timer does at `now`, for the session `id` whose peer
/// was last heard of at `last`.
pub open spec fn heartbeat_action(last: u64, id: usize, now: u64) -> HeartbeatAction {
    if elapsed(last, now) > CLIENT_TIMEOUT_MS {
        HeartbeatAction::DisconnectAndStop { id }
    } else {
        HeartbeatAction::Ping
    }
}

impl WsCCUSSession {
    /// The id that the server gave the session (0 until it is registered).
    pub closed spec fn id(&self) -> usize {
        self.id
    }

    /// When the peer was last heard of.
    pub closed spec fn last_heartbeat(&self) -> u64 {
        self.hb
    }

    /// A new session at time `now`.
    pub fn new(now: u64) -> (s: WsCCUSSession)
        ensures
            s.id() == 0,
            s.last_heartbeat() == now,
    {
        WsCCUSSession { id: 0, hb: now }
    }

    /// The id of the session.
    pub fn session_id(&self) -> (i: usize)
        ensures
            i == self.id(),
    {
        self.id
    }

    /// Takes the server's answer to the registration: the new id, or `None`
    /// when the server failed. Tells whether the session stops.
    pub fn registered(&mut self, reply: Option<usize>) -> (stop: bool)
        ensures
            stop == (reply is None),
            final(self).id() == match reply {
                Some(i) => i,
                None => old(self).id(),
            },
            final(self).last_heartbeat() == old(self).last_heartbeat(),
    {
        match reply {
            Some(i) => {
                self.id = i;
                false
            },
            None => true,
        }
    }

    /// The id to report as disconnected when the session stops.
    pub fn stopping(&self) -> (i: usize)
        ensures
            i == self.id(),
    {
        self.id
    }

    /// Handles a message from the peer that arrives at time `now`.
    pub fn handle(&mut self, msg: WsMessage, now: u64) -> (a: SessionAction)
        ensures
            final(self).id() == old(self).id(),
            final(self).last_heartbeat() == heard_after(old(self).last_heartbeat(), msg, now),
            match msg {
                WsMessage::Ping(b) => a matches SessionAction::Pong(p) && p@ == b@,
                WsMessage::Pong(_) => a matches SessionAction::Nothing,
                WsMessage::Text(t) => a matches SessionAction::Forward { id, msg: m } && id == old(self).id()
                    && m@ == trimmed(t@),
                WsMessage::Binary(_) => a matches SessionAction::UnexpectedBinary,
                WsMessage::Close => a matches SessionAction::Stop,
                WsMessage::Nop => a matches SessionAction::Nothing,
            },
    {
        match msg {
            WsMessage::Ping(b) => {
                self.hb = now;
                SessionAction::Pong(b)
            },
            WsMessage::Pong(_) => {
                self.hb = now;
                SessionAction::Nothing
            },
            WsMessage::Text(t) => {
                let m = trim(t.as_str());
                SessionAction::Forward { id: self.id, msg: m }
            },
            WsMessage::Binary(_) => SessionAction::UnexpectedBinary,
            WsMessage::Close => SessionAction::Stop,
            WsMessage::Nop => SessionAction::Nothing,
        }
    }

    /// The heartbeat timer fires at time `now`.
    pub fn heartbeat(&self, now: u64) -> (a: HeartbeatAction)
        ensures
            a == heartbeat_action(self.last_heartbeat(), self.id(), now),
    {
        let since = if now >= self.hb { now - self.hb } else { 0 };
        if since > CLIENT_TIMEOUT_MS {
            HeartbeatAction::DisconnectAndStop { id: self.id }
        } else {
            HeartbeatAction::Ping
        }
    }
}

/// A peer that pings or pongs is not dropped: after the session handles
/// its ping or pong at `t`, the heartbeat at any time up to the client
/// timeout later pings it again instead of disconnecting.
pub proof fn law_ping_keeps_session(last: u64, id: usize, msg: WsMessage, t: u64, later: u64)
    requires
        msg is Ping || msg is Pong,
        t <= later,
        later - t <= CLIENT_TIMEOUT_MS,
    ensures
        heartbeat_action(heard_after(last, msg, t), id, later) == HeartbeatAction::Ping,
{
}

/// A peer that answers every ping stays: when it was heard of within one
/// heartbeat interval, the heartbeat pings it again.
pub proof fn law_answering_peer_kept(last: u64, id: usize, now: u64)
    requires
        elapsed(last, now) <= HEARTBEAT_INTERVAL_MS,
    ensures
        heartbeat_action(last, id, now) == HeartbeatAction::Ping,
{
}

/// Whatever the session's id, a peer silent for longer than the client
/// timeout is disconnected by the heartbeat, and the server is told that
/// session's id.
pub proof fn law_silent_peer_dropped(last: u64, id: usize, now: u64)
    requires
        now >= last,
        now - last > CLIENT_TIMEOUT_MS,
    ensures
        heartbeat_action(last, id, now) == (HeartbeatAction::DisconnectAndStop { id }),
{
}

} // verus!
