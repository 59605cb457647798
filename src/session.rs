//! One streaming connection: subscriptions first, then heartbeat and inbound
//! frames, until the first terminal condition.
use vstd::prelude::*;
use vstd::string::StringExecFns;
use crate::codec::{StreamingMessageSend, StreamingMessageRecv, StreamingConnect, StreamingBodyMain,
    StreamingBodyTimeline, JsonObject, TaggedBody, encode_frame, decode_frame, frame_encodes, frame_parse};
use crate::json::Json;

verus! {

/// Seconds between two liveness probes.
pub const HEARTBEAT_INTERVAL_SECS: u64 = 60;

#[derive(Clone, Copy, PartialEq, Eq, Structural, Debug)]
pub enum Phase {
    Subscribing,
    Active,
    Terminated,
}

/// Why a session ended. Only `Closed` is a clean end.
#[derive(Clone, Copy, PartialEq, Eq, Structural, Debug)]
pub enum SessionEnd {
    Closed,
    ConnectFailure,
    TransportError,
    HeartbeatTimeout,
    SendFailure,
}

impl SessionEnd {
    pub fn is_error(&self) -> (r: bool)
        ensures
            r == !(*self is Closed),
    {
        match self {
            SessionEnd::Closed => false,
            _ => true,
        }
    }
}

/// A frame taken off the connection.
#[derive(PartialEq, Eq, Debug)]
pub enum Inbound {
    /// A transport-level ping with its payload.
    Ping(Vec<u8>),
    /// A transport-level pong.
    Pong(Vec<u8>),
    /// A data frame that holds a JSON value.
    Data(Json),
    /// A data frame that holds no JSON value.
    Unreadable,
    /// The stream ended cleanly.
    Closed,
    /// The transport reported an error.
    Failed,
}

/// What to do about an inbound frame.
#[derive(PartialEq, Eq, Debug)]
pub enum Reaction<Body> {
    /// Answer at once with a transport-level pong carrying this payload.
    SendPong(Vec<u8>),
    /// Hand this event to the handler, and wait for it, before the next frame.
    Deliver(StreamingMessageRecv<Body>),
    /// Nothing to do.
    Ignore,
    /// The session is over.
    Stop(SessionEnd),
}

/// What the heartbeat asks for when a probe is due.
#[derive(Clone, Copy, PartialEq, Eq, Structural, Debug)]
pub enum HeartbeatAction {
    /// Send a probe, then wait one interval.
    SendProbe,
    /// Nothing to probe yet.
    Idle,
    /// The session is over.
    Stop(SessionEnd),
}

/// The part of a session that frames and probes change.
#[derive(Clone, Copy, PartialEq, Eq, Structural, Debug)]
pub struct Liveness {
    pub phase: Phase,
    /// A probe was sent and no pong has come back since.
    pub probe_outstanding: bool,
}

/// The state after an inbound frame.
pub open spec fn after_inbound(s: Liveness, frame: Inbound) -> Liveness {
    if s.phase != Phase::Active {
        s
    } else {
        match frame {
            Inbound::Pong(_) => Liveness { probe_outstanding: false, ..s },
            Inbound::Closed | Inbound::Failed => Liveness { phase: Phase::Terminated, ..s },
            _ => s,
        }
    }
}

/// The state after a probe fell due.
pub open spec fn after_heartbeat(s: Liveness) -> Liveness {
    if s.phase != Phase::Active {
        s
    } else if s.probe_outstanding {
        Liveness { phase: Phase::Terminated, ..s }
    } else {
        Liveness { probe_outstanding: true, ..s }
    }
}

/// The state after a run of inbound frames.
pub open spec fn after_frames(s: Liveness, frames: Seq<Inbound>) -> Liveness
    decreases frames.len(),
{
    if frames.len() == 0 {
        s
    } else {
        after_inbound(after_frames(s, frames.drop_last()), frames.last())
    }
}

/// A session over one connection, with the subscriptions it sends first.
pub struct StreamSession<Params, Body> {
    pub subscriptions: Vec<StreamingMessageSend<Params, Body>>,
    /// How many subscriptions have been handed out to send.
    pub sent: usize,
    pub liveness: Liveness,
}

impl<Params: JsonObject, Body: TaggedBody> StreamSession<Params, Body> {
    /// Subscriptions go out in order, and the session is active only once all
    /// of them have.
    pub open spec fn wf(&self) -> bool {
        &&& self.sent <= self.subscriptions@.len()
        &&& self.liveness.phase == Phase::Subscribing ==> !self.liveness.probe_outstanding
        &&& self.liveness.phase != Phase::Subscribing ==> self.sent == self.subscriptions@.len()
    }

    pub fn new(subscriptions: Vec<StreamingMessageSend<Params, Body>>) -> (r: Self)
        ensures
            r.wf(),
            r.subscriptions == subscriptions,
            r.sent == 0,
            r.liveness == (Liveness { phase: Phase::Subscribing, probe_outstanding: false }),
    {
        StreamSession {
            subscriptions,
            sent: 0,
            liveness: Liveness { phase: Phase::Subscribing, probe_outstanding: false },
        }
    }

    /// The next subscription frame to send, in order; `None` once all have
    /// been handed out, at which point the session becomes active.
    pub fn next_subscription(&mut self) -> (r: Option<Json>)
        requires
            old(self).wf(),
        ensures
            final(self).wf(),
            final(self).subscriptions == old(self).subscriptions,
            old(self).liveness.phase == Phase::Subscribing && old(self).sent < old(self).subscriptions@.len()
                ==> {
                &&& r is Some
                &&& frame_encodes(r->Some_0, old(self).subscriptions@[old(self).sent as int])
                &&& final(self).sent == old(self).sent + 1
                &&& final(self).liveness == old(self).liveness
            },
            old(self).liveness.phase == Phase::Subscribing && old(self).sent == old(self).subscriptions@.len()
                ==> {
                &&& r is None
                &&& final(self).sent == old(self).sent
                &&& final(self).liveness == (Liveness { phase: Phase::Active, probe_outstanding: false })
            },
            old(self).liveness.phase != Phase::Subscribing ==> r is None && *final(self) == *old(self),
    {
        if self.liveness.phase != Phase::Subscribing {
            return None;
        }
        if self.sent < self.subscriptions.len() {
            let frame = encode_frame(&self.subscriptions[self.sent]);
            self.sent = self.sent + 1;
            Some(frame)
        } else {
            self.liveness = Liveness { phase: Phase::Active, probe_outstanding: false };
            None
        }
    }

    /// A frame could not be written: the session is over.
    pub fn on_send_failed(&mut self) -> (r: SessionEnd)
        requires
            old(self).wf(),
        ensures
            final(self).wf(),
            r == SessionEnd::SendFailure,
            final(self).liveness.phase == Phase::Terminated,
            final(self).subscriptions == old(self).subscriptions,
    {
        self.sent = self.subscriptions.len();
        self.liveness.phase = Phase::Terminated;
        SessionEnd::SendFailure
    }

    /// A probe fell due. With the previous probe still unanswered the session
    /// is dead; else a new probe goes out and is outstanding.
    pub fn on_heartbeat(&mut self) -> (r: HeartbeatAction)
        requires
            old(self).wf(),
        ensures
            final(self).wf(),
            final(self).subscriptions == old(self).subscriptions,
            final(self).sent == old(self).sent,
            final(self).liveness == after_heartbeat(old(self).liveness),
            r == (if old(self).liveness.phase != Phase::Active {
                HeartbeatAction::Idle
            } else if old(self).liveness.probe_outstanding {
                HeartbeatAction::Stop(SessionEnd::HeartbeatTimeout)
            } else {
                HeartbeatAction::SendProbe
            }),
    {
        if self.liveness.phase != Phase::Active {
            HeartbeatAction::Idle
        } else if self.liveness.probe_outstanding {
            self.liveness.phase = Phase::Terminated;
            HeartbeatAction::Stop(SessionEnd::HeartbeatTimeout)
        } else {
            self.liveness.probe_outstanding = true;
            HeartbeatAction::SendProbe
        }
    }

    /// Dispatches a frame taken off the connection. Outside the active phase
    /// nothing is acted upon.
    pub fn on_inbound(&mut self, frame: Inbound) -> (r: Reaction<Body>)
        requires
            old(self).wf(),
        ensures
            final(self).wf(),
            final(self).subscriptions == old(self).subscriptions,
            final(self).sent == old(self).sent,
            final(self).liveness == after_inbound(old(self).liveness, frame),
            old(self).liveness.phase != Phase::Active ==> r is Ignore,
            old(self).liveness.phase == Phase::Active ==> match frame {
                Inbound::Ping(d) => r == Reaction::<Body>::SendPong(d),
                Inbound::Pong(_) => r is Ignore,
                Inbound::Data(j) => match frame_parse::<StreamingMessageRecv<Body>>(j) {
                    Some(m) => r == Reaction::Deliver(m),
                    None => r is Ignore,
                },
                Inbound::Unreadable => r is Ignore,
                Inbound::Closed => r == Reaction::<Body>::Stop(SessionEnd::Closed),
                Inbound::Failed => r == Reaction::<Body>::Stop(SessionEnd::TransportError),
            },
            r is Deliver ==> old(self).sent == old(self).subscriptions@.len(),
    {
        if self.liveness.phase != Phase::Active {
            return Reaction::Ignore;
        }
        match frame {
            Inbound::Ping(d) => Reaction::SendPong(d),
            Inbound::Pong(_) => {
                self.liveness.probe_outstanding = false;
                Reaction::Ignore
            },
            Inbound::Data(j) => match decode_frame::<StreamingMessageRecv<Body>>(&j) {
                Some(m) => Reaction::Deliver(m),
                None => Reaction::Ignore,
            },
            Inbound::Unreadable => Reaction::Ignore,
            Inbound::Closed => {
                self.liveness.phase = Phase::Terminated;
                Reaction::Stop(SessionEnd::Closed)
            },
            Inbound::Failed => {
                self.liveness.phase = Phase::Terminated;
                Reaction::Stop(SessionEnd::TransportError)
            },
        }
    }
}

/// A pong clears the outstanding probe of an active session.
pub proof fn lemma_pong_clears_probe(s: Liveness, payload: Vec<u8>)
    requires
        s.phase == Phase::Active,
    ensures
        !after_inbound(s, Inbound::Pong(payload)).probe_outstanding,
        after_inbound(s, Inbound::Pong(payload)).phase == Phase::Active,
{
}

/// A data frame, decodable or not, and a frame with no JSON in it leave the
/// session as it was: a dropped frame ends nothing, and the next one is read.
pub proof fn lemma_data_frame_keeps_state(s: Liveness, frame: Json)
    ensures
        after_inbound(s, Inbound::Data(frame)) == s,
        after_inbound(s, Inbound::Unreadable) == s,
{
}

/// In an active session, a probe followed by a heartbeat interval in which no
/// pong arrives ends the session, whatever other frames came.
pub proof fn lemma_unanswered_probe_ends_session(s: Liveness, frames: Seq<Inbound>)
    requires
        s.phase == Phase::Active,
        forall|i: int| 0 <= i < frames.len() ==> !(#[trigger] frames[i] is Pong),
    ensures
        after_heartbeat(after_frames(after_heartbeat(s), frames)).phase == Phase::Terminated,
{
    lemma_no_pong_keeps_probe(after_heartbeat(s), frames);
}

proof fn lemma_no_pong_keeps_probe(s: Liveness, frames: Seq<Inbound>)
    requires
        s.phase == Phase::Terminated || s.probe_outstanding,
        s.phase != Phase::Subscribing,
        forall|i: int| 0 <= i < frames.len() ==> !(#[trigger] frames[i] is Pong),
    ensures
        after_frames(s, frames).phase != Phase::Subscribing,
        after_frames(s, frames).phase == Phase::Terminated || after_frames(s, frames).probe_outstanding,
    decreases frames.len(),
{
    if frames.len() > 0 {
        let prefix = frames.drop_last();
        assert forall|i: int| 0 <= i < prefix.len() implies !(#[trigger] prefix[i] is Pong) by {
            assert(prefix[i] == frames[i]);
        }
        lemma_no_pong_keeps_probe(s, prefix);
        assert(!(frames[frames.len() - 1] is Pong));
    }
}

/// The endpoint and credential of the streaming service.
pub struct MisskeyApiStream {
    pub host: String,
    pub token: String,
}

impl MisskeyApiStream {
    pub fn new(host: String, token: String) -> (r: MisskeyApiStream)
        ensures
            r.host == host,
            r.token == token,
    {
        MisskeyApiStream { host, token }
    }

    /// `wss://<host>/streaming?i=<token>`.
    pub fn streaming_url(&self) -> (r: String)
        ensures
            r@ == "wss://"@ + self.host@ + "/streaming?i="@ + self.token@,
    {
        let mut url = "wss://".to_owned();
        url.append(self.host.as_str());
        url.append("/streaming?i=");
        url.append(self.token.as_str());
        url
    }

    /// The session that watches the `main` channel under the id `0`.
    pub fn main_session(&self) -> (r: StreamSession<(), StreamingBodyMain>)
        ensures
            r.wf(),
            r.sent == 0,
            r.liveness.phase == Phase::Subscribing,
            r.subscriptions@.len() == 1,
            r.subscriptions@[0] matches StreamingMessageSend::Connect(c) && c.channel@ == "main"@ && c.id@ == "0"@,
    {
        let connect = StreamingConnect { channel: "main".to_owned(), id: "0".to_owned(), params: () };
        let mut subs = Vec::new();
        subs.push(StreamingMessageSend::Connect(connect));
        StreamSession::new(subs)
    }

    /// The session that watches the `hybridTimeline` channel under the id `0`.
    pub fn hybrid_timeline_session(&self) -> (r: StreamSession<(), StreamingBodyTimeline>)
        ensures
            r.wf(),
            r.sent == 0,
            r.liveness.phase == Phase::Subscribing,
            r.subscriptions@.len() == 1,
            r.subscriptions@[0] matches StreamingMessageSend::Connect(c) && c.channel@ == "hybridTimeline"@
                && c.id@ == "0"@,
    {
        let connect = StreamingConnect {
            channel: "hybridTimeline".to_owned(),
            id: "0".to_owned(),
            params: (),
        };
        let mut subs = Vec::new();
        subs.push(StreamingMessageSend::Connect(connect));
        StreamSession::new(subs)
    }
}

} // verus!
