//! The session's decisions: from its state and one event to its next state
//! and the one action that the transport, the consumer or the caller is to
//! carry out. The loop that waits for events and performs the actions runs
//! outside the library; it performs each action before it reports the next
//! event, so the session alone decides when the socket is written.
use crate::config::{check_url, url_accepts, Config};
use crate::error::StreamError;
use crate::models::{create_market_subscription, decode_market_update, decode_result, strings, subscription_text, DecodeError, MarketUpdate};
use vstd::prelude::*;
use vstd::string::StringExecFns;

verus! {

/// Seconds between two heartbeats.
pub const HEARTBEAT_INTERVAL_SECS: u64 = 50;

/// The reason a peer gave when it closed the connection.
#[derive(Debug, Clone)]
pub struct CloseReason {
    pub code: u16,
    pub reason: String,
}

/// One unit of data received on the WebSocket.
#[derive(Debug)]
pub enum Frame {
    Text(String),
    Binary(Vec<u8>),
    Ping(Vec<u8>),
    Pong(Vec<u8>),
    Close(Option<CloseReason>),
    Other,
}

/// What happened since the last action.
#[derive(Debug)]
pub enum Event {
    /// The connection is established.
    Connected,
    /// The connection could not be established.
    ConnectFailed(StreamError),
    /// The last frame sent went out.
    Sent,
    /// The last frame sent could not go out.
    SendFailed(StreamError),
    /// A frame came in.
    Received(Frame),
    /// Receiving failed.
    ReceiveFailed(StreamError),
    /// The inbound stream ended.
    StreamEnded,
    /// The heartbeat generator asks for a heartbeat.
    HeartbeatDue,
    /// The process asks the session to stop.
    Shutdown,
    /// The transport has been closed and released.
    Released,
}

/// What the session asks for next.
#[derive(Debug)]
pub enum Action {
    /// Open the connection to this endpoint.
    Connect(String),
    /// Send this text frame, then report `Sent` or `SendFailed`.
    Send(String),
    /// Hand this update to the consumer.
    Deliver(MarketUpdate),
    /// Record that this inbound text is no market update, and why.
    Reject(String, DecodeError),
    /// Nothing to do: wait for the next event.
    Listen,
    /// Close the transport, then report `Released`.
    Close,
    /// The session is over: return this to the caller.
    Finish(Result<(), StreamError>),
}

#[derive(Debug, Clone, Copy, PartialEq, Eq, Structural)]
pub enum Phase {
    Connecting,
    Subscribing,
    Streaming,
    Closing,
    Closed,
}

/// The state of one session.
#[derive(Debug)]
pub struct Session {
    pub phase: Phase,
    /// A frame has been handed to the transport and not yet reported on.
    pub writing: bool,
    /// A heartbeat came due while a frame was going out.
    pub heartbeat_pending: bool,
    /// The ids the session subscribes to.
    pub asset_ids: Vec<String>,
    /// Why the session is closing, where it closes on an error.
    pub failure: Option<StreamError>,
}

/// The text of a heartbeat frame.
pub open spec fn heartbeat_text() -> Seq<char> {
    "PING"@
}

/// Builds a heartbeat frame's text.
pub fn heartbeat_frame() -> (r: String)
    ensures
        r@ == heartbeat_text(),
{
    String::from_str("PING")
}

/// The action that decoding `text` into `r` calls for.
pub open spec fn decode_action(text: String, r: Result<MarketUpdate, DecodeError>) -> Action {
    match r {
        Ok(u) => Action::Deliver(u),
        Err(e) => Action::Reject(text, e),
    }
}

/// `pre` moves to closing, on `failure` where it is some.
pub open spec fn closing(pre: Session, failure: Option<StreamError>) -> Session {
    Session { phase: Phase::Closing, writing: false, heartbeat_pending: false, failure, ..pre }
}

/// The transition of one step: from `pre`, on `e`, to `post` with action `a`.
pub open spec fn step_spec(pre: Session, e: Event, post: Session, a: Action) -> bool {
    match pre.phase {
        Phase::Connecting => match e {
            Event::Connected => post == Session { phase: Phase::Subscribing, writing: true, ..pre }
                && (a matches Action::Send(t) && t@ == subscription_text(strings(pre.asset_ids@))),
            Event::ConnectFailed(err) => post == Session { phase: Phase::Closed, ..pre } && a
                == Action::Finish(Err(err)),
            Event::Shutdown => post == Session { phase: Phase::Closed, ..pre } && a == Action::Finish(
                Ok(()),
            ),
            _ => post == pre && a == Action::Listen,
        },
        Phase::Subscribing => match e {
            Event::Sent => post == Session { phase: Phase::Streaming, writing: false, ..pre } && a
                == Action::Listen,
            Event::SendFailed(err) => post == closing(pre, Some(err)) && a == Action::Close,
            Event::Shutdown => post == closing(pre, None) && a == Action::Close,
            _ => post == pre && a == Action::Listen,
        },
        Phase::Streaming => match e {
            Event::Received(Frame::Text(t)) => post == pre && exists|r|
                decode_result(t@, r) && a == #[trigger] decode_action(t, r),
            Event::Received(Frame::Close(_)) => post == closing(pre, None) && a == Action::Close,
            Event::Received(_) => post == pre && a == Action::Listen,
            Event::ReceiveFailed(err) => post == closing(pre, Some(err)) && a == Action::Close,
            Event::StreamEnded => post == closing(pre, None) && a == Action::Close,
            Event::HeartbeatDue => if pre.writing {
                post == Session { heartbeat_pending: true, ..pre } && a == Action::Listen
            } else {
                post == Session { writing: true, ..pre } && (a matches Action::Send(t) && t@
                    == heartbeat_text())
            },
            Event::Sent => if pre.heartbeat_pending {
                post == Session { heartbeat_pending: false, writing: true, ..pre }
                    && (a matches Action::Send(t) && t@ == heartbeat_text())
            } else {
                post == Session { writing: false, ..pre } && a == Action::Listen
            },
            Event::SendFailed(err) => post == closing(pre, Some(err)) && a == Action::Close,
            Event::Shutdown => post == closing(pre, None) && a == Action::Close,
            _ => post == pre && a == Action::Listen,
        },
        Phase::Closing => match e {
            Event::Released => post == Session { phase: Phase::Closed, failure: None, ..pre } && a
                == Action::Finish(
                match pre.failure {
                    None => Ok(()),
                    Some(err) => Err(err),
                },
            ),
            _ => post == pre && a == Action::Listen,
        },
        Phase::Closed => post == pre && a == Action::Listen,
    }
}

/// A sequence of steps: each event takes the state before it to the state
/// after it with the action at the same place.
pub open spec fn is_run(states: Seq<Session>, events: Seq<Event>, actions: Seq<Action>) -> bool {
    &&& states.len() == events.len() + 1
    &&& actions.len() == events.len()
    &&& forall|i: int|
        0 <= i < events.len() ==> #[trigger] step_spec(states[i], events[i], states[i + 1], actions[i])
}

impl Session {
    /// A frame goes out only while subscribing or streaming, and a heartbeat
    /// waits only behind a frame going out while streaming.
    pub open spec fn wf(&self) -> bool {
        &&& self.writing ==> (self.phase == Phase::Subscribing || self.phase == Phase::Streaming)
        &&& self.heartbeat_pending ==> (self.writing && self.phase == Phase::Streaming)
    }

    /// A session that has checked its endpoint and is about to connect; its
    /// first action connects to the endpoint.
    pub fn new(config: &Config, asset_ids: Vec<String>) -> (r: Result<(Session, Action), StreamError>)
        ensures
            r is Ok <==> url_accepts(config.websocket_url@),
            r matches Ok((s, a)) ==> s == (Session {
                phase: Phase::Connecting,
                writing: false,
                heartbeat_pending: false,
                asset_ids,
                failure: None,
            }) && (a matches Action::Connect(u) && u@ == config.websocket_url@),
            r matches Err(e) ==> e is UrlParse,
    {
        match check_url(config.websocket_url.as_str()) {
            Err(e) => Err(StreamError::UrlParse(e)),
            Ok(()) => Ok(
                (
                    Session {
                        phase: Phase::Connecting,
                        writing: false,
                        heartbeat_pending: false,
                        asset_ids,
                        failure: None,
                    },
                    Action::Connect(config.websocket_url.clone()),
                ),
            ),
        }
    }

    /// Takes one event and says what to do next.
    pub fn step(&mut self, event: Event) -> (a: Action)
        ensures
            step_spec(*old(self), event, *final(self), a),
            old(self).wf() ==> final(self).wf(),
    {
        match self.phase {
            Phase::Connecting => match event {
                Event::Connected => {
                    let ids = self.asset_ids.clone();
                    proof {
                        assert(strings(ids@) =~= strings(self.asset_ids@)) by {
                            assert forall|i: int| 0 <= i < ids@.len() implies ids@[i]@
                                == self.asset_ids@[i]@ by {
                                assert(cloned(self.asset_ids[i], ids[i]));
                            }
                        }
                    }
                    match create_market_subscription(ids) {
                        Ok(text) => {
                            self.phase = Phase::Subscribing;
                            self.writing = true;
                            Action::Send(text)
                        },
                        Err(err) => {
                            self.close(Some(err));
                            Action::Close
                        },
                    }
                },
                Event::ConnectFailed(err) => {
                    self.phase = Phase::Closed;
                    Action::Finish(Err(err))
                },
                Event::Shutdown => {
                    self.phase = Phase::Closed;
                    Action::Finish(Ok(()))
                },
                _ => Action::Listen,
            },
            Phase::Subscribing => match event {
                Event::Sent => {
                    self.phase = Phase::Streaming;
                    self.writing = false;
                    Action::Listen
                },
                Event::SendFailed(err) => {
                    self.close(Some(err));
                    Action::Close
                },
                Event::Shutdown => {
                    self.close(None);
                    Action::Close
                },
                _ => Action::Listen,
            },
            Phase::Streaming => match event {
                Event::Received(Frame::Text(t)) => {
                    let r = decode_market_update(t.as_str());
                    let a = match r {
                        Ok(u) => Action::Deliver(u),
                        Err(e) => Action::Reject(t, e),
                    };
                    proof {
                        assert(a == decode_action(t, r));
                    }
                    a
                },
                Event::Received(Frame::Close(_)) => {
                    self.close(None);
                    Action::Close
                },
                Event::Received(_) => Action::Listen,
                Event::ReceiveFailed(err) => {
                    self.close(Some(err));
                    Action::Close
                },
                Event::StreamEnded => {
                    self.close(None);
                    Action::Close
                },
                Event::HeartbeatDue => {
                    if self.writing {
                        self.heartbeat_pending = true;
                        Action::Listen
                    } else {
                        self.writing = true;
                        Action::Send(heartbeat_frame())
                    }
                },
                Event::Sent => {
                    if self.heartbeat_pending {
                        self.heartbeat_pending = false;
                        self.writing = true;
                        Action::Send(heartbeat_frame())
                    } else {
                        self.writing = false;
                        Action::Listen
                    }
                },
                Event::SendFailed(err) => {
                    self.close(Some(err));
                    Action::Close
                },
                Event::Shutdown => {
                    self.close(None);
                    Action::Close
                },
                _ => Action::Listen,
            },
            Phase::Closing => match event {
                Event::Released => {
                    let mut failure = None;
                    std::mem::swap(&mut failure, &mut self.failure);
                    self.phase = Phase::Closed;
                    match failure {
                        None => Action::Finish(Ok(())),
                        Some(err) => Action::Finish(Err(err)),
                    }
                },
                _ => Action::Listen,
            },
            Phase::Closed => Action::Listen,
        }
    }

    /// Takes `events` in order, one step each, and returns the actions in
    /// order: the states it passes through form a run from the session as
    /// it was to the session as it is left.
    pub fn run(&mut self, events: Vec<Event>) -> (actions: Vec<Action>)
        ensures
            exists|states: Seq<Session>|
                {
                    &&& is_run(states, events@, actions@)
                    &&& states[0] == *old(self)
                    &&& states.last() == *final(self)
                },
    {
        let ghost evs = events@;
        let ghost start = *self;
        let n = events.len();
        let mut rest = events;
        let mut actions: Vec<Action> = Vec::new();
        let ghost mut states: Seq<Session> = seq![*self];
        let mut i: usize = 0;
        while i < n
            invariant
                n == evs.len(),
                i <= n,
                rest@ == evs.subrange(i as int, n as int),
                states.len() == i + 1,
                actions@.len() == i,
                states[0] == start,
                states.last() == *self,
                forall|j: int|
                    0 <= j < i ==> #[trigger] step_spec(states[j], evs[j], states[j + 1], actions@[j]),
            decreases n - i,
        {
            let ghost pre = *self;
            let e = rest.remove(0);
            assert(e == evs[i as int]);
            let a = self.step(e);
            actions.push(a);
            proof {
                let old_states = states;
                states = states.push(*self);
                assert forall|j: int| 0 <= j < i + 1 implies #[trigger] step_spec(
                    states[j],
                    evs[j],
                    states[j + 1],
                    actions@[j],
                ) by {
                    if j < i {
                        assert(states[j] == old_states[j]);
                        assert(states[j + 1] == old_states[j + 1]);
                    }
                }
                assert(rest@ =~= evs.subrange(i + 1, n as int));
            }
            i += 1;
        }
        actions
    }

    fn close(&mut self, failure: Option<StreamError>)
        ensures
            *final(self) == closing(*old(self), failure),
    {
        self.phase = Phase::Closing;
        self.writing = false;
        self.heartbeat_pending = false;
        self.failure = failure;
    }
}

} // verus!
