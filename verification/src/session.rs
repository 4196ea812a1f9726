//! The session manager as a state machine. It decides, from the state of
//! the session and what has just happened, the next state and what is to be
//! done next; the caller does the fetching, dialing, reading and writing and
//! hands back the outcome.

use vstd::prelude::*;
use crate::classifier::{classifies, classify_frame, ClassifiedEvent, ProtocolError};
use crate::connector::ConnectError;
use crate::json::parsed_value;
use crate::models::{Channels, SubscribeMessage};
use crate::resolver::{endpoint_urls, resolve_endpoints, texts};
use crate::subscription::{
    build_subscriptions,
    is_subscribe_request,
    requested_topics,
    subscription_topics,
    SubscribeSymbols,
};
use crate::transport::TransportError;

verus! {

/// The states of a session.
#[derive(Debug, Clone, Copy, PartialEq, Eq)]
pub enum SessionState {
    /// Configured and not started.
    Idle,
    /// Fetching credentials and dialing.
    Connecting,
    /// Welcomed by the exchange; resolving symbols and writing requests.
    Subscribing,
    /// Reading frames.
    Streaming,
    /// A read has failed; the connection is being dropped.
    Reconnecting,
    /// Cancelled or failed for good.
    Stopped,
}

/// The outcome that a session waits for: that of the action it asked for
/// last.
#[derive(Debug, Clone, Copy, PartialEq, Eq)]
pub enum Pending {
    /// Nothing was asked for.
    Nothing,
    /// Credentials, after `FetchCredentials`.
    Credentials,
    /// A connection, after `Connect`.
    Connection,
    /// A frame, after `Read`.
    Frame,
    /// The symbol list, after `FetchSymbols`.
    Symbols,
    /// Word that the action is carried out.
    Completion,
}

/// One frame as read from the connection.
#[derive(Debug, Clone, PartialEq)]
pub enum Frame {
    Text(String),
    Binary,
    Ping,
    Pong,
    Close,
}

/// Why a session ended in failure.
#[derive(Debug, Clone, PartialEq)]
pub enum SessionError {
    Transport(TransportError),
    Connect(ConnectError),
    /// An outcome was handed in that the session had not asked for.
    OutOfTurn,
}

/// What has just happened.
#[derive(Debug, Clone, PartialEq)]
pub enum SessionEvent {
    /// The caller starts the session.
    Started,
    CredentialsFetched(Channels),
    CredentialsFailed(TransportError),
    /// The connector has a live connection.
    Connected,
    ConnectFailed(ConnectError),
    FrameRead(Frame),
    ReadFailed,
    SymbolsFetched(Vec<String>),
    SymbolsFailed(TransportError),
    /// The last action is carried out and has no outcome to report.
    Done,
    /// The cancellation flag was found set before a read.
    CancelObserved,
}

/// What the caller is to do next.
#[derive(Debug, Clone, PartialEq)]
pub enum SessionAction {
    /// Fetch fresh credentials.
    FetchCredentials,
    /// Dial these URLs, in this order.
    Connect(Vec<String>),
    /// Look at the cancellation flag, then read one frame.
    Read,
    /// Hand the event to the consumer.
    Deliver(ClassifiedEvent),
    /// The frame was faulty: note it and go on.
    Skip(ProtocolError),
    /// Fetch the symbols of the active instruments.
    FetchSymbols,
    /// Write these requests, in this order; a failed write is noted and the
    /// rest still written.
    Subscribe(Vec<SubscribeMessage>),
    /// Drop the connection.
    Discard,
    /// Close the connection with a normal closure.
    Close,
    /// Report the failure; the session is over.
    Fail(SessionError),
    /// Nothing is left to do.
    Halt,
}

/// A streaming session: its fixed configuration, its state, and the
/// outcome it waits for.
#[derive(Debug)]
pub struct FuturesWebSockets {
    pub exchange: String,
    pub topics: Vec<String>,
    pub subscribe_symbols: SubscribeSymbols,
    pub state: SessionState,
    pub pending: Pending,
}

/// The outcome that an action leaves the session waiting for.
pub open spec fn awaited(action: SessionAction) -> Pending {
    match action {
        SessionAction::FetchCredentials => Pending::Credentials,
        SessionAction::Connect(_) => Pending::Connection,
        SessionAction::Read => Pending::Frame,
        SessionAction::FetchSymbols => Pending::Symbols,
        SessionAction::Deliver(_) => Pending::Completion,
        SessionAction::Skip(_) => Pending::Completion,
        SessionAction::Subscribe(_) => Pending::Completion,
        SessionAction::Discard => Pending::Completion,
        SessionAction::Close => Pending::Nothing,
        SessionAction::Fail(_) => Pending::Nothing,
        SessionAction::Halt => Pending::Nothing,
    }
}

/// `action` asks for the subscription to every topic template with every one
/// of `symbols`, in topic-major order.
pub open spec fn subscribes(action: SessionAction, templates: Seq<String>, symbols: Seq<String>) -> bool {
    &&& action matches SessionAction::Subscribe(requests)
    &&& requested_topics(requests@) == subscription_topics(templates, symbols)
    &&& forall|i: int| 0 <= i < requests@.len() ==> is_subscribe_request(#[trigger] requests@[i])
}

impl FuturesWebSockets {
    /// The reaction to a text frame, given how the frame was classified.
    /// Only a streaming session that waits for a frame has asked for one.
    pub open spec fn reacts(
        self,
        classified: Result<ClassifiedEvent, ProtocolError>,
        next: SessionState,
        action: SessionAction,
    ) -> bool {
        if self.state != SessionState::Streaming || self.pending != Pending::Frame {
            next == SessionState::Stopped && action == SessionAction::Fail(SessionError::OutOfTurn)
        } else {
            match classified {
                Err(fault) => next == SessionState::Streaming && action == SessionAction::Skip(
                    fault,
                ),
                Ok(event) => if event.is_welcome() {
                    &&& next == SessionState::Subscribing
                    &&& match self.subscribe_symbols {
                        SubscribeSymbols::All => action == SessionAction::FetchSymbols,
                        SubscribeSymbols::Custom(symbols) => subscribes(
                            action,
                            self.topics@,
                            symbols@,
                        ),
                    }
                } else {
                    next == SessionState::Streaming && action == SessionAction::Deliver(event)
                },
            }
        }
    }

    /// The transition relation: a session in state `self.state` that waits
    /// for `self.pending` is led by `event` to the state `next`, with
    /// `action` to be done. An event that is not an outcome of what the
    /// session waits for ends it.
    pub open spec fn transition(
        self,
        event: SessionEvent,
        next: SessionState,
        action: SessionAction,
    ) -> bool {
        match (self.state, self.pending, event) {
            (SessionState::Stopped, _, _) => next == SessionState::Stopped && action
                == SessionAction::Halt,
            (SessionState::Idle, Pending::Nothing, SessionEvent::Started) => next
                == SessionState::Connecting && action == SessionAction::FetchCredentials,
            (
                SessionState::Connecting,
                Pending::Credentials,
                SessionEvent::CredentialsFetched(credentials),
            ) => if credentials.data.instance_servers@.len() == 0 {
                next == SessionState::Stopped && action == SessionAction::Fail(
                    SessionError::Connect(ConnectError::NoEndpointsAvailable),
                )
            } else {
                &&& next == SessionState::Connecting
                &&& action matches SessionAction::Connect(urls)
                &&& texts(urls@) == endpoint_urls(
                    credentials.data.instance_servers@,
                    credentials.data.token@,
                )
            },
            (
                SessionState::Connecting,
                Pending::Credentials,
                SessionEvent::CredentialsFailed(error),
            ) => next == SessionState::Stopped && action == SessionAction::Fail(
                SessionError::Transport(error),
            ),
            (SessionState::Connecting, Pending::Connection, SessionEvent::Connected) => next
                == SessionState::Streaming && action == SessionAction::Read,
            (
                SessionState::Connecting,
                Pending::Connection,
                SessionEvent::ConnectFailed(error),
            ) => next == SessionState::Stopped && action == SessionAction::Fail(
                SessionError::Connect(error),
            ),
            (SessionState::Streaming, Pending::Frame, SessionEvent::CancelObserved) => next
                == SessionState::Stopped && action == SessionAction::Close,
            (SessionState::Streaming, Pending::Frame, SessionEvent::ReadFailed) => next
                == SessionState::Reconnecting && action == SessionAction::Discard,
            (
                SessionState::Streaming,
                Pending::Frame,
                SessionEvent::FrameRead(Frame::Text(text)),
            ) => match parsed_value(text@) {
                None => self.reacts(Err(ProtocolError::MalformedFrame), next, action),
                Some(value) => exists|event: ClassifiedEvent| #[trigger]
                    classifies(event, value.unwrapped(), text@) && self.reacts(
                        Ok(event),
                        next,
                        action,
                    ),
            },
            (SessionState::Streaming, Pending::Frame, SessionEvent::FrameRead(_)) => next
                == SessionState::Streaming && action == SessionAction::Read,
            (SessionState::Streaming, Pending::Completion, SessionEvent::Done) => next
                == SessionState::Streaming && action == SessionAction::Read,
            (
                SessionState::Subscribing,
                Pending::Symbols,
                SessionEvent::SymbolsFetched(symbols),
            ) => next == SessionState::Subscribing && subscribes(action, self.topics@, symbols@),
            (SessionState::Subscribing, Pending::Symbols, SessionEvent::SymbolsFailed(error)) => next
                == SessionState::Stopped && action == SessionAction::Fail(
                SessionError::Transport(error),
            ),
            (SessionState::Subscribing, Pending::Completion, SessionEvent::Done) => next
                == SessionState::Streaming && action == SessionAction::Read,
            (SessionState::Reconnecting, Pending::Completion, SessionEvent::Done) => next
                == SessionState::Connecting && action == SessionAction::FetchCredentials,
            _ => next == SessionState::Stopped && action == SessionAction::Fail(
                SessionError::OutOfTurn,
            ),
        }
    }

    /// The session that `event` leads to with `action`: the configuration
    /// stays, and the session waits for the outcome of `action`.
    pub open spec fn moved(self, next: SessionState, action: SessionAction) -> FuturesWebSockets {
        FuturesWebSockets { state: next, pending: awaited(action), ..self }
    }

    /// A session over the exchange's futures stream, not yet started.
    pub fn new(topics: Vec<String>, subscribe_symbols: SubscribeSymbols) -> (session:
        FuturesWebSockets)
        ensures
            session.exchange@ == "kucoin-futures"@,
            session.topics == topics,
            session.subscribe_symbols == subscribe_symbols,
            session.state == SessionState::Idle,
            session.pending == Pending::Nothing,
    {
        FuturesWebSockets {
            exchange: "kucoin-futures".to_owned(),
            topics,
            subscribe_symbols,
            state: SessionState::Idle,
            pending: Pending::Nothing,
        }
    }

    /// The request to subscribe with these symbols.
    fn subscription(&self, symbols: &Vec<String>) -> (action: SessionAction)
        ensures
            subscribes(action, self.topics@, symbols@),
    {
        SessionAction::Subscribe(build_subscriptions(&self.topics, symbols))
    }

    /// Moves to `next`, waiting for `pending`.
    fn wait(&mut self, next: SessionState, pending: Pending)
        ensures
            *final(self) == (FuturesWebSockets { state: next, pending, ..*old(self) }),
    {
        self.state = next;
        self.pending = pending;
    }

    /// Ends the session with a failure.
    fn fail(&mut self, error: SessionError) -> (action: SessionAction)
        ensures
            action == SessionAction::Fail(error),
            *final(self) == old(self).moved(SessionState::Stopped, action),
    {
        self.wait(SessionState::Stopped, Pending::Nothing);
        SessionAction::Fail(error)
    }

    /// Reacts to a classified text frame while streaming: the welcome starts
    /// the subscription, every other event goes to the consumer, and a frame
    /// that could not be decoded is skipped.
    pub fn react(&mut self, classified: Result<ClassifiedEvent, ProtocolError>) -> (action:
        SessionAction)
        ensures
            old(self).reacts(classified, final(self).state, action),
            *final(self) == old(self).moved(final(self).state, action),
    {
        match (self.state, self.pending) {
            (SessionState::Streaming, Pending::Frame) => {},
            _ => {
                return self.fail(SessionError::OutOfTurn);
            },
        }
        match classified {
            Err(fault) => {
                self.wait(SessionState::Streaming, Pending::Completion);
                SessionAction::Skip(fault)
            },
            Ok(event) => {
                if event.welcomes() {
                    match &self.subscribe_symbols {
                        SubscribeSymbols::All => {
                            self.wait(SessionState::Subscribing, Pending::Symbols);
                            SessionAction::FetchSymbols
                        },
                        SubscribeSymbols::Custom(symbols) => {
                            let action = self.subscription(symbols);
                            self.wait(SessionState::Subscribing, Pending::Completion);
                            action
                        },
                    }
                } else {
                    self.wait(SessionState::Streaming, Pending::Completion);
                    SessionAction::Deliver(event)
                }
            },
        }
    }

    /// Takes what has just happened and decides what is to be done next.
    /// The configuration never changes.
    pub fn step(&mut self, event: SessionEvent) -> (action: SessionAction)
        ensures
            old(self).transition(event, final(self).state, action),
            *final(self) == old(self).moved(final(self).state, action),
    {
        match (self.state, self.pending) {
            (SessionState::Stopped, _) => {
                self.pending = Pending::Nothing;
                SessionAction::Halt
            },
            (SessionState::Idle, Pending::Nothing) => match event {
                SessionEvent::Started => {
                    self.wait(SessionState::Connecting, Pending::Credentials);
                    SessionAction::FetchCredentials
                },
                _ => self.fail(SessionError::OutOfTurn),
            },
            (SessionState::Connecting, Pending::Credentials) => match event {
                SessionEvent::CredentialsFetched(credentials) => match resolve_endpoints(
                    &credentials.data,
                ) {
                    Ok(urls) => {
                        self.pending = Pending::Connection;
                        SessionAction::Connect(urls)
                    },
                    Err(error) => self.fail(SessionError::Connect(error)),
                },
                SessionEvent::CredentialsFailed(error) => self.fail(SessionError::Transport(error)),
                _ => self.fail(SessionError::OutOfTurn),
            },
            (SessionState::Connecting, Pending::Connection) => match event {
                SessionEvent::Connected => {
                    self.wait(SessionState::Streaming, Pending::Frame);
                    SessionAction::Read
                },
                SessionEvent::ConnectFailed(error) => self.fail(SessionError::Connect(error)),
                _ => self.fail(SessionError::OutOfTurn),
            },
            (SessionState::Streaming, Pending::Frame) => match event {
                SessionEvent::CancelObserved => {
                    self.wait(SessionState::Stopped, Pending::Nothing);
                    SessionAction::Close
                },
                SessionEvent::ReadFailed => {
                    self.wait(SessionState::Reconnecting, Pending::Completion);
                    SessionAction::Discard
                },
                SessionEvent::FrameRead(Frame::Text(text)) => {
                    let classified = classify_frame(text.as_str());
                    self.react(classified)
                },
                SessionEvent::FrameRead(_) => SessionAction::Read,
                _ => self.fail(SessionError::OutOfTurn),
            },
            (SessionState::Streaming, Pending::Completion) => match event {
                SessionEvent::Done => {
                    self.pending = Pending::Frame;
                    SessionAction::Read
                },
                _ => self.fail(SessionError::OutOfTurn),
            },
            (SessionState::Subscribing, Pending::Symbols) => match event {
                SessionEvent::SymbolsFetched(symbols) => {
                    self.pending = Pending::Completion;
                    self.subscription(&symbols)
                },
                SessionEvent::SymbolsFailed(error) => self.fail(SessionError::Transport(error)),
                _ => self.fail(SessionError::OutOfTurn),
            },
            (SessionState::Subscribing, Pending::Completion) => match event {
                SessionEvent::Done => {
                    self.wait(SessionState::Streaming, Pending::Frame);
                    SessionAction::Read
                },
                _ => self.fail(SessionError::OutOfTurn),
            },
            (SessionState::Reconnecting, Pending::Completion) => match event {
                SessionEvent::Done => {
                    self.wait(SessionState::Connecting, Pending::Credentials);
                    SessionAction::FetchCredentials
                },
                _ => self.fail(SessionError::OutOfTurn),
            },
            _ => self.fail(SessionError::OutOfTurn),
        }
    }
}

/// A stopped session stays stopped and asks for nothing more.
pub proof fn lemma_stopped_is_terminal(
    session: FuturesWebSockets,
    event: SessionEvent,
    next: SessionState,
    action: SessionAction,
)
    requires
        session.state == SessionState::Stopped,
        session.transition(event, next, action),
    ensures
        next == SessionState::Stopped,
        action == SessionAction::Halt,
{
}

/// A failed read is no failure of the session: it leads through
/// `Reconnecting` to a fresh credential fetch, and with credentials that
/// name a server and a connector that gets through, back to `Streaming` and
/// the next read, with no `Fail` on the way.
pub proof fn lemma_read_failure_recovers(
    session: FuturesWebSockets,
    credentials: Channels,
    s1: SessionState,
    a1: SessionAction,
    s2: SessionState,
    a2: SessionAction,
    s3: SessionState,
    a3: SessionAction,
    s4: SessionState,
    a4: SessionAction,
)
    requires
        session.state == SessionState::Streaming,
        session.pending == Pending::Frame,
        credentials.data.instance_servers@.len() > 0,
        session.transition(SessionEvent::ReadFailed, s1, a1),
        session.moved(s1, a1).transition(SessionEvent::Done, s2, a2),
        session.moved(s2, a2).transition(SessionEvent::CredentialsFetched(credentials), s3, a3),
        session.moved(s3, a3).transition(SessionEvent::Connected, s4, a4),
    ensures
        s1 == SessionState::Reconnecting && a1 == SessionAction::Discard,
        s2 == SessionState::Connecting && a2 == SessionAction::FetchCredentials,
        s3 == SessionState::Connecting && a3 is Connect,
        s4 == SessionState::Streaming && a4 == SessionAction::Read,
        session.moved(s4, a4) == session,
{
}

/// A connection is only ever dialed with URLs resolved from the credentials
/// that have just been fetched: `Connect` answers `CredentialsFetched` and
/// nothing else.
pub proof fn lemma_connect_uses_fresh_credentials(
    session: FuturesWebSockets,
    event: SessionEvent,
    next: SessionState,
    action: SessionAction,
)
    requires
        session.transition(event, next, action),
        action is Connect,
    ensures
        session.state == SessionState::Connecting,
        session.pending == Pending::Credentials,
        event matches SessionEvent::CredentialsFetched(credentials) && texts(action->Connect_0@)
            == endpoint_urls(credentials.data.instance_servers@, credentials.data.token@),
{
    if let SessionEvent::FrameRead(Frame::Text(text)) = event {
        if session.state == SessionState::Streaming && session.pending == Pending::Frame {
            if let Some(value) = parsed_value(text@) {
                let witness = choose|e: ClassifiedEvent| #[trigger]
                    classifies(e, value.unwrapped(), text@) && session.reacts(
                        Ok(e),
                        next,
                        action,
                    );
                assert(session.reacts(Ok(witness), next, action));
            }
        }
    }
}

} // verus!
