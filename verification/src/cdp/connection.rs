//! The connection to the browser and the sessions opened over it.
use super::{
    AttachToTargetBody, CDPMessage, CDPMessageV, CDPMethod, CDPMethodV, GetTargetBody,
    QuerySelectorBody,
};
use crate::dom::Element;
use crate::error::{CDPError, Error};
use crate::json::{FromJson, Json};
use std::sync::Arc;
use tokio::net::TcpStream;
use tokio::sync::Mutex;
use tokio_tungstenite::{MaybeTlsStream, WebSocketStream};
use vstd::prelude::*;

verus! {

/// `tokio::sync::Mutex`, which guards the socket of a connection.
#[verifier::external_type_specification]
#[verifier::external_body]
#[verifier::reject_recursive_types(T)]
pub struct ExMutex<T: ?Sized>(Mutex<T>);

/// `tokio_tungstenite::WebSocketStream`, the socket of a connection.
#[verifier::external_type_specification]
#[verifier::external_body]
#[verifier::reject_recursive_types(S)]
pub struct ExWebSocketStream<S>(WebSocketStream<S>);

/// `tokio_tungstenite::MaybeTlsStream`, the transport under the socket.
#[verifier::external_type_specification]
#[verifier::external_body]
#[verifier::reject_recursive_types(S)]
pub struct ExMaybeTlsStream<S>(MaybeTlsStream<S>);

/// `tokio::net::TcpStream`, the network stream under the transport.
#[verifier::external_type_specification]
#[verifier::external_body]
pub struct ExTcpStream(TcpStream);

/// The web socket over which messages are exchanged with the browser.
pub type Socket = WebSocketStream<MaybeTlsStream<TcpStream>>;

/// A raw connection to the Chrome Devtool protocol.
#[derive(Debug)]
pub struct CDPConnection {
    stream: Arc<Mutex<Socket>>,
}

/// `Arc::clone`: another pointer to the same socket. The documentation of
/// `Arc::clone` says it points to the same allocation, which is what equality
/// of two `Arc`s means here.
#[verifier::external_body]
fn share(stream: &Arc<Mutex<Socket>>) -> (r: Arc<Mutex<Socket>>)
    ensures
        r == *stream,
{
    Arc::clone(stream)
}

impl Clone for CDPConnection {
    /// Another handle on the same socket.
    fn clone(&self) -> (r: Self)
        ensures
            r.stream() == self.stream(),
    {
        CDPConnection { stream: share(&self.stream) }
    }
}

/// What a frame received while waiting for a reply means.
pub enum FrameOutcome<T> {
    /// A frame without an `id`: an event, not the reply.
    Event,
    /// The reply, read as the expected type or as the error it reports.
    Reply(Result<T, Error>),
    /// A reply that is neither of the expected type nor an error reply: it is
    /// reported as an invalid response, with the reason the JSON decoder of
    /// the reply's text gives.
    Undecodable,
}

/// The error reported by an error reply `c`.
pub open spec fn is_error_of(e: Error, c: crate::error::CDPErrorV) -> bool {
    e matches Error::CDPError { code, message } && code == c.error.code && message@
        == c.error.message
}

impl CDPConnection {
    /// A connection over an open socket.
    pub fn from_stream(stream: Arc<Mutex<Socket>>) -> (r: Self)
        ensures
            r.stream() == stream,
    {
        CDPConnection { stream }
    }

    pub closed spec fn stream(&self) -> Arc<Mutex<Socket>> {
        self.stream
    }

    /// The socket of the connection.
    pub fn socket(&self) -> (r: &Arc<Mutex<Socket>>)
        ensures
            *r == self.stream(),
    {
        &self.stream
    }

    /// Decides what a frame received after sending a request means: a frame
    /// without an `id` member is an event and is skipped; a frame with one is
    /// the reply, read as `T`, or else as an error reply, or else undecodable.
    pub fn read_reply<T: FromJson>(frame: &Json) -> (r: FrameOutcome<T>)
        ensures
            match r {
                FrameOutcome::Event => frame@.get("id"@) is None,
                FrameOutcome::Reply(Ok(v)) => {
                    &&& frame@.get("id"@) is Some
                    &&& T::spec_from_json(frame@) == Some(v@)
                },
                FrameOutcome::Reply(Err(e)) => {
                    &&& frame@.get("id"@) is Some
                    &&& T::spec_from_json(frame@) is None
                    &&& CDPError::spec_from_json(frame@) matches Some(c) && is_error_of(e, c)
                },
                FrameOutcome::Undecodable => {
                    &&& frame@.get("id"@) is Some
                    &&& T::spec_from_json(frame@) is None
                    &&& CDPError::spec_from_json(frame@) is None
                },
            },
    {
        if frame.get("id").is_none() {
            return FrameOutcome::Event;
        }
        match T::from_json(frame) {
            Some(v) => FrameOutcome::Reply(Ok(v)),
            None => match CDPError::from_json(frame) {
                Some(c) => FrameOutcome::Reply(Err(Error::from(c))),
                None => FrameOutcome::Undecodable,
            },
        }
    }

    /// Decides what the next incoming frame means: `None` stands for the end
    /// of the stream, a failed read, or a frame that is not text, all of which
    /// end the wait with [`Error::FailedToSendMessage`]; a text frame is read
    /// by [`CDPConnection::read_reply`].
    pub fn on_frame<T: FromJson>(frame: Option<&Json>) -> (r: FrameOutcome<T>)
        ensures
            frame is None ==> r matches FrameOutcome::Reply(Err(Error::FailedToSendMessage)),
            frame matches Some(f) ==> match r {
                FrameOutcome::Event => f@.get("id"@) is None,
                FrameOutcome::Reply(Ok(v)) => {
                    &&& f@.get("id"@) is Some
                    &&& T::spec_from_json(f@) == Some(v@)
                },
                FrameOutcome::Reply(Err(e)) => {
                    &&& f@.get("id"@) is Some
                    &&& T::spec_from_json(f@) is None
                    &&& CDPError::spec_from_json(f@) matches Some(c) && is_error_of(e, c)
                },
                FrameOutcome::Undecodable => {
                    &&& f@.get("id"@) is Some
                    &&& T::spec_from_json(f@) is None
                    &&& CDPError::spec_from_json(f@) is None
                },
            },
    {
        match frame {
            Some(f) => Self::read_reply(f),
            None => FrameOutcome::Reply(Err(Error::FailedToSendMessage)),
        }
    }

    /// The first request of opening a session: list the targets.
    pub fn targets_request() -> (m: CDPMessage)
        ensures
            m@ == (CDPMessageV { id: 1, session_id: None, method: CDPMethodV::GetTargets }),
    {
        CDPMessage::get_targets(1)
    }

    /// The second request of opening a session: attach to the first target
    /// listed.
    pub fn attach_request(targets: &GetTargetBody) -> (m: CDPMessage)
        requires
            targets@.targets.len() > 0,
        ensures
            m@ == (CDPMessageV {
                id: 1,
                session_id: None,
                method: CDPMethodV::AttachToTarget {
                    target_id: targets@.targets[0].target_id,
                    flatten: true,
                },
            }),
    {
        let method = CDPMethod::AttachToTarget {
            target_id: targets.targets[0].target_id.clone(),
            flatten: true,
        };
        CDPMessage::root(1, method)
    }

    /// The session that attaching to `target_id` opened.
    pub fn into_session(self, target_id: &str, attached: &AttachToTargetBody) -> (s: CDPSession)
        ensures
            s@.session_id == attached@.session_id,
            s@.target_id == target_id@,
            s.connection().stream() == self.stream(),
    {
        CDPSession::new(self, &attached.session_id, target_id)
    }
}

/// `rand::random::<i32>()`: a random number, used to tag requests. Any `i32`
/// may come back.
#[verifier::external_body]
fn random_id() -> i32 {
    rand::random()
}

/// A session with one target (a page), over a connection.
#[derive(Debug)]
pub struct CDPSession {
    conn: CDPConnection,
    session_id: String,
    target_id: String,
}

pub struct CDPSessionV {
    pub session_id: Seq<char>,
    pub target_id: Seq<char>,
}

impl View for CDPSession {
    type V = CDPSessionV;

    closed spec fn view(&self) -> CDPSessionV {
        CDPSessionV { session_id: self.session_id@, target_id: self.target_id@ }
    }
}

impl Clone for CDPSession {
    /// The same session, over another handle on the same socket.
    fn clone(&self) -> (r: Self)
        ensures
            r@ == self@,
            r.connection().stream() == self.connection().stream(),
    {
        CDPSession {
            conn: self.conn.clone(),
            session_id: self.session_id.clone(),
            target_id: self.target_id.clone(),
        }
    }
}

impl CDPSession {
    fn new(conn: CDPConnection, session_id: &str, target_id: &str) -> (s: Self)
        ensures
            s@.session_id == session_id@,
            s@.target_id == target_id@,
            s.connection().stream() == conn.stream(),
    {
        Self { conn, session_id: session_id.to_owned(), target_id: target_id.to_owned() }
    }

    pub closed spec fn connection(&self) -> CDPConnection {
        self.conn
    }

    /// The connection the session runs over.
    pub fn conn(&self) -> (r: &CDPConnection)
        ensures
            *r == self.connection(),
    {
        &self.conn
    }

    pub fn session_id(&self) -> (r: &str)
        ensures
            r@ == self@.session_id,
    {
        self.session_id.as_str()
    }

    pub fn target_id(&self) -> (r: &str)
        ensures
            r@ == self@.target_id,
    {
        self.target_id.as_str()
    }

    /// The request that sends `method` within the session, under a random id.
    pub fn message(&self, method: CDPMethod) -> (m: CDPMessage)
        ensures
            m@.session_id == Some(self@.session_id),
            m@.method == method@,
    {
        let id = random_id();
        CDPMessage::new(id, &self.session_id, method)
    }

    /// The request that closes the session's page.
    pub fn close_request(&self) -> (m: CDPMessage)
        ensures
            m@.session_id is None,
            m@.method == (CDPMethodV::CloseTarget { target_id: self@.target_id }),
    {
        let id = random_id();
        CDPMessage::root(id, CDPMethod::CloseTarget { target_id: self.target_id.clone() })
    }

    /// The element a `DOM.querySelector` reply points to: the browser answers
    /// node `0` when nothing matched.
    pub fn element(&self, reply: &QuerySelectorBody) -> (r: Option<Element>)
        ensures
            r is None <==> reply.node_id == 0,
            r matches Some(e) ==> {
                &&& e@ == reply.node_id
                &&& e.session()@ == self@
                &&& e.session().connection().stream() == self.connection().stream()
            },
    {
        match reply.node_id {
            0 => None,
            id => Some(Element::new(id, self.clone())),
        }
    }
}


/// The error of an error reply carries the reply's code and message.
pub proof fn lemma_error_of_fields(e: Error, c: crate::error::CDPErrorV)
    ensures
        is_error_of(e, c) <==> match e {
            Error::CDPError { code, message } => code == c.error.code && message@ == c.error.message,
            _ => false,
        },
{
}

} // verus!
