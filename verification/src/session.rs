//! One connection's worth of protocol: the login handshake and the command
//! exchanges that follow it, one request in flight at a time.
//!
//! A [`Session`] never touches the transport. Each exchange is two calls: one
//! that yields the bytes to send, one that takes the bytes that came back.
//! Between the two the caller writes, waits and reads; if that fails, the
//! caller reports it with [`Session::transport_failed`].

use vstd::prelude::*;
use vstd::utf8::decode_utf8;
use vstd::utf8::encode_utf8;
use vstd::utf8::valid_utf8;
use crate::error::RconError;
use crate::error::RconErrorView;
use crate::message::frame_bytes;
use crate::message::frame_readable;
use crate::message::parsed_frame;
use crate::message::Message;
use crate::message::MessageView;
use crate::message::CLIENT_MAX_MESSAGE_SIZE;
use crate::message::COMMAND;
use crate::message::LOGIN;
use crate::text::decode_text;
use crate::text::encode_text;

verus! {

/// The request id that every request of a session carries.
pub const UID: u32 = 100;

/// Size of the buffer into which one reply is read.
pub const SERVER_MAX_MESSAGE_SIZE: usize = 4110;

/// Milliseconds to wait between sending a request and reading its reply.
pub const RESP_DELAY_MILLIS: u64 = 500;

/// Where a session stands.
#[derive(Debug, Clone, Copy, PartialEq, Eq, Structural)]
pub enum Phase {
    /// Connected; the login has not succeeded yet.
    Unauthenticated,
    /// Logged in; commands may be exchanged.
    Ready,
    /// Unusable. The connection has to be set up again with a new session.
    Failed,
}

/// The protocol state of one connection.
#[derive(Debug)]
pub struct Session {
    peer: String,
    phase: Phase,
}

/// A [`Session`] as mathematical values.
pub struct SessionView {
    /// The peer's address, as given when the session was made.
    pub peer: Seq<char>,
    pub phase: Phase,
}

impl SessionView {
    /// This session moved to `phase`.
    pub open spec fn at(self, phase: Phase) -> SessionView {
        SessionView { peer: self.peer, phase }
    }
}

impl View for Session {
    type V = SessionView;

    closed spec fn view(&self) -> SessionView {
        SessionView { peer: self.peer@, phase: self.phase }
    }
}

/// Whether a payload is short enough for an outbound frame.
pub open spec fn payload_fits(payload: Seq<u8>) -> bool {
    10 + payload.len() <= CLIENT_MAX_MESSAGE_SIZE
}

/// The bytes of the request that carries `payload`.
pub open spec fn request_bytes(packet_type: u32, payload: Seq<u8>) -> Seq<u8>
    recommends
        payload_fits(payload),
{
    frame_bytes(
        MessageView {
            length: (10 + payload.len()) as u32,
            request_id: UID,
            packet_type,
            payload,
        },
    )
}

/// What the reply to a login request leads to: the session afterwards, and
/// the result handed to the caller. Only a readable frame that echoes
/// [`UID`] logs the session in.
pub open spec fn login_outcome(s: SessionView, reply: Seq<u8>) -> (
    SessionView,
    Result<(), RconErrorView>,
) {
    if !frame_readable(reply) {
        (s.at(Phase::Failed), Err(RconErrorView::MalformedFrame))
    } else if parsed_frame(reply).request_id != UID {
        (s.at(Phase::Failed), Err(RconErrorView::AuthFailure { peer: s.peer }))
    } else {
        (s.at(Phase::Ready), Ok(()))
    }
}

/// What the reply to a command request leads to: the session afterwards,
/// and the text or the error handed to the caller. A payload that is not
/// text leaves the session usable.
pub open spec fn command_outcome(s: SessionView, reply: Seq<u8>) -> (
    SessionView,
    Result<Seq<char>, RconErrorView>,
) {
    if !frame_readable(reply) {
        (s.at(Phase::Failed), Err(RconErrorView::MalformedFrame))
    } else if !valid_utf8(parsed_frame(reply).payload) {
        (s, Err(RconErrorView::InvalidResponseEncoding { raw: parsed_frame(reply).payload }))
    } else {
        (s, Ok(decode_utf8(parsed_frame(reply).payload)))
    }
}

/// One whole command exchange with a peer that answers `peer(request)` to
/// the bytes `request`.
pub open spec fn command_exchange(
    s: SessionView,
    text: Seq<char>,
    peer: spec_fn(Seq<u8>) -> Seq<u8>,
) -> (SessionView, Result<Seq<char>, RconErrorView>) {
    if payload_fits(encode_utf8(text)) {
        command_outcome(s, peer(request_bytes(COMMAND, encode_utf8(text))))
    } else {
        (s, Err(RconErrorView::OversizeMessage))
    }
}

/// Against a peer whose answer depends on the request alone, a command
/// that left the session ready gives the same result when it is sent again,
/// and leaves the session as it was. A command that returned text did
/// leave the session ready.
pub proof fn lemma_command_repeatable(
    s: SessionView,
    text: Seq<char>,
    peer: spec_fn(Seq<u8>) -> Seq<u8>,
)
    requires
        s.phase is Ready,
    ensures
        command_exchange(s, text, peer).1 is Ok ==> command_exchange(s, text, peer).0.phase is Ready,
        command_exchange(s, text, peer).0.phase is Ready ==> command_exchange(
            command_exchange(s, text, peer).0,
            text,
            peer,
        ) == command_exchange(s, text, peer),
{
}

impl Session {
    /// A session for a connection to `peer` that has just been set up.
    pub fn new(peer: String) -> (s: Session)
        ensures
            s@ == (SessionView { peer: peer@, phase: Phase::Unauthenticated }),
    {
        Session { peer, phase: Phase::Unauthenticated }
    }

    /// Where the session stands.
    pub fn phase(&self) -> (p: Phase)
        ensures
            p == self@.phase,
    {
        self.phase
    }

    /// The peer's address.
    pub fn peer(&self) -> (p: &String)
        ensures
            p@ == self@.peer,
    {
        &self.peer
    }

    /// The bytes to send in order to log in with `password`. Fails with
    /// `OversizeMessage` exactly when the password is too long for a frame.
    pub fn login_request(&self, password: &str) -> (r: Result<Vec<u8>, RconError>)
        requires
            self@.phase is Unauthenticated,
        ensures
            match r {
                Ok(bytes) => payload_fits(encode_utf8(password@)) && bytes@ == request_bytes(
                    LOGIN,
                    encode_utf8(password@),
                ),
                Err(e) => !payload_fits(encode_utf8(password@)) && e@
                    == RconErrorView::OversizeMessage,
            },
    {
        request(LOGIN, encode_text(password))
    }

    /// Takes the bytes that came back after the login request. The session
    /// is `Ready` afterwards if they are a frame that echoes [`UID`], and
    /// `Failed` otherwise.
    pub fn login_reply(&mut self, reply: &[u8]) -> (r: Result<(), RconError>)
        requires
            old(self)@.phase is Unauthenticated,
        ensures
            final(self)@ == login_outcome(old(self)@, reply@).0,
            match r {
                Ok(_) => login_outcome(old(self)@, reply@).1 is Ok,
                Err(e) => login_outcome(old(self)@, reply@).1 == Err::<(), RconErrorView>(e@),
            },
    {
        match Message::from_deserialize(reply) {
            Ok(response) => {
                if response.request_id() != UID {
                    self.phase = Phase::Failed;
                    Err(RconError::AuthFailure { peer: self.peer.clone() })
                } else {
                    self.phase = Phase::Ready;
                    Ok(())
                }
            },
            Err(e) => {
                self.phase = Phase::Failed;
                Err(e)
            },
        }
    }

    /// The bytes to send in order to run the command `text`. Fails with
    /// `OversizeMessage` exactly when the text is too long for a frame.
    pub fn command_request(&self, text: &str) -> (r: Result<Vec<u8>, RconError>)
        requires
            self@.phase is Ready,
        ensures
            match r {
                Ok(bytes) => payload_fits(encode_utf8(text@)) && bytes@ == request_bytes(
                    COMMAND,
                    encode_utf8(text@),
                ),
                Err(e) => !payload_fits(encode_utf8(text@)) && e@ == RconErrorView::OversizeMessage,
            },
    {
        request(COMMAND, encode_text(text))
    }

    /// Takes the bytes that came back after a command request and gives
    /// the text of the reply. Bytes that are no frame make the session
    /// `Failed`.
    pub fn command_reply(&mut self, reply: &[u8]) -> (r: Result<String, RconError>)
        requires
            old(self)@.phase is Ready,
        ensures
            final(self)@ == command_outcome(old(self)@, reply@).0,
            match r {
                Ok(text) => command_outcome(old(self)@, reply@).1 == Ok::<
                    Seq<char>,
                    RconErrorView,
                >(text@),
                Err(e) => command_outcome(old(self)@, reply@).1 == Err::<
                    Seq<char>,
                    RconErrorView,
                >(e@),
            },
    {
        match Message::from_deserialize(reply) {
            Ok(response) => decode_text(response.into_payload()),
            Err(e) => {
                self.phase = Phase::Failed;
                Err(e)
            },
        }
    }

    /// Records that writing the request or reading the reply failed, for
    /// the reason `cause`. The session is `Failed` afterwards; the error to
    /// hand on names the peer.
    pub fn transport_failed(&mut self, cause: String) -> (e: RconError)
        ensures
            final(self)@ == old(self)@.at(Phase::Failed),
            e@ == (RconErrorView::TransportError { peer: old(self)@.peer, cause: cause@ }),
    {
        self.phase = Phase::Failed;
        RconError::TransportError { peer: self.peer.clone(), cause }
    }
}

/// The serialized request with id [`UID`] that carries `payload`.
fn request(packet_type: u32, payload: Vec<u8>) -> (r: Result<Vec<u8>, RconError>)
    ensures
        match r {
            Ok(bytes) => payload_fits(payload@) && bytes@ == request_bytes(packet_type, payload@),
            Err(e) => !payload_fits(payload@) && e@ == RconErrorView::OversizeMessage,
        },
{
    match Message::new(UID, packet_type, payload) {
        Ok(message) => Ok(message.serialize()),
        Err(e) => Err(e),
    }
}

} // verus!
