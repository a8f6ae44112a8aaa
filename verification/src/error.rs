//! The ways in which building a frame, reading one or a whole exchange can fail.

use vstd::prelude::*;

verus! {

/// Every failure that the library reports. None is retried or repaired
/// here: each is handed to the caller as it is.
#[derive(Debug, PartialEq, Eq)]
pub enum RconError {
    /// The frame would be larger than a client may send. Nothing was sent.
    OversizeMessage,
    /// Writing to or reading from the peer failed.
    TransportError { peer: String, cause: String },
    /// The bytes received are not a frame.
    MalformedFrame,
    /// The peer turned the password down.
    AuthFailure { peer: String },
    /// The payload of the reply is not UTF-8 text; `raw` holds it as received.
    InvalidResponseEncoding { raw: Vec<u8> },
}

/// What an [`RconError`] holds, as mathematical values.
pub enum RconErrorView {
    OversizeMessage,
    TransportError { peer: Seq<char>, cause: Seq<char> },
    MalformedFrame,
    AuthFailure { peer: Seq<char> },
    InvalidResponseEncoding { raw: Seq<u8> },
}

impl View for RconError {
    type V = RconErrorView;

    open spec fn view(&self) -> RconErrorView {
        match *self {
            RconError::OversizeMessage => RconErrorView::OversizeMessage,
            RconError::TransportError { peer, cause } => RconErrorView::TransportError {
                peer: peer@,
                cause: cause@,
            },
            RconError::MalformedFrame => RconErrorView::MalformedFrame,
            RconError::AuthFailure { peer } => RconErrorView::AuthFailure { peer: peer@ },
            RconError::InvalidResponseEncoding { raw } => RconErrorView::InvalidResponseEncoding {
                raw: raw@,
            },
        }
    }
}

} // verus!
