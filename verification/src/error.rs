use vstd::prelude::*;

verus! {

/// The error a websocket operation of the `tungstenite` crate reports.
#[verifier::external_type_specification]
#[verifier::external_body]
pub struct ExWebSocketError(tungstenite::Error);

/// The error `prost` reports when bytes do not decode into a message.
#[verifier::external_type_specification]
#[verifier::external_body]
pub struct ExDecodeError(prost::DecodeError);

/// Everything that can go wrong while talking to an Openfeed gateway.
#[derive(Debug)]
pub enum OpenfeedError {
    /// The gateway refused the credentials (or the logout); holds its status message.
    InvalidLogin(String),
    /// The feed ended before the expected reply arrived.
    StreamClosed(),
    /// Reading from the network failed.
    NetworkRead(),
    /// The gateway reported an error; holds its message.
    Server(String),
    /// A reply did not have the shape the protocol prescribes.
    DeserializeError(),
    /// A blocking connection was asked to send while its feed was being read.
    FeedActive(),
    /// The websocket layer failed.
    Tungstenite(tungstenite::Error),
    /// A frame did not decode into a gateway message.
    DecodeError(prost::DecodeError),
}

pub type OpenfeedResult<T> = Result<T, OpenfeedError>;

} // verus!
