//! Client-side logic of the Openfeed protocol for streaming Barchart market data:
//! connection settings, the requests a client sends, the decisions it takes on the
//! gateway's replies, and the splitting of the binary feed into length-prefixed frames.

pub mod client;
pub mod connection;
pub mod error;
pub mod openfeed;
