//! The start of a connection: the connection held while registering, and why registering fails.
pub mod error;
pub mod asynchronous;
pub mod stream;

pub use error::{HandshakeError, CheckError};
