//! Decoding IRC messages from lines of text.
pub mod error;
pub mod stream;
pub mod line;


pub use error::DecodeError;

pub use line::decode_line;
pub use stream::{StreamDecoder, Pending};
