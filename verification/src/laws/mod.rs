//! What holds of the library as a whole, over any number of calls.

pub mod access;
pub mod binding;
pub mod events;
pub mod failures;
pub mod framing;
pub mod request;
pub mod response;
pub mod streaming;
pub mod texts;
pub mod turns;
pub mod wire;
