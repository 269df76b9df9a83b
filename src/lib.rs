//! Decoding, filtering and forwarding of captured network frames.

pub mod args;
pub mod protocol;
pub mod text;
pub mod packet;
pub mod filter;
pub mod logger;
pub mod pipeline;
