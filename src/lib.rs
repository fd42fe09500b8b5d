//! Client-side core for a turn-based grid game played over HTTP/JSON: the
//! packed board codec, the state decoder and the turn protocol.

pub mod board;
pub mod json;
pub mod state;
pub mod decode;
pub mod protocol;
pub mod bot;
