//! Serverless peer-to-peer chat: connection blobs exchanged by hand, a
//! negotiation state machine, and the chat messages relayed over the channel.
pub mod state;
pub mod b64;
pub mod codec;
pub mod engine;
pub mod chat;
