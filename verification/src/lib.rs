//! Request handling rules of a speech-to-text MCP server: JSON-RPC dispatch,
//! HTTP admission and sessions, and the decisions around audio decoding and
//! transcription.

pub mod text;
pub mod outside;
pub mod rpc;
pub mod http_gate;
pub mod audio;
pub mod transcription;
pub mod cli;
