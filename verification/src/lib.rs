//! Signaling handshakes and event bridges for WebRTC data channels.
//!
//! Everything here is synchronous and owns its state: an event of the
//! transport is a call that changes a bridge, and a wait is a value that says
//! what to wait for. Each change is proved against a mathematical model of the
//! bridge, and the laws of the models are proved beside them.
//!
//! * [`channel`]: the bridge of one data channel, with its open and close
//!   latches and its inbox.
//! * [`connection`]: the facade of one connection, with its gathering latch
//!   and its queues of candidates, states and channels.
//! * [`client`]: the outbound handshake, step by step.
//! * [`server`]: the accept queue, the pending handshake, and the answering
//!   of a request, step by step.
//! * [`signaling`]: what the two sides of a handshake have from each other.
//! * [`mailbox`], [`sync_util`]: the queue and the latch underneath.
//! * [`facade`], [`libdatachannel`], [`native`]: the data model, the plain
//!   data of the native transport, and the rules between the two.
//! * [`http`], [`text`]: responses, headers and UTF-8.

pub mod channel;
pub mod client;
pub mod connection;
pub mod facade;
pub mod http;
pub mod libdatachannel;
pub mod mailbox;
pub mod native;
pub mod server;
pub mod signaling;
pub mod sync_util;
pub mod text;
