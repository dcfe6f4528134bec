//! A verified model of a safety bridge over a native streaming-transport
//! engine.
//!
//! The native engine exposes blocking, callback-driven, pointer-based C
//! semantics.  This crate verifies the layer that sits on top of it: handle
//! ownership with release-exactly-once, the typed error taxonomy, the
//! session state machine (peers, start, blocking reads and writes), the
//! stats cell written from a periodic callback, the byte-stream adapter
//! over block reads, and the two asynchronous bridging strategies.
//!
//! Every native call is represented by the plain values it yields: a return
//! code and, where the call produces one, a handle or a payload.  A driver
//! performs the actual calls and hands their outcomes to the functions
//! here, which make every decision the bridge makes — validation, error
//! mapping, state transitions, buffering — under contracts that pin those
//! decisions down.

pub mod context;
pub mod error;
pub mod laws;
pub mod logging;
pub mod native;
pub mod offload;
pub mod options;
pub mod profile;
pub mod readiness;
pub mod receiver;
pub mod sender;
pub mod stats;
pub mod stream;

pub use context::Context;
pub use error::Error;
pub use logging::{set_logging, LogLevel};
pub use native::{CreateOutcome, ParseOutcome};
pub use offload::{AsyncSender, Connect};
pub use options::{PeerConfig, ReceiverOptions, RecoveryMode, SenderOptions};
pub use profile::Profile;
pub use readiness::AsyncReceiver;
pub use receiver::{DataBlock, ReadOutcome, Receiver};
pub use sender::Sender;
pub use stats::{ReceiverStats, SenderStats, StatsEvent};
pub use stream::StreamBuf;
