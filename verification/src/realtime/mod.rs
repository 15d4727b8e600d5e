//! Real-time change notifications: the wire vocabulary, liveness tracking, retry
//! pacing and the connection state machine that ties them together.

pub mod events;
pub mod heartbeat;
pub mod lifecycle;
pub mod reconnect;
pub mod sync;
pub mod timing;
pub mod url;

pub use events::SyncEvent;
pub use sync::{ConnectionState, RealtimeSync};
