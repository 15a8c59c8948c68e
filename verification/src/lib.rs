//! Discord Rich Presence command core.
//!
//! The crate translates inbound activity payloads into outgoing activity
//! descriptors, manages a lazily connected rich-presence IPC client behind a
//! session value, and provides the echo text transform that the mobile FFI
//! boundary exposes.
pub mod payload;
pub mod session;
pub mod text;
