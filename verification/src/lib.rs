//! Control core of a real-time voice-audio driver.
//!
//! The crate covers two tightly coupled subsystems:
//!
//! * the **mixer control protocol** — the command set consumed by the
//!   audio-mixing task, together with the connection handoff and teardown
//!   discipline that releases network resources whenever a live transport
//!   session is replaced or discarded (see [`message`] and [`mixer`]);
//! * the **event context duality** — the conversion layer between the
//!   internal, owned event representation handed around by the driver's own
//!   tasks and the read-only representation delivered to user callbacks,
//!   plus the classification used to route events to registered listeners
//!   (see [`context`]).
//!
//! Audio encoding, the wire protocol and the gateway handshake are external
//! collaborators; they appear here only through the channel endpoints and
//! the cipher handle that a connection bundles together.

pub mod channel;
pub mod cipher;
pub mod config;
pub mod context;
pub mod message;
pub mod mixer;
pub mod tracks;
