//! Signalling controller for a WHIP (WebRTC-HTTP Ingestion Protocol) media
//! sender.
//!
//! The controller aggregates locally generated SDP offer fragments and
//! trickled ICE candidates into one composed SDP offer per session, decides
//! when candidate gathering is complete (end-of-candidates sentinel or a
//! fallback timer, whichever fires first), and issues at most one HTTP
//! exchange per session. The surrounding process performs the actual
//! network I/O and timers; it drives this library through plain values and
//! carries out the actions the library returns.

pub mod action;
pub mod aggregator;
pub mod error;
pub mod exchange;
pub mod laws;
pub mod mailbox;
pub mod message;
pub mod sentinel;
pub mod signaller;
