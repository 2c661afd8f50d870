//! Audio capture-session engine and device-topology resolver.
//!
//! The crate models the logic of a two-source audio capture session: the
//! reconnect-capable session supervisor with its per-stream buffer, metering
//! and encode pipeline, and device enumeration with default-device resolution
//! and hotplug monitoring.  Sample data is handled as IEEE 754 single-precision
//! bit patterns, so every step of the pipeline has an exact integer semantics.
//!
//! The audio server itself, the container-file encoder and all I/O are outside
//! collaborators; the unverified shell around this crate drives them and feeds
//! their observations into the state machines defined here.

pub mod config;
pub mod device;
pub mod enumerate;
pub mod events;
pub mod monitor;
pub mod pipeline;
pub mod sample;
pub mod supervisor;
