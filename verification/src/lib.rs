//! Core of a background worker that measures connection-handshake latency to a
//! configurable set of target addresses on a fixed cadence.
//!
//! Each round the worker takes one consistent snapshot of its configuration,
//! probes every address in snapshot order, and assembles a single result row
//! `[kind id, version tag, timestamp, value per target]`, where a value is a
//! truncated mean latency in microseconds or a reserved sentinel marking total
//! failure for that target. The modules here hold the verified logic of that
//! round: the snapshot model ([`options`]), the per-target outcome reduction
//! ([`probe`]), the row assembly ([`row`]), the pacing between rounds
//! ([`pacing`]), and the clock access ([`clock`]).
pub mod clock;
pub mod options;
pub mod pacing;
pub mod probe;
pub mod row;
