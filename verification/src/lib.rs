//! A telemetry relay: one ordered stream of device updates is fanned out to
//! any number of independently failing sinks, each of which delivers the
//! stream to one external system. The reference sink converts updates into
//! labeled, timestamped samples for a remote-write metrics endpoint and
//! retries delivery on transport failure.

pub mod delivery;
pub mod distributor;
pub mod prometheus;
pub mod update;
