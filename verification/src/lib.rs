//! Tracking of the Diablo Clone progress that a status endpoint reports for
//! three regions: what a reading means, when it changes what is known, and
//! which notification a change calls for.

pub mod cycle;
pub mod decimal;
pub mod endpoint;
pub mod error;
pub mod journal;
pub mod monitor;
pub mod progress;
pub mod region;
pub mod severity;
pub mod status;
