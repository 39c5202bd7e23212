//! Verified building blocks of the George application template: structured
//! error codes, logging records and policies, validated identifier types and
//! the NTP time-synchronisation core.

pub mod error;
pub mod log;
pub mod logging;
pub mod net;
pub mod ntp;
pub mod text;
pub mod types;
