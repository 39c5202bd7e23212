pub mod config;
pub mod error;
pub mod policy;
pub mod date;
pub mod files;
pub mod fields;
