pub mod client;
pub mod error;
pub mod model;
pub mod parser;
pub mod service;
pub mod laws;
