pub mod error;
pub mod id;
pub mod non_empty;
pub mod order;
