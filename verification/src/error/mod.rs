pub mod base;
pub mod catalog;
pub mod code;
pub mod context;
pub mod descriptor;
pub mod kind;
pub mod native;
