pub mod field;
pub mod level;
pub mod logger;
pub mod record;
