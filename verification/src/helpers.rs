pub mod env;
pub mod file;
pub mod logger;
