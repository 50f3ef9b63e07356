pub mod config;
pub mod request;
pub mod text;
