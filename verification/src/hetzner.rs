pub mod client;
pub mod models;
