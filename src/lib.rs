pub mod config;
pub mod health;
pub mod protocol;
pub mod replica;
