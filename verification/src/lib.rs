//! A password vault: entries encrypted with a key derived from a master
//! password, a password generator, and the state machine of the terminal
//! interface that drives them.
pub mod text;
pub mod error;
pub mod models;
pub mod crypto;
pub mod ext;
pub mod config;
pub mod settings;
pub mod actions;
pub mod display;
pub mod vault;
pub mod app_state;
pub mod app;
