//! One way to send a prompt to any of several AI text-generation providers,
//! and the configuration those providers are reached with.
//!
//! Nothing in this library touches the network or the disk. A prompt exchange
//! is split in two around its one network call (`clients::AiClient`), and the
//! loading and saving of the configuration file are protocols that a driver
//! carries out step by step (`store`).

pub mod clients;
pub mod config;
pub mod dispatch;
pub mod document;
pub mod json_tree;
pub mod laws;
pub mod logger;
pub mod merge;
pub mod store;
pub mod text;
pub mod toml_tree;
pub mod views;
