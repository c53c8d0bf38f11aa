//! A chat bot's command core: it maps inbound chat text to typed commands,
//! keeps the usage counter, and drives the gas tank balance lookup against
//! the Biconomy data API.
pub mod biconomy;
pub mod classify;
pub mod commands;
pub mod config;
pub mod counter;
pub mod dispatch;
pub mod handler;
pub mod header;
pub mod registry;
pub mod text;

pub use crate::config::ConfigDependency;
pub use crate::counter::CommandCounter;
