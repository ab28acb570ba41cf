pub mod actions;
pub mod cli;
pub mod errors;
pub mod launched_apps;
pub mod models;
pub mod registry;
pub mod service;
pub mod text;
pub mod transport;
