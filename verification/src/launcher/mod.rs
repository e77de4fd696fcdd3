//! The launcher around the client: navigation, configuration, saved
//! sign-ins, the device token, update checks and the game's launch
//! arguments.

pub mod account;
pub mod args;
pub mod config;
pub mod launchargs;
pub mod login;
pub mod main_ext;
pub mod pages;
pub mod registries;
pub mod update;
