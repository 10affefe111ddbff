//! A local secret vault: named credentials encrypted under one master key,
//! admitted through a pipeline of policy checks, and protected by a
//! checksummed backup of the store.
//!
//! The library computes; it touches neither files nor the terminal. A caller
//! gathers what a command needs into a [`context::Context`], asks the command
//! to validate and execute, and carries out what comes back.

pub mod errors;
pub mod hexcode;
pub mod text;
pub mod digest;
pub mod cipher;
pub mod utils;
pub mod config;
pub mod master_key;
pub mod policy;
pub mod context;
pub mod validator;
pub mod cli;
pub mod backup;
