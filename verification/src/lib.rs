//! A client for the Actobase request and account services: its commands, the requests they
//! make, and what it keeps of the account between runs.
use vstd::prelude::*;

pub mod cli;
pub mod client;
pub mod commands;
pub mod config;
pub mod json;
pub mod laws;
pub mod output;
pub mod text;
