//! Verified core for driving the `extractpbo` command-line tool: building its
//! argument vector, interpreting its textual output, classifying extracted
//! content and planning the renames of binary payload files.

pub mod api;
pub mod cli;
pub mod command;
pub mod config;
pub mod constants;
pub mod content;
pub mod error;
pub mod executor;
pub mod mapper;
pub mod options;
pub mod paths;
pub mod result;
pub mod temp;
pub mod text;
