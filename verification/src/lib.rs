//! nvimx: a profile manager for Neovim. This crate holds the decisions of the
//! tool (name checks, path layout, launch planning, registry caching, shell
//! integration scripts), each with a contract proved by Verus.
pub mod text;
pub mod config;
pub mod paths;
pub mod profile;
pub mod registry;
pub mod shell;
pub mod doctor;
pub mod update;
pub mod prompt;
pub mod cli;
pub mod sandbox;
